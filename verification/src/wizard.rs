//! A wizard asks a fixed sequence of typed questions, one input widget at a
//! time. The workflow that uses it is written as straight-line code and run
//! again every frame: questions that were answered in an earlier frame are
//! answered at once from what was kept, and the first open question is put
//! to its widget.

use crate::answer::{
    is_probability, recoverable, stored_answer, views, Answer, AnswerView, Cloneable,
    CloneableImpl, Neighborhood, Percent, Tick,
};
use crate::input::{
    choice_views, InputResult, InputResultView, InputView, Menu, MenuView, TextBox, UserInput,
};
use std::collections::VecDeque;
use vstd::prelude::*;

verus! {

/// The two kinds of input widget.
#[derive(Clone, Copy, Debug, PartialEq, Eq, Hash, Structural)]
pub enum Widget {
    Menu,
    TextBox,
}

pub struct Wizard {
    alive: bool,
    tb: Option<TextBox>,
    menu: Option<Menu>,
    // In the order of the questions asked.
    confirmed_state: Vec<Answer>,
}

pub struct WizardView {
    /// False once the user has cancelled.
    pub alive: bool,
    /// The prompt of the open text box.
    pub tb: Option<Seq<char>>,
    pub menu: Option<MenuView>,
    /// The answers confirmed so far, in the order of the questions.
    pub confirmed: Seq<AnswerView>,
}

impl View for Wizard {
    type V = WizardView;

    closed spec fn view(&self) -> WizardView {
        WizardView {
            alive: self.alive,
            tb: match self.tb {
                Some(tb) => Some(tb@),
                None => None,
            },
            menu: match self.menu {
                Some(menu) => Some(menu@),
                None => None,
            },
            confirmed: views(self.confirmed_state@),
        }
    }
}

/// A wizard for the length of one frame, with that frame's input and the
/// answers that are still to be replayed.
pub struct WrappedWizard<'a> {
    pub wizard: &'a mut Wizard,
    pub input: &'a mut UserInput,
    pub ready_results: VecDeque<Answer>,
}

pub struct FrameView {
    pub wizard: WizardView,
    pub input: InputView,
    /// The confirmed answers that have not been replayed yet this frame.
    pub ready: Seq<AnswerView>,
}

impl<'a> View for WrappedWizard<'a> {
    type V = FrameView;

    open spec fn view(&self) -> FrameView {
        FrameView { wizard: self.wizard@, input: self.input@, ready: views(self.ready_results@) }
    }
}

/// The stored forms of the entries that a menu is made of, one for one.
pub open spec fn stored_choices<R: CloneableImpl>(choices: Seq<(String, R)>) -> Seq<
    (Seq<char>, AnswerView),
> {
    Seq::new(choices.len(), |i: int| (choices[i].0@, choices[i].1.stored()))
}

/// The stored form of a choice that may be missing.
pub open spec fn stored_choice<R: CloneableImpl>(choice: Option<(String, R)>) -> Option<
    AnswerView,
> {
    match choice {
        Some((label, value)) => Some(AnswerView::Choice(label@, Box::new(value.stored()))),
        None => None,
    }
}

/// The entries of a menu of labels that carry no value.
pub open spec fn label_choices(labels: Seq<&str>) -> Seq<(Seq<char>, AnswerView)> {
    Seq::new(labels.len(), |i: int| (labels[i]@, AnswerView::Unit))
}

/// Whether `choices` is what the generator of a menu's entries made.
pub open spec fn generated<R: CloneableImpl, G: FnOnce() -> Vec<(String, R)>>(
    generator: G,
    choices: Seq<(Seq<char>, AnswerView)>,
) -> bool {
    exists|made: Vec<(String, R)>| #[trigger]
        generator.ensures((), made) && stored_choices(made@) == choices
}

/// The digits of a non-negative whole number, read in base ten.
pub open spec fn decimal_value(digits: Seq<char>) -> nat
    decreases digits.len(),
{
    if digits.len() == 0 {
        0
    } else {
        decimal_value(digits.drop_last()) * 10 + (digits.last() as u32 - '0' as u32) as nat
    }
}

pub open spec fn is_digit(c: char) -> bool {
    '0' as u32 <= c as u32 <= '9' as u32
}

/// The count that a line of text stands for: an optional plus sign, then one
/// or more digits and nothing else, naming a number that a `usize` can hold.
pub open spec fn parsed_count(line: Seq<char>) -> Option<usize> {
    let digits = if line.len() > 0 && line[0] == '+' {
        line.skip(1)
    } else {
        line
    };
    if digits.len() > 0 && (forall|i: int| 0 <= i < digits.len() ==> is_digit(#[trigger] digits[i]))
        && decimal_value(digits) <= usize::MAX {
        Some(decimal_value(digits) as usize)
    } else {
        None
    }
}

/// `str::parse::<usize>`, with its error dropped. The contract restates the
/// documentation of the standard library: the text must be an optional `+`
/// followed by decimal digits only, with no white space, and the number must
/// fit.
#[verifier::external_body]
fn parse_count(line: &str) -> (count: Option<usize>)
    ensures
        count == parsed_count(line@),
{
    line.parse::<usize>().ok()
}

/// Whether `answer` is the probability that `bits` encode: the probability
/// with these bits if they encode one, and otherwise nothing.
pub open spec fn is_percent_of(answer: Option<Percent>, bits: Option<u64>) -> bool {
    match answer {
        Some(p) => bits == Some(p.bits()) && is_probability(p.bits()),
        None => bits matches Some(b) ==> !is_probability(b),
    }
}

impl WizardView {
    /// A wizard that has asked nothing yet.
    pub open spec fn fresh() -> WizardView {
        WizardView { alive: true, tb: None, menu: None, confirmed: Seq::empty() }
    }

    /// The open widgets in the order they are rendered.
    pub open spec fn draw_order(self) -> Seq<Widget> {
        let menu = if self.menu is Some {
            seq![Widget::Menu]
        } else {
            Seq::empty()
        };
        if self.tb is Some {
            menu.push(Widget::TextBox)
        } else {
            menu
        }
    }

    /// The entry of the open menu at position `i`, if there is one.
    pub open spec fn menu_choice(self, i: int) -> Option<AnswerView> {
        if self.menu is Some && 0 <= i < self.menu->0.choices.len() {
            Some(self.menu->0.choices[i].1)
        } else {
            None
        }
    }

    /// A live wizard puts a text question to its text box. Nothing happens if
    /// the frame's event is gone. Otherwise the box is opened if it is not
    /// open, and takes the event: it may stay open, be cancelled, which ends
    /// the wizard, or confirm a line. `parsed` is what the question's parser
    /// makes of a confirmed line.
    pub open spec fn text_box_step(
        self,
        input: InputView,
        query: Seq<char>,
        parsed: Option<AnswerView>,
    ) -> (WizardView, InputView, Option<AnswerView>) {
        if input.consumed {
            (self, input, None)
        } else {
            match input.result {
                InputResultView::StillActive => (
                    WizardView {
                        tb: if self.tb is Some {
                            self.tb
                        } else {
                            Some(query)
                        },
                        ..self
                    },
                    InputView::taken(),
                    None,
                ),
                InputResultView::Canceled => (
                    WizardView { alive: false, tb: None, ..self },
                    InputView::taken(),
                    None,
                ),
                InputResultView::Done(_, _) => (
                    WizardView { tb: None, ..self },
                    InputView::taken(),
                    parsed,
                ),
            }
        }
    }

    /// With one more confirmed answer, if there is one.
    pub open spec fn confirm(self, answer: Option<AnswerView>) -> WizardView {
        match answer {
            Some(a) => WizardView { confirmed: self.confirmed.push(a), ..self },
            None => self,
        }
    }
}

/// An open menu is put to the frame's input. Nothing happens if the event is
/// gone. Otherwise the menu takes it: it may stay open, be cancelled, which
/// ends the wizard, or confirm an entry.
pub open spec fn menu_step(menu: Option<MenuView>, alive: bool, input: InputView) -> (
    Option<MenuView>,
    bool,
    InputView,
    Option<(Seq<char>, AnswerView)>,
) {
    if input.consumed {
        (menu, alive, input, None)
    } else {
        match input.result {
            InputResultView::Canceled => (None, false, InputView::taken(), None),
            InputResultView::StillActive => (menu, alive, InputView::taken(), None),
            InputResultView::Done(name, item) => (
                None,
                alive,
                InputView::taken(),
                Some((name, item)),
            ),
        }
    }
}

impl FrameView {
    /// The frame as it begins: every confirmed answer is still to be replayed.
    pub open spec fn open(wizard: WizardView, input: InputView) -> FrameView {
        FrameView { wizard, input, ready: wizard.confirmed }
    }

    /// Whether the next question is answered from what was kept.
    pub open spec fn replays(self) -> bool {
        self.wizard.alive && self.ready.len() > 0
    }

    /// Whether the next question is put to a widget that then reports a
    /// confirmed value.
    pub open spec fn confirms(self) -> bool {
        self.wizard.alive && self.ready.len() == 0 && !self.input.consumed && self.input.result is Done
    }

    /// Whether the next choice question has to make its menu.
    pub open spec fn opens_menu(self) -> bool {
        self.wizard.alive && self.ready.len() == 0 && self.wizard.menu is None
    }

    /// What the parser named by `parser` makes of the line that the input
    /// confirms; none if the input confirms nothing.
    pub open spec fn parsed_by(self, parser: spec_fn(Seq<char>) -> Option<AnswerView>) -> Option<
        AnswerView,
    > {
        match self.input.result {
            InputResultView::Done(line, _) => parser(line),
            _ => None,
        }
    }

    /// A text question is asked: the frame after it, and the answer in its
    /// stored form. A wizard that was cancelled answers nothing. An answer
    /// that was kept is replayed and nothing else is touched. Otherwise the
    /// question goes to the text box, and a line that its parser accepts is
    /// kept as the next confirmed answer. `parsed` is what the parser makes
    /// of a confirmed line.
    pub open spec fn ask_text(self, query: Seq<char>, parsed: Option<AnswerView>) -> (
        FrameView,
        Option<AnswerView>,
    ) {
        if !self.wizard.alive {
            (self, None)
        } else if self.ready.len() > 0 {
            (FrameView { ready: self.ready.skip(1), ..self }, Some(self.ready[0]))
        } else {
            let (wizard, input, answer) = self.wizard.text_box_step(self.input, query, parsed);
            (FrameView { wizard: wizard.confirm(answer), input, ready: self.ready }, answer)
        }
    }

    /// A choice question is asked: the frame after it, and the answer in its
    /// stored form, a label with its value. A wizard that was cancelled
    /// answers nothing. An answer that was kept is replayed and nothing else
    /// is touched. Otherwise the menu is made of `choices` if none is open,
    /// whether or not the frame's event is gone, and is put to the input. An
    /// entry that it confirms is kept as the next confirmed answer if its
    /// value is of the type asked for, which `accepted` says.
    pub open spec fn ask_choice(
        self,
        query: Seq<char>,
        choices: Seq<(Seq<char>, AnswerView)>,
        accepted: bool,
    ) -> (FrameView, Option<AnswerView>) {
        if !self.wizard.alive {
            (self, None)
        } else if self.ready.len() > 0 {
            (FrameView { ready: self.ready.skip(1), ..self }, Some(self.ready[0]))
        } else {
            let shown = if self.wizard.menu is Some {
                self.wizard.menu
            } else {
                Some(MenuView { prompt: query, choices })
            };
            let (menu, alive, input, picked) = menu_step(shown, true, self.input);
            let wizard = WizardView { menu, alive, ..self.wizard };
            let answer = match picked {
                Some((name, item)) => if accepted {
                    Some(AnswerView::Choice(name, Box::new(item)))
                } else {
                    None
                },
                None => None,
            };
            (FrameView { wizard: wizard.confirm(answer), input, ready: self.ready }, answer)
        }
    }

    /// Whether the value that the input confirms is of type `R`.
    pub open spec fn accepts<R: CloneableImpl>(self) -> bool {
        match self.input.result {
            InputResultView::Done(_, item) => recoverable::<R>(item),
            _ => false,
        }
    }

    /// Whether the answer that is replayed next is a choice whose value is of
    /// type `R`.
    pub open spec fn replays_choice_of<R: CloneableImpl>(self) -> bool {
        self.ready[0] matches AnswerView::Choice(_, value) && recoverable::<R>(*value)
    }
}

/// The label of a stored choice.
pub open spec fn label_of(answer: Option<AnswerView>) -> Option<Seq<char>> {
    match answer {
        Some(AnswerView::Choice(label, _)) => Some(label),
        _ => None,
    }
}

/// The view of a line that may be missing.
pub open spec fn line_view(line: Option<String>) -> Option<Seq<char>> {
    match line {
        Some(s) => Some(s@),
        None => None,
    }
}

proof fn views_push(answers: Seq<Answer>, answer: Answer)
    ensures
        views(answers.push(answer)) == views(answers).push(answer@),
{
    assert(views(answers.push(answer)) =~= views(answers).push(answer@));
}

proof fn views_skip(answers: Seq<Answer>)
    requires
        answers.len() > 0,
    ensures
        views(answers.skip(1)) == views(answers).skip(1),
        views(answers)[0] == answers[0]@,
{
    assert(views(answers.skip(1)) =~= views(answers).skip(1));
}

/// The entries of a menu, each value in its stored form.
fn box_choices<R: Cloneable>(choices: Vec<(String, R)>) -> (boxed: Vec<(String, Answer)>)
    ensures
        choice_views(boxed@) == stored_choices(choices@),
{
    let mut boxed: Vec<(String, Answer)> = Vec::new();
    let mut i: usize = 0;
    while i < choices.len()
        invariant
            i <= choices.len(),
            boxed@.len() == i,
            forall|j: int|
                0 <= j < i ==> (#[trigger] boxed@[j]).0@ == choices@[j].0@ && boxed@[j].1@
                    == choices@[j].1.stored(),
        decreases choices.len() - i,
    {
        let label = choices[i].0.clone();
        let value = choices[i].1.clone_box();
        boxed.push((label, value));
        i = i + 1;
    }
    assert(choice_views(boxed@) =~= stored_choices(choices@));
    boxed
}

/// The entries of a menu of labels that carry no value.
fn unit_choices(labels: &Vec<&str>) -> (choices: Vec<(String, ())>)
    ensures
        stored_choices(choices@) == label_choices(labels@),
{
    let mut choices: Vec<(String, ())> = Vec::new();
    let mut i: usize = 0;
    while i < labels.len()
        invariant
            i <= labels.len(),
            choices@.len() == i,
            forall|j: int| 0 <= j < i ==> (#[trigger] choices@[j]).0@ == labels@[j]@,
        decreases labels.len() - i,
    {
        choices.push((labels[i].to_owned(), ()));
        i = i + 1;
    }
    assert(stored_choices(choices@) =~= label_choices(labels@));
    choices
}

/// An open menu is put to the frame's input.
fn input_with_menu(menu: &mut Option<Menu>, alive: &mut bool, input: &mut UserInput) -> (picked:
    Option<(String, Answer)>)
    requires
        *old(alive),
        *old(menu) is Some,
    ensures
        ({
            let before = Some(old(menu)->0@);
            let after = match *final(menu) {
                Some(m) => Some(m@),
                None => None,
            };
            let chosen = match picked {
                Some((name, item)) => Some((name@, item@)),
                None => None,
            };
            (after, *final(alive), final(input)@, chosen) == menu_step(before, true, old(input)@)
        }),
{
    if input.has_been_consumed() {
        return None;
    }
    match input.take() {
        InputResult::Canceled => {
            *menu = None;
            *alive = false;
            None
        },
        InputResult::StillActive => None,
        InputResult::Done(name, item) => {
            *menu = None;
            Some((name, item))
        },
    }
}

impl Wizard {
    pub fn new() -> (wizard: Wizard)
        ensures
            wizard@ == WizardView::fresh(),
    {
        let wizard = Wizard { alive: true, tb: None, menu: None, confirmed_state: Vec::new() };
        assert(wizard@.confirmed =~= Seq::empty());
        wizard
    }

    /// The open widgets in the order they are to be rendered: the menu, then
    /// the text box.
    pub fn draw(&self) -> (widgets: Vec<Widget>)
        ensures
            widgets@ == self@.draw_order(),
    {
        let mut widgets: Vec<Widget> = Vec::new();
        if self.menu.is_some() {
            widgets.push(Widget::Menu);
        }
        if self.tb.is_some() {
            widgets.push(Widget::TextBox);
        }
        assert(widgets@ =~= self@.draw_order());
        widgets
    }

    /// The wizard for the length of one frame. Every answer confirmed so far
    /// is ready to be replayed, in the order it was confirmed.
    pub fn wrap<'a>(&'a mut self, input: &'a mut UserInput) -> (wrapped: WrappedWizard<'a>)
        ensures
            wrapped@ == FrameView::open(old(self)@, old(input)@),
            *final(wrapped.wizard) == *final(self),
            *final(wrapped.input) == *final(input),
    {
        let mut ready_results: VecDeque<Answer> = VecDeque::new();
        let mut i: usize = 0;
        while i < self.confirmed_state.len()
            invariant
                i <= self.confirmed_state.len(),
                ready_results@.len() == i,
                forall|j: int| 0 <= j < i ==> (#[trigger] ready_results@[j])@ == self.confirmed_state@[j]@,
            decreases self.confirmed_state.len() - i,
        {
            ready_results.push_back(self.confirmed_state[i].duplicate());
            i = i + 1;
        }
        assert(views(ready_results@) =~= views(self.confirmed_state@));
        WrappedWizard { wizard: self, input, ready_results }
    }

    /// Whether the user has cancelled. A cancelled wizard answers nothing
    /// any more and is to be discarded.
    pub fn aborted(&self) -> (aborted: bool)
        ensures
            aborted == !self@.alive,
    {
        !self.alive
    }

    /// The value of the menu entry at `current_idx`, the position that the
    /// menu widget highlights. None if no menu is open, if there is no such
    /// entry, or if the value is not of the type asked for.
    pub fn current_menu_choice<R: Cloneable>(&self, current_idx: usize) -> (choice: Option<R>)
        ensures
            stored_answer(choice) == (match self@.menu_choice(current_idx as int) {
                Some(value) => if recoverable::<R>(value) {
                    Some(value)
                } else {
                    None
                },
                None => None,
            }),
    {
        if let Some(menu) = &self.menu {
            if current_idx < menu.choices.len() {
                let item = R::downcast(&menu.choices[current_idx].1);
                return item;
            }
        }
        None
    }

    /// The open text box.
    pub fn text_box(&self) -> (tb: Option<&TextBox>)
        ensures
            self@.tb == (match tb {
                Some(tb) => Some(tb@),
                None => None,
            }),
    {
        self.tb.as_ref()
    }

    /// The open menu.
    pub fn menu(&self) -> (menu: Option<&Menu>)
        ensures
            self@.menu == (match menu {
                Some(menu) => Some(menu@),
                None => None,
            }),
    {
        self.menu.as_ref()
    }

    /// The answers confirmed so far, in the order of the questions.
    pub fn confirmed_state(&self) -> (confirmed: &Vec<Answer>)
        ensures
            views(confirmed@) == self@.confirmed,
    {
        &self.confirmed_state
    }

    fn input_with_text_box<R: Cloneable, F: Fn(String) -> Option<R>>(
        &mut self,
        query: &str,
        input: &mut UserInput,
        parser: F,
    ) -> (answer: Option<R>)
        requires
            old(self)@.alive,
            forall|line: String| parser.requires((line,)),
        ensures
            (final(self)@, final(input)@, stored_answer(answer)) == old(self)@.text_box_step(
                old(input)@,
                query@,
                stored_answer(answer),
            ),
            final(self).confirmed_state == old(self).confirmed_state,
            !old(input)@.consumed && old(input)@.result is Done ==> exists|line: String|
                line@ == old(input)@.result->Done_0 && #[trigger] parser.ensures((line,), answer),
    {
        // One event must not answer two questions.
        if input.has_been_consumed() {
            return None;
        }
        if self.tb.is_none() {
            self.tb = Some(TextBox::new(query));
        }
        match input.take() {
            InputResult::StillActive => None,
            InputResult::Canceled => {
                self.alive = false;
                self.tb = None;
                None
            },
            InputResult::Done(line, _) => {
                self.tb = None;
                let ghost typed = line;
                let answer = parser(line);
                assert(parser.ensures((typed,), answer));
                answer
            },
        }
    }
}

impl<'a> WrappedWizard<'a> {
    /// Asks for a value of type `R` that is typed as a line of text and read
    /// by `parser`. The outcome is that of `FrameView::ask_text`, where the
    /// parser is asked only about a line that the text box confirms. A line
    /// that the parser refuses is dropped: nothing is kept, and the question
    /// is open again in the next frame.
    pub fn input_something<R: Cloneable, F: Fn(String) -> Option<R>>(
        &mut self,
        query: &str,
        parser: F,
    ) -> (answer: Option<R>)
        requires
            forall|line: String| parser.requires((line,)),
            old(self)@.replays() ==> recoverable::<R>(old(self)@.ready[0]),
        ensures
            (final(self)@, stored_answer(answer)) == old(self)@.ask_text(
                query@,
                stored_answer(answer),
            ),
            old(self)@.confirms() ==> exists|line: String|
                line@ == old(self)@.input.result->Done_0 && #[trigger] parser.ensures(
                    (line,),
                    answer,
                ),
            *final(final(self).wizard) == *final(old(self).wizard),
            *final(final(self).input) == *final(old(self).input),
    {
        if self.wizard.aborted() {
            return None;
        }
        if self.ready_results.len() > 0 {
            proof {
                views_skip(self.ready_results@);
            }
            let first = self.ready_results.pop_front().unwrap();
            let item = R::downcast(&first);
            return item;
        }
        let answer = self.wizard.input_with_text_box(query, self.input, parser);
        if let Some(obj) = &answer {
            let boxed = obj.clone_box();
            proof {
                views_push(self.wizard.confirmed_state@, boxed);
            }
            self.wizard.confirmed_state.push(boxed);
        }
        answer
    }

    /// Asks for a line of text; any line will do.
    pub fn input_string(&mut self, query: &str) -> (answer: Option<String>)
        requires
            old(self)@.replays() ==> recoverable::<String>(old(self)@.ready[0]),
        ensures
            (final(self)@, stored_answer(answer)) == old(self)@.ask_text(
                query@,
                old(self)@.parsed_by(|line: Seq<char>| Some(AnswerView::Text(line))),
            ),
            *final(final(self).wizard) == *final(old(self).wizard),
            *final(final(self).input) == *final(old(self).input),
    {
        self.input_something(
            query,
            |line: String| -> (parsed: Option<String>)
                ensures
                    parsed == Some(line)
                { Some(line) },
        )
    }

    /// Asks for a count: a line that `parsed_count` can read.
    pub fn input_usize(&mut self, query: &str) -> (answer: Option<usize>)
        requires
            old(self)@.replays() ==> recoverable::<usize>(old(self)@.ready[0]),
        ensures
            (final(self)@, stored_answer(answer)) == old(self)@.ask_text(
                query@,
                old(self)@.parsed_by(
                    |line: Seq<char>|
                        match parsed_count(line) {
                            Some(count) => Some(AnswerView::Count(count)),
                            None => None,
                        },
                ),
            ),
            *final(final(self).wizard) == *final(old(self).wizard),
            *final(final(self).input) == *final(old(self).input),
    {
        self.input_something(
            query,
            |line: String| -> (parsed: Option<usize>)
                ensures
                    parsed == parsed_count(line@)
                { parse_count(line.as_str()) },
        )
    }

    /// Asks for a time of the simulation. How a time is written is for
    /// `parse` to say.
    pub fn input_tick<F: Fn(String) -> Option<Tick>>(&mut self, query: &str, parse: F) -> (answer:
        Option<Tick>)
        requires
            forall|line: String| parse.requires((line,)),
            old(self)@.replays() ==> recoverable::<Tick>(old(self)@.ready[0]),
        ensures
            (final(self)@, stored_answer(answer)) == old(self)@.ask_text(
                query@,
                stored_answer(answer),
            ),
            old(self)@.confirms() ==> exists|line: String|
                line@ == old(self)@.input.result->Done_0 && #[trigger] parse.ensures(
                    (line,),
                    answer,
                ),
            *final(final(self).wizard) == *final(old(self).wizard),
            *final(final(self).input) == *final(old(self).input),
    {
        self.input_something(query, parse)
    }

    /// Asks for a probability. `parse_bits` reads a line as a
    /// double-precision number and gives its bits; the number is accepted if
    /// it lies from zero to one.
    pub fn input_percent<F: Fn(String) -> Option<u64>>(
        &mut self,
        query: &str,
        parse_bits: F,
    ) -> (answer: Option<Percent>)
        requires
            forall|line: String| parse_bits.requires((line,)),
            old(self)@.replays() ==> recoverable::<Percent>(old(self)@.ready[0]),
        ensures
            (final(self)@, stored_answer(answer)) == old(self)@.ask_text(
                query@,
                stored_answer(answer),
            ),
            old(self)@.confirms() ==> exists|line: String, bits: Option<u64>|
                line@ == old(self)@.input.result->Done_0 && #[trigger] parse_bits.ensures(
                    (line,),
                    bits,
                ) && is_percent_of(answer, bits),
            *final(final(self).wizard) == *final(old(self).wizard),
            *final(final(self).input) == *final(old(self).input),
    {
        self.input_something(
            query,
            |line: String| -> (parsed: Option<Percent>)
                requires
                    parse_bits.requires((line,)),
                ensures
                    exists|bits: Option<u64>| #[trigger]
                        parse_bits.ensures((line,), bits) && is_percent_of(parsed, bits)
                {
                    match parse_bits(line) {
                        Some(bits) => Percent::from_bits(bits),
                        None => None,
                    }
                },
        )
    }

    /// Asks for one of the entries that `choices_generator` makes, each a
    /// label with a value of type `R`. The outcome is that of
    /// `FrameView::ask_choice`. The generator is called only when the menu
    /// has to be made.
    pub fn choose_something<R: Cloneable, G: FnOnce() -> Vec<(String, R)>>(
        &mut self,
        query: &str,
        choices_generator: G,
    ) -> (choice: Option<(String, R)>)
        requires
            choices_generator.requires(()),
            old(self)@.replays() ==> old(self)@.replays_choice_of::<R>(),
        ensures
            exists|choices: Seq<(Seq<char>, AnswerView)>|
                {
                    &&& (final(self)@, stored_choice(choice)) == #[trigger] old(self)@.ask_choice(
                        query@,
                        choices,
                        old(self)@.accepts::<R>(),
                    )
                    &&& old(self)@.opens_menu() ==> generated(choices_generator, choices)
                },
            *final(final(self).wizard) == *final(old(self).wizard),
            *final(final(self).input) == *final(old(self).input),
    {
        let ghost before = self@;
        if self.wizard.aborted() {
            assert((self@, stored_choice::<R>(None)) == before.ask_choice(
                query@,
                Seq::empty(),
                before.accepts::<R>(),
            ));
            return None;
        }
        if self.ready_results.len() > 0 {
            proof {
                views_skip(self.ready_results@);
            }
            let first = self.ready_results.pop_front().unwrap();
            let replayed = match first {
                Answer::Choice(label, value) => match R::downcast(&value) {
                    Some(item) => Some((label, item)),
                    None => None,
                },
                _ => None,
            };
            assert((self@, stored_choice(replayed)) == before.ask_choice(
                query@,
                Seq::empty(),
                before.accepts::<R>(),
            ));
            return replayed;
        }
        let ghost offered: Seq<(Seq<char>, AnswerView)> = Seq::empty();
        if self.wizard.menu.is_none() {
            let made = choices_generator();
            proof {
                offered = stored_choices(made@);
                assert(choices_generator.ensures((), made));
            }
            let boxed = box_choices(made);
            self.wizard.menu = Some(Menu::new(query, boxed));
        }
        let picked = input_with_menu(&mut self.wizard.menu, &mut self.wizard.alive, self.input);
        let choice = match picked {
            Some((name, item)) => match R::downcast(&item) {
                Some(value) => {
                    let kept = Answer::Choice(name.clone(), Box::new(item));
                    proof {
                        views_push(self.wizard.confirmed_state@, kept);
                    }
                    self.wizard.confirmed_state.push(kept);
                    Some((name, value))
                },
                None => None,
            },
            None => None,
        };
        assert((self@, stored_choice(choice)) == before.ask_choice(
            query@,
            offered,
            before.accepts::<R>(),
        ));
        choice
    }

    /// Asks for one of `choices`, each a label and nothing more.
    pub fn choose_string(&mut self, query: &str, choices: Vec<&str>) -> (choice: Option<String>)
        requires
            old(self)@.replays() ==> old(self)@.replays_choice_of::<()>(),
        ensures
            final(self)@ == old(self)@.ask_choice(
                query@,
                label_choices(choices@),
                old(self)@.accepts::<()>(),
            ).0,
            line_view(choice) == label_of(
                old(self)@.ask_choice(
                    query@,
                    label_choices(choices@),
                    old(self)@.accepts::<()>(),
                ).1,
            ),
            *final(final(self).wizard) == *final(old(self).wizard),
            *final(final(self).input) == *final(old(self).input),
    {
        let copied = unit_choices(&choices);
        let picked = self.choose_something(
            query,
            move || -> (made: Vec<(String, ())>)
                ensures
                    made == copied
                { copied },
        );
        match picked {
            Some((label, _)) => Some(label),
            None => None,
        }
    }

    /// Asks for one of the saved neighborhoods that `load` finds, and gives
    /// its name.
    pub fn choose_neighborhood<G: FnOnce() -> Vec<(String, Neighborhood)>>(
        &mut self,
        query: &str,
        load: G,
    ) -> (name: Option<String>)
        requires
            load.requires(()),
            old(self)@.replays() ==> old(self)@.replays_choice_of::<Neighborhood>(),
        ensures
            exists|choices: Seq<(Seq<char>, AnswerView)>|
                {
                    &&& final(self)@ == (#[trigger] old(self)@.ask_choice(
                        query@,
                        choices,
                        old(self)@.accepts::<Neighborhood>(),
                    )).0
                    &&& line_view(name) == label_of(
                        old(self)@.ask_choice(
                            query@,
                            choices,
                            old(self)@.accepts::<Neighborhood>(),
                        ).1,
                    )
                    &&& old(self)@.opens_menu() ==> generated(load, choices)
                },
            *final(final(self).wizard) == *final(old(self).wizard),
            *final(final(self).input) == *final(old(self).input),
    {
        let picked = self.choose_something(query, load);
        match picked {
            Some((name, _)) => Some(name),
            None => None,
        }
    }
}

} // verus!
