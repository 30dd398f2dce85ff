//! One frame's input as the wizard meets it, and the two input widgets as
//! far as the wizard knows them. The widgets themselves belong to the host:
//! it shows them, feeds them the raw event, and hands over what they report.

use crate::answer::{Answer, AnswerView};
use vstd::prelude::*;

verus! {

/// What an input widget reports after it was fed an event.
#[derive(Debug, PartialEq, Eq)]
pub enum InputResult {
    Canceled,
    StillActive,
    /// The confirmed line or label, and for a menu the value that goes with it.
    Done(String, Answer),
}

pub enum InputResultView {
    Canceled,
    StillActive,
    Done(Seq<char>, AnswerView),
}

impl View for InputResult {
    type V = InputResultView;

    open spec fn view(&self) -> InputResultView {
        match self {
            InputResult::Canceled => InputResultView::Canceled,
            InputResult::StillActive => InputResultView::StillActive,
            InputResult::Done(line, value) => InputResultView::Done(line@, value@),
        }
    }
}

/// The input of one frame: an event that at most one widget may take.
#[derive(Debug)]
pub struct UserInput {
    consumed: bool,
    result: InputResult,
}

pub struct InputView {
    pub consumed: bool,
    /// What the widget that takes the event reports.
    pub result: InputResultView,
}

impl InputView {
    /// The input once its event has been taken.
    pub open spec fn taken() -> InputView {
        InputView { consumed: true, result: InputResultView::StillActive }
    }

    /// An input that cannot complete a question: its event is gone, or the
    /// widget that takes it stays open.
    pub open spec fn is_idle(self) -> bool {
        self.consumed || self.result is StillActive
    }
}

impl View for UserInput {
    type V = InputView;

    closed spec fn view(&self) -> InputView {
        InputView { consumed: self.consumed, result: self.result@ }
    }
}

impl UserInput {
    /// A fresh event, with what the widget that takes it will report.
    pub fn new(result: InputResult) -> (input: UserInput)
        ensures
            input@ == (InputView { consumed: false, result: result@ }),
    {
        UserInput { consumed: false, result }
    }

    /// An event that something else has taken already.
    pub fn already_consumed() -> (input: UserInput)
        ensures
            input@ == InputView::taken(),
    {
        UserInput { consumed: true, result: InputResult::StillActive }
    }

    pub fn has_been_consumed(&self) -> (consumed: bool)
        ensures
            consumed == self@.consumed,
    {
        self.consumed
    }

    /// Takes the event for a widget: the widget's report, and the input is
    /// spent.
    pub fn take(&mut self) -> (result: InputResult)
        ensures
            result@ == old(self)@.result,
            final(self)@ == InputView::taken(),
    {
        self.consumed = true;
        let mut result = InputResult::StillActive;
        std::mem::swap(&mut self.result, &mut result);
        result
    }
}

/// A box in which a line of text is typed.
#[derive(Debug, PartialEq, Eq)]
pub struct TextBox {
    pub prompt: String,
}

impl View for TextBox {
    type V = Seq<char>;

    open spec fn view(&self) -> Seq<char> {
        self.prompt@
    }
}

impl TextBox {
    pub fn new(prompt: &str) -> (tb: TextBox)
        ensures
            tb@ == prompt@,
    {
        TextBox { prompt: prompt.to_owned() }
    }
}

/// The views of a menu's entries, one for one.
pub open spec fn choice_views(choices: Seq<(String, Answer)>) -> Seq<(Seq<char>, AnswerView)> {
    Seq::new(choices.len(), |i: int| (choices[i].0@, choices[i].1@))
}

/// A menu from which one labelled value is picked.
#[derive(Debug, PartialEq, Eq)]
pub struct Menu {
    pub prompt: String,
    pub choices: Vec<(String, Answer)>,
}

pub struct MenuView {
    pub prompt: Seq<char>,
    pub choices: Seq<(Seq<char>, AnswerView)>,
}

impl View for Menu {
    type V = MenuView;

    open spec fn view(&self) -> MenuView {
        MenuView { prompt: self.prompt@, choices: choice_views(self.choices@) }
    }
}

impl Menu {
    pub fn new(prompt: &str, choices: Vec<(String, Answer)>) -> (menu: Menu)
        ensures
            menu@ == (MenuView { prompt: prompt@, choices: choice_views(choices@) }),
    {
        Menu { prompt: prompt.to_owned(), choices }
    }
}

} // verus!
