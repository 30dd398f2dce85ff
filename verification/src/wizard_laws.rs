//! What holds of every workflow that asks a fixed sequence of questions,
//! frame after frame, whatever the user does.

use crate::answer::AnswerView;
use crate::input::{InputResultView, InputView};
use crate::wizard::{FrameView, WizardView};
use vstd::prelude::*;

verus! {

/// One question of a workflow.
pub enum Question {
    /// A line of text, read by `parser`.
    Text { query: Seq<char>, parser: spec_fn(Seq<char>) -> Option<AnswerView> },
    /// One of `choices`; `accepts` says which values are of the type asked.
    Choice {
        query: Seq<char>,
        choices: Seq<(Seq<char>, AnswerView)>,
        accepts: spec_fn(AnswerView) -> bool,
    },
}

impl Question {
    /// Whether `answer` is one that this question lets through: some line
    /// parses to it, or it is a choice with a value of the type asked.
    pub open spec fn lets_through(self, answer: AnswerView) -> bool {
        match self {
            Question::Text { parser, .. } => exists|line: Seq<char>| #[trigger]
                parser(line) == Some(answer),
            Question::Choice { accepts, .. } => answer matches AnswerView::Choice(_, value)
                && accepts(*value),
        }
    }

    /// Whether this question refuses what the input confirms.
    pub open spec fn refuses(self, input: InputView) -> bool {
        match (self, input.result) {
            (Question::Text { parser, .. }, InputResultView::Done(line, _)) => parser(line) is None,
            (Question::Choice { accepts, .. }, InputResultView::Done(_, item)) => !accepts(item),
            _ => false,
        }
    }
}

/// Whether every answer was let through by the question at its position.
pub open spec fn all_let_through(confirmed: Seq<AnswerView>, questions: Seq<Question>) -> bool {
    forall|j: int|
        0 <= j < confirmed.len() && j < questions.len() ==> (#[trigger] questions[j]).lets_through(
            confirmed[j],
        )
}

impl FrameView {
    /// The question is asked.
    pub open spec fn ask(self, question: Question) -> (FrameView, Option<AnswerView>) {
        match question {
            Question::Text { query, parser } => self.ask_text(query, self.parsed_by(parser)),
            Question::Choice { query, choices, accepts } => self.ask_choice(
                query,
                choices,
                match self.input.result {
                    InputResultView::Done(_, item) => accepts(item),
                    _ => false,
                },
            ),
        }
    }

    /// The questions are asked in order, up to the first that has no answer
    /// yet: the frame after them, and the answers given.
    pub open spec fn ask_all(self, questions: Seq<Question>) -> (FrameView, Seq<AnswerView>)
        decreases questions.len(),
    {
        if questions.len() == 0 {
            (self, Seq::empty())
        } else {
            let (next, answer) = self.ask(questions[0]);
            match answer {
                Some(a) => {
                    let (end, rest) = next.ask_all(questions.skip(1));
                    (end, seq![a] + rest)
                },
                None => (next, Seq::empty()),
            }
        }
    }

    /// Whether the two frames differ at most in which widgets are open.
    pub open spec fn same_progress(self, other: FrameView) -> bool {
        &&& self.wizard.progress() == other.wizard.progress()
        &&& self.input == other.input
        &&& self.ready == other.ready
    }
}

impl WizardView {
    /// How far the workflow has come: whether it lives, and what is
    /// confirmed. Which widget is open is no part of it.
    pub open spec fn progress(self) -> (bool, Seq<AnswerView>) {
        (self.alive, self.confirmed)
    }

    /// One frame of the workflow: the wizard and the input after it, and the
    /// answers the workflow got.
    pub open spec fn frame(self, input: InputView, questions: Seq<Question>) -> (
        WizardView,
        InputView,
        Seq<AnswerView>,
    ) {
        let (end, answers) = FrameView::open(self, input).ask_all(questions);
        (end.wizard, end.input, answers)
    }

    /// The wizard after one frame for each of `inputs`.
    pub open spec fn run(self, inputs: Seq<InputView>, questions: Seq<Question>) -> WizardView
        decreases inputs.len(),
    {
        if inputs.len() == 0 {
            self
        } else {
            self.frame(inputs[0], questions).0.run(inputs.skip(1), questions)
        }
    }
}

/// While answers are ready for all of them, the questions are answered from
/// what was kept, in order, and nothing else changes.
pub proof fn ask_all_replays(f: FrameView, questions: Seq<Question>)
    requires
        f.wizard.alive,
        questions.len() <= f.ready.len(),
    ensures
        f.ask_all(questions) == (
            FrameView { ready: f.ready.skip(questions.len() as int), ..f },
            f.ready.take(questions.len() as int),
        ),
    decreases questions.len(),
{
    if questions.len() == 0 {
        assert(f.ready.skip(0) =~= f.ready);
        assert(f.ready.take(0) =~= Seq::<AnswerView>::empty());
    } else {
        let (next, answer) = f.ask(questions[0]);
        assert(next == FrameView { ready: f.ready.skip(1), ..f });
        assert(answer == Some(f.ready[0]));
        ask_all_replays(next, questions.skip(1));
        let n = questions.len() as int;
        assert(f.ready.skip(1).skip(n - 1) =~= f.ready.skip(n));
        assert(seq![f.ready[0]] + f.ready.skip(1).take(n - 1) =~= f.ready.take(n));
    }
}

/// An input that cannot complete a question leaves the workflow where it is.
pub proof fn ask_all_idle(f: FrameView, questions: Seq<Question>)
    requires
        f.input.is_idle(),
    ensures
        f.ask_all(questions).0.wizard.progress() == f.wizard.progress(),
        f.ask_all(questions).0.input.is_idle(),
    decreases questions.len(),
{
    if questions.len() > 0 {
        let (next, answer) = f.ask(questions[0]);
        if answer is Some {
            ask_all_idle(next, questions.skip(1));
        }
    }
}

/// Which widgets are open has no part in what a frame answers or confirms.
pub proof fn ask_all_same_progress(f: FrameView, g: FrameView, questions: Seq<Question>)
    requires
        f.same_progress(g),
    ensures
        f.ask_all(questions).0.same_progress(g.ask_all(questions).0),
        f.ask_all(questions).1 == g.ask_all(questions).1,
    decreases questions.len(),
{
    if questions.len() > 0 {
        let (f_next, f_answer) = f.ask(questions[0]);
        let (g_next, g_answer) = g.ask(questions[0]);
        assert(f_answer == g_answer);
        assert(f_next.same_progress(g_next));
        if f_answer is Some {
            ask_all_same_progress(f_next, g_next, questions.skip(1));
        }
    }
}

/// Which widgets are open has no part in how far a run of frames gets.
pub proof fn run_same_progress(
    v: WizardView,
    w: WizardView,
    inputs: Seq<InputView>,
    questions: Seq<Question>,
)
    requires
        v.progress() == w.progress(),
    ensures
        v.run(inputs, questions).progress() == w.run(inputs, questions).progress(),
    decreases inputs.len(),
{
    if inputs.len() > 0 {
        ask_all_same_progress(
            FrameView::open(v, inputs[0]),
            FrameView::open(w, inputs[0]),
            questions,
        );
        run_same_progress(
            v.frame(inputs[0], questions).0,
            w.frame(inputs[0], questions).0,
            inputs.skip(1),
            questions,
        );
    }
}

/// Replay. Once every question of the workflow has its confirmed answer, a
/// frame gives exactly these answers, in the order they were confirmed,
/// whatever its input; no widget is opened and the input is not touched.
pub proof fn confirmed_answers_replay(w: WizardView, input: InputView, questions: Seq<Question>)
    requires
        w.alive,
        questions.len() <= w.confirmed.len(),
    ensures
        w.frame(input, questions) == (w, input, w.confirmed.take(questions.len() as int)),
{
    ask_all_replays(FrameView::open(w, input), questions);
}

/// Idle frames. A frame whose input cannot complete a question, because its
/// event is gone or the widget stays open, confirms nothing and cancels
/// nothing.
pub proof fn idle_frame_keeps_progress(w: WizardView, idle: InputView, questions: Seq<Question>)
    requires
        idle.is_idle(),
    ensures
        w.frame(idle, questions).0.progress() == w.progress(),
{
    ask_all_idle(FrameView::open(w, idle), questions);
}

/// Replay idempotence. A workflow gets as far, and confirms the same answers
/// in the same order, whether or not idle frames come in between: put an idle
/// frame anywhere into a run of frames, and the run ends with the wizard as
/// alive as without it, and with the same confirmed answers.
pub proof fn idle_frames_do_not_matter(
    w: WizardView,
    inputs: Seq<InputView>,
    k: int,
    idle: InputView,
    questions: Seq<Question>,
)
    requires
        idle.is_idle(),
        0 <= k <= inputs.len(),
    ensures
        w.run(inputs.insert(k, idle), questions).progress() == w.run(
            inputs,
            questions,
        ).progress(),
    decreases inputs.len(),
{
    let longer = inputs.insert(k, idle);
    if k == 0 {
        assert(longer[0] == idle);
        assert(longer.skip(1) =~= inputs);
        idle_frame_keeps_progress(w, idle, questions);
        run_same_progress(w.frame(idle, questions).0, w, inputs, questions);
    } else {
        assert(longer[0] == inputs[0]);
        assert(longer.skip(1) =~= inputs.skip(1).insert(k - 1, idle));
        idle_frames_do_not_matter(
            w.frame(inputs[0], questions).0,
            inputs.skip(1),
            k - 1,
            idle,
            questions,
        );
    }
}

/// Cancellation is terminal. A wizard that was cancelled answers no question,
/// in this frame or any later one, and nothing brings it back.
pub proof fn cancellation_is_terminal(
    w: WizardView,
    inputs: Seq<InputView>,
    questions: Seq<Question>,
)
    requires
        !w.alive,
    ensures
        forall|f: FrameView, question: Question|
            f.wizard == w ==> #[trigger] f.ask(question) == (f, None::<AnswerView>),
        forall|input: InputView| #[trigger]
            w.frame(input, questions) == (w, input, Seq::<AnswerView>::empty()),
        w.run(inputs, questions) == w,
    decreases inputs.len(),
{
    assert forall|input: InputView| #[trigger]
        w.frame(input, questions) == (w, input, Seq::<AnswerView>::empty()) by {
        let f = FrameView::open(w, input);
        if questions.len() > 0 {
            assert(f.ask(questions[0]) == (f, None::<AnswerView>));
        }
    }
    if inputs.len() > 0 {
        assert(w.frame(inputs[0], questions).0 == w);
        cancellation_is_terminal(w, inputs.skip(1), questions);
    }
}

/// A wizard is never less cancelled after a question than before it.
pub proof fn cancelled_stays_cancelled(f: FrameView, question: Question)
    ensures
        f.ask(question).0.wizard.alive ==> f.wizard.alive,
{
}

/// Only what a question lets through is kept. A question changes the confirmed answers in
/// one way only: it appends the answer it gives, and only if that answer is
/// what its parser made of the confirmed line, or a confirmed choice with a
/// value of the type asked. What the question refuses is not kept and not
/// given.
pub proof fn only_accepted_is_kept(f: FrameView, question: Question)
    ensures
        ({
            let (next, answer) = f.ask(question);
            let kept = next.wizard.confirmed;
            &&& kept == f.wizard.confirmed || (answer is Some && f.confirms() && kept
                == f.wizard.confirmed.push(answer->0) && question.lets_through(answer->0))
            &&& f.confirms() && question.refuses(f.input) ==> answer is None && kept
                == f.wizard.confirmed
        }),
{
    let (next, answer) = f.ask(question);
    if f.confirms() && answer is Some {
        match question {
            Question::Text { query, parser } => {
                let line = f.input.result->Done_0;
                assert(parser(line) == Some(answer->0));
            },
            Question::Choice { .. } => {},
        }
    }
}

proof fn ask_all_lets_through(f: FrameView, questions: Seq<Question>, asked: int)
    requires
        0 <= asked <= questions.len(),
        f.wizard.confirmed.len() == asked + f.ready.len(),
        all_let_through(f.wizard.confirmed, questions),
    ensures
        all_let_through(f.ask_all(questions.skip(asked)).0.wizard.confirmed, questions),
    decreases questions.len() - asked,
{
    let rest = questions.skip(asked);
    if rest.len() > 0 {
        let question = questions[asked];
        assert(rest[0] == question);
        let (next, answer) = f.ask(question);
        only_accepted_is_kept(f, question);
        if answer is Some {
            assert(rest.skip(1) =~= questions.skip(asked + 1));
            if f.replays() {
                ask_all_lets_through(next, questions, asked + 1);
            } else {
                assert(f.confirms());
                assert(next.wizard.confirmed == f.wizard.confirmed.push(answer->0));
                assert(all_let_through(next.wizard.confirmed, questions)) by {
                    assert forall|j: int|
                        0 <= j < next.wizard.confirmed.len() && j < questions.len() implies (
                    #[trigger] questions[j]).lets_through(next.wizard.confirmed[j]) by {
                        if j < f.wizard.confirmed.len() {
                            assert(next.wizard.confirmed[j] == f.wizard.confirmed[j]);
                        }
                    }
                }
                ask_all_lets_through(next, questions, asked + 1);
            }
        }
    }
}

/// Nothing refused is ever replayed. If every confirmed answer was let through by
/// the question at its position, the same holds after any run of frames of
/// the workflow: nothing that a parser refused is ever among the confirmed
/// answers, and so nothing of the kind is ever replayed.
pub proof fn confirmed_answers_were_let_through(
    w: WizardView,
    inputs: Seq<InputView>,
    questions: Seq<Question>,
)
    requires
        all_let_through(w.confirmed, questions),
    ensures
        all_let_through(w.run(inputs, questions).confirmed, questions),
    decreases inputs.len(),
{
    if inputs.len() > 0 {
        let f = FrameView::open(w, inputs[0]);
        assert(questions.skip(0) =~= questions);
        ask_all_lets_through(f, questions, 0);
        confirmed_answers_were_let_through(
            w.frame(inputs[0], questions).0,
            inputs.skip(1),
            questions,
        );
    }
}

} // verus!
