//! The values a wizard can be given as answers, and the one stored form in
//! which it keeps them between frames.

use vstd::prelude::*;

verus! {

/// A time of the simulation, in tenths of a second.
#[derive(Clone, Copy, Debug, PartialEq, Eq, Hash, Structural)]
pub struct Tick(pub u32);

/// The bits of the double-precision number one.
pub const ONE_BITS: u64 = 0x3FF0_0000_0000_0000;

/// The bits of the double-precision number minus zero.
pub const NEGATIVE_ZERO_BITS: u64 = 0x8000_0000_0000_0000;

/// Whether `bits` is the IEEE 754 double-precision encoding of a number from
/// zero to one, both included. Doubles that are not negative are ordered as
/// their encodings are, so these are the encodings up to that of one; minus
/// zero, which equals zero, is the one other.
pub open spec fn is_probability(bits: u64) -> bool {
    bits <= ONE_BITS || bits == NEGATIVE_ZERO_BITS
}

/// A probability, held as the bits of a double-precision number from zero to
/// one.
#[derive(Clone, Copy, Debug, PartialEq, Eq, Hash, Structural)]
pub struct Percent {
    bits: u64,
}

impl Percent {
    pub closed spec fn bits(self) -> u64 {
        self.bits
    }

    #[verifier::type_invariant]
    spec fn in_range(self) -> bool {
        is_probability(self.bits)
    }

    /// The probability with this encoding; none if the number is below zero,
    /// above one, or not a number.
    pub fn from_bits(bits: u64) -> (r: Option<Percent>)
        ensures
            r is Some <==> is_probability(bits),
            r matches Some(p) ==> p.bits() == bits,
    {
        if bits <= ONE_BITS || bits == NEGATIVE_ZERO_BITS {
            Some(Percent { bits })
        } else {
            None
        }
    }

    pub fn to_bits(&self) -> (bits: u64)
        ensures
            bits == self.bits(),
            is_probability(bits),
    {
        proof {
            use_type_invariant(self);
        }
        self.bits
    }
}

/// A saved neighborhood, by the names under which it is kept.
#[derive(Debug, PartialEq, Eq)]
pub struct Neighborhood {
    pub map_name: String,
    pub name: String,
}

pub struct NeighborhoodView {
    pub map_name: Seq<char>,
    pub name: Seq<char>,
}

impl View for Neighborhood {
    type V = NeighborhoodView;

    open spec fn view(&self) -> NeighborhoodView {
        NeighborhoodView { map_name: self.map_name@, name: self.name@ }
    }
}

impl Neighborhood {
    pub fn duplicate(&self) -> (copy: Neighborhood)
        ensures
            copy@ == self@,
    {
        Neighborhood { map_name: self.map_name.clone(), name: self.name.clone() }
    }
}

/// An answer as the wizard keeps it: one of a closed set of shapes.
#[derive(Debug, PartialEq, Eq)]
pub enum Answer {
    Text(String),
    Count(usize),
    Time(Tick),
    Percent(Percent),
    Record(Neighborhood),
    /// The value of a choice that is made for its label alone.
    Unit,
    /// A choice from a menu: its label, and the value that goes with it.
    Choice(String, Box<Answer>),
}

pub enum AnswerView {
    Text(Seq<char>),
    Count(usize),
    Time(Tick),
    Percent(Percent),
    Record(NeighborhoodView),
    Unit,
    Choice(Seq<char>, Box<AnswerView>),
}

impl View for Answer {
    type V = AnswerView;

    open spec fn view(&self) -> AnswerView
        decreases self,
    {
        match self {
            Answer::Text(s) => AnswerView::Text(s@),
            Answer::Count(n) => AnswerView::Count(*n),
            Answer::Time(t) => AnswerView::Time(*t),
            Answer::Percent(p) => AnswerView::Percent(*p),
            Answer::Record(n) => AnswerView::Record(n@),
            Answer::Unit => AnswerView::Unit,
            Answer::Choice(label, value) => AnswerView::Choice(label@, Box::new((**value)@)),
        }
    }
}

impl Answer {
    pub fn duplicate(&self) -> (copy: Answer)
        ensures
            copy@ == self@,
        decreases self,
    {
        match self {
            Answer::Text(s) => Answer::Text(s.clone()),
            Answer::Count(n) => Answer::Count(*n),
            Answer::Time(t) => Answer::Time(*t),
            Answer::Percent(p) => Answer::Percent(*p),
            Answer::Record(n) => Answer::Record(n.duplicate()),
            Answer::Unit => Answer::Unit,
            Answer::Choice(label, value) => Answer::Choice(
                label.clone(),
                Box::new(value.duplicate()),
            ),
        }
    }
}

/// The views of a run of answers, one for one.
pub open spec fn views(answers: Seq<Answer>) -> Seq<AnswerView> {
    Seq::new(answers.len(), |i: int| answers[i]@)
}

/// What a type must offer for its values to be kept by a wizard: a stored
/// form for each value, and the way back from a stored form.
pub trait CloneableImpl: Sized {
    /// The stored form of this value.
    spec fn stored(&self) -> AnswerView;

    /// A copy of this value in its stored form.
    fn clone_box(&self) -> (boxed: Answer)
        ensures
            boxed@ == self.stored(),
    ;

    /// The value that `boxed` is the stored form of; none if it is the stored
    /// form of no value of this type.
    fn downcast(boxed: &Answer) -> (value: Option<Self>)
        ensures
            value matches Some(v) ==> v.stored() == boxed@,
            value is None ==> forall|v: Self| #[trigger] v.stored() != boxed@,
    ;
}

/// The types whose values a wizard can be asked for.
pub trait Cloneable: CloneableImpl {

}

/// Whether `boxed` is the stored form of some value of type `R`.
pub open spec fn recoverable<R: CloneableImpl>(boxed: AnswerView) -> bool {
    exists|v: R| #[trigger] v.stored() == boxed
}

/// The stored form of an answer that may be missing.
pub open spec fn stored_answer<R: CloneableImpl>(answer: Option<R>) -> Option<AnswerView> {
    match answer {
        Some(v) => Some(v.stored()),
        None => None,
    }
}

impl CloneableImpl for String {
    open spec fn stored(&self) -> AnswerView {
        AnswerView::Text(self@)
    }

    fn clone_box(&self) -> (boxed: Answer) {
        Answer::Text(self.clone())
    }

    fn downcast(boxed: &Answer) -> (value: Option<Self>) {
        match boxed {
            Answer::Text(s) => Some(s.clone()),
            _ => None,
        }
    }
}

impl CloneableImpl for usize {
    open spec fn stored(&self) -> AnswerView {
        AnswerView::Count(*self)
    }

    fn clone_box(&self) -> (boxed: Answer) {
        Answer::Count(*self)
    }

    fn downcast(boxed: &Answer) -> (value: Option<Self>) {
        match boxed {
            Answer::Count(n) => Some(*n),
            _ => None,
        }
    }
}

impl CloneableImpl for Tick {
    open spec fn stored(&self) -> AnswerView {
        AnswerView::Time(*self)
    }

    fn clone_box(&self) -> (boxed: Answer) {
        Answer::Time(*self)
    }

    fn downcast(boxed: &Answer) -> (value: Option<Self>) {
        match boxed {
            Answer::Time(t) => Some(*t),
            _ => None,
        }
    }
}

impl CloneableImpl for Percent {
    open spec fn stored(&self) -> AnswerView {
        AnswerView::Percent(*self)
    }

    fn clone_box(&self) -> (boxed: Answer) {
        Answer::Percent(*self)
    }

    fn downcast(boxed: &Answer) -> (value: Option<Self>) {
        match boxed {
            Answer::Percent(p) => Some(*p),
            _ => None,
        }
    }
}

impl CloneableImpl for Neighborhood {
    open spec fn stored(&self) -> AnswerView {
        AnswerView::Record(self@)
    }

    fn clone_box(&self) -> (boxed: Answer) {
        Answer::Record(self.duplicate())
    }

    fn downcast(boxed: &Answer) -> (value: Option<Self>) {
        match boxed {
            Answer::Record(n) => Some(n.duplicate()),
            _ => None,
        }
    }
}

impl CloneableImpl for () {
    open spec fn stored(&self) -> AnswerView {
        AnswerView::Unit
    }

    fn clone_box(&self) -> (boxed: Answer) {
        Answer::Unit
    }

    fn downcast(boxed: &Answer) -> (value: Option<Self>) {
        match boxed {
            Answer::Unit => Some(()),
            _ => None,
        }
    }
}

/// An answer is its own stored form: asking for `Answer` recovers whatever
/// was kept.
impl CloneableImpl for Answer {
    open spec fn stored(&self) -> AnswerView {
        self@
    }

    fn clone_box(&self) -> (boxed: Answer) {
        self.duplicate()
    }

    fn downcast(boxed: &Answer) -> (value: Option<Self>) {
        Some(boxed.duplicate())
    }
}

impl Cloneable for String {

}

impl Cloneable for usize {

}

impl Cloneable for Tick {

}

impl Cloneable for Percent {

}

impl Cloneable for Neighborhood {

}

impl Cloneable for () {

}

impl Cloneable for Answer {

}

} // verus!
