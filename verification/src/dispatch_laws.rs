//! What holds of every frame, whatever the tools report.

use crate::dispatch::{Action, Reply, SearchMode, Stage, UIModel};
use crate::plugins::Tier;
use vstd::prelude::*;

verus! {

impl Stage {
    /// The stages of the non-blocking, stackable and ambient tiers.
    pub open spec fn is_below_blocking(self) -> bool {
        match self {
            Stage::Idle
            | Stage::SearchBlocking
            | Stage::TimeTravel
            | Stage::BlockingSlot
            | Stage::BlockingFactory(_)
            | Stage::DebugFactory(_) => false,
            _ => true,
        }
    }

    /// The stages that are reached only while the blocking slot is empty.
    pub open spec fn needs_empty_slot(self) -> bool {
        self is BlockingFactory || self is DebugFactory || self.is_below_blocking()
    }
}

impl UIModel {
    /// The dispatcher never looks for a blocking tool, nor serves a lower
    /// tier, while the blocking slot is taken.
    pub open spec fn consistent(self) -> bool {
        self.stage.needs_empty_slot() ==> self.blocking is None
    }
}

/// A step keeps the dispatcher consistent, and leaves every slot alone that
/// is not of the tier being served.
pub proof fn step_keeps_consistent(m: UIModel, reply: Reply)
    requires
        m.consistent(),
    ensures
        m.step(reply).consistent(),
        m.step(reply).ambient == m.ambient,
        m.step(reply).comparing == m.comparing,
        m.step(reply).debug == m.debug,
        !(m.stage is TimeTravel) ==> !(m.step(reply).stage is TimeTravel),
        m.stage.is_below_blocking() ==> m.step(reply).blocking is None && (m.step(
            reply,
        ).stage.is_below_blocking() || m.step(reply).stage is Idle),
        !m.stage.is_below_blocking() ==> m.step(reply).nonblocking == m.nonblocking,
        !m.stage.is_below_blocking() && m.blocking is None && m.step(reply).blocking is Some
            ==> m.step(reply).stage is Idle,
        !m.stage.is_below_blocking() && m.blocking is Some ==> m.step(reply).stage is Idle
            || (m.step(reply).stage is BlockingSlot && m.step(reply).blocking is Some),
{
}

/// Once a lower tier is being served, the blocking slot stays empty for the
/// rest of the frame; and while the blocking slot is taken, or in a frame in
/// which it is claimed, nothing is asked of a lower tier.
pub proof fn run_respects_blocking(m: UIModel, replies: Seq<Reply>)
    requires
        m.consistent(),
    ensures
        m.run(replies).0.consistent(),
        m.stage.is_below_blocking() ==> m.run(replies).0.blocking is None,
        m.blocking is None && m.run(replies).0.blocking is Some ==> m.run(replies).0.nonblocking
            == m.nonblocking,
        m.blocking is Some || m.run(replies).0.blocking is Some ==> forall|i: int|
            0 <= i < m.run(replies).1.len() ==> !(#[trigger] m.run(replies).1[i]).is_below_exclusive(),
    decreases replies.len(),
{
    if m.stage is Idle || replies.len() == 0 {
    } else {
        let next = m.step(replies[0]);
        step_keeps_consistent(m, replies[0]);
        run_respects_blocking(next, replies.skip(1));
        let (end, rest) = next.run(replies.skip(1));
        let trace = m.run(replies).1;
        assert(trace == seq![m.pending()] + rest);
        if m.blocking is Some || end.blocking is Some {
            assert forall|i: int| 0 <= i < trace.len() implies !(#[trigger] trace[i]).is_below_exclusive() by {
                if i > 0 {
                    assert(trace[i] == rest[i - 1]);
                }
            }
        }
    }
}

/// From any point of a frame but its opening, the time-travel scrape is not
/// asked for again.
pub proof fn run_never_scrapes_again(m: UIModel, replies: Seq<Reply>)
    requires
        !(m.stage is TimeTravel),
    ensures
        forall|i: int| 0 <= i < m.run(replies).1.len() ==> !(#[trigger] m.run(replies).1[i]).is_scrape(),
    decreases replies.len(),
{
    if m.stage is Idle || replies.len() == 0 {
    } else {
        let next = m.step(replies[0]);
        run_never_scrapes_again(next, replies.skip(1));
        let rest = next.run(replies.skip(1)).1;
        let trace = m.run(replies).1;
        assert(trace == seq![m.pending()] + rest);
        assert forall|i: int| 0 <= i < trace.len() implies !(#[trigger] trace[i]).is_scrape() by {
            if i > 0 {
                assert(trace[i] == rest[i - 1]);
            }
        }
    }
}

/// Tier precedence. In a frame that opens with the blocking-exclusive slot
/// taken, and in a frame in which the slot is claimed, no stackable overlay
/// and no always-present tool is offered the event, whatever the tools report.
pub proof fn tier_precedence(m: UIModel, replies: Seq<Reply>)
    ensures
        m.blocking is Some || m.frame(replies).0.blocking is Some ==> forall|i: int|
            0 <= i < m.frame(replies).1.len() ==> !(#[trigger] m.frame(replies).1[i]).is_below_exclusive(),
{
    run_respects_blocking(m.begin(), replies);
}

/// At most one claim. No frame fills both the blocking-exclusive and the
/// non-blocking-exclusive slot: if it leaves the blocking slot taken where it
/// was empty, the non-blocking slot is as it was.
pub proof fn at_most_one_claim(m: UIModel, replies: Seq<Reply>)
    ensures
        !(m.blocking is None && m.frame(replies).0.blocking is Some && m.nonblocking is None
            && m.frame(replies).0.nonblocking is Some),
{
    run_respects_blocking(m.begin(), replies);
}

/// The scrape runs once. Unless search is typing when the frame opens, the
/// time-travel scrape is the first work of the frame, whichever tier then
/// takes the event, and it is not asked for a second time.
pub proof fn scrape_runs_once(m: UIModel, replies: Seq<Reply>)
    requires
        m.search != Some(SearchMode::Blocking),
        replies.len() > 0,
    ensures
        m.frame(replies).1.len() > 0,
        m.frame(replies).1[0] == m.begin().pending(),
        m.frame(replies).1[0].is_scrape(),
        forall|i: int| 1 <= i < m.frame(replies).1.len() ==> !(#[trigger] m.frame(replies).1[i]).is_scrape(),
{
    let start = m.begin();
    let next = start.step(replies[0]);
    run_never_scrapes_again(next, replies.skip(1));
    let rest = next.run(replies.skip(1)).1;
    let trace = m.frame(replies).1;
    assert(trace == seq![start.pending()] + rest);
    assert forall|i: int| 1 <= i < trace.len() implies !(#[trigger] trace[i]).is_scrape() by {
        assert(trace[i] == rest[i - 1]);
    }
}

/// While search is typing it is served alone: the frame asks for its handler
/// and for nothing else, not even the scrape.
pub proof fn blocking_search_is_served_alone(m: UIModel, replies: Seq<Reply>)
    requires
        m.search == Some(SearchMode::Blocking),
        replies.len() > 0,
    ensures
        m.frame(replies).1 == seq![m.begin().pending()],
        m.begin().pending().tier() == Some(Tier::SearchBlocking),
        m.frame(replies).0 == m.search_handled(replies[0]),
{
    let start = m.begin();
    let next = start.step(replies[0]);
    assert(next.stage is Idle);
    assert(next.run(replies.skip(1)).1 == Seq::<Action>::empty());
    assert(m.frame(replies).1 == seq![start.pending()] + Seq::<Action>::empty());
}

} // verus!
