//! What executors have in common.

use vstd::prelude::*;
use std::sync::mpsc::Sender;
use crate::event::{Event, EventView, Timestamp};
use crate::outside::Clock;

verus! {

/// The events after one more was reported, or none.
pub open spec fn appended(events: Seq<EventView>, event: Option<EventView>) -> Seq<EventView> {
    match event {
        Some(e) => events.push(e),
        None => events,
    }
}

/// What an optional event says.
pub open spec fn optional_view(event: Option<Event>) -> Option<EventView> {
    match event {
        Some(e) => Some(e@),
        None => None,
    }
}

/// Runs commands, and reports what happens to their processes.
///
/// A run is a value that says what the system has to be asked for next. Whoever drives the run asks
/// for it, hands what was observed to `run`, and goes on with the run that comes back.
pub trait Executor: Sized {
    /// A run, at the point where something has to be asked for.
    type Run;

    /// What a run says.
    type State;

    /// The answer of the system.
    type Observed;

    /// What the run says.
    spec fn state(run: Self::Run) -> Self::State;

    /// The sender that events are reported through.
    spec fn reporter(&self) -> Sender<Event>;

    /// The events that were reported, the oldest first.
    spec fn reported(&self) -> Seq<EventView>;

    /// The channel that events are reported to.
    spec fn channel(&self) -> int;

    /// The clock that the times of the events are read off.
    spec fn clock(&self) -> Clock;

    /// The answer is one to what the run asks for.
    spec fn awaits(run: Self::State, observed: Self::Observed) -> bool;

    /// The run, after the answer.
    spec fn next(run: Self::State, observed: Self::Observed) -> Self::State;

    /// The answer gives rise to an event.
    spec fn reports(run: Self::State, observed: Self::Observed) -> bool;

    /// The event that the answer at this time gives rise to.
    spec fn event(run: Self::State, observed: Self::Observed, time: Timestamp) -> Option<EventView>;

    /// Takes the run one step further, and reports the event of the step, if it has one, with the
    /// time that is read off the clock in this step. The clock is read for a step with an event only.
    fn run(&mut self, run: Self::Run, observed: Self::Observed) -> (next: Self::Run)
        requires
            Self::awaits(Self::state(run), observed),
        ensures
            Self::state(next) == Self::next(Self::state(run), observed),
            final(self).channel() == old(self).channel(),
            exists|time: Timestamp|
                time.nanoseconds < 2_000_000_000 && final(self).reported() == #[trigger] appended(
                    old(self).reported(),
                    Self::event(Self::state(run), observed, time),
                ),
            Self::reports(Self::state(run), observed) ==> {
                let time = final(self).clock().readings().last();
                let event = Self::event(Self::state(run), observed, time);
                &&& time.nanoseconds < 2_000_000_000
                &&& final(self).clock().readings() == old(self).clock().readings().push(time)
                &&& event is Some
                &&& final(self).reported() == old(self).reported().push(event->0)
            },
            !Self::reports(Self::state(run), observed) ==> {
                &&& final(self).clock().readings() == old(self).clock().readings()
                &&& final(self).reported() == old(self).reported()
            },
    ;

    /// An answer that gives rise to an event does so at any time, and the event has that time.
    proof fn law_event_has_its_time(run: Self::State, observed: Self::Observed, time: Timestamp)
        ensures
            Self::reports(run, observed) == (Self::event(run, observed, time) is Some),
            Self::event(run, observed, time) matches Some(e) ==> match e {
                EventView::Created { when, .. } => when == time,
                EventView::TerminatedNormally { when, .. } => when == time,
                EventView::TerminatedAbnormally { when, .. } => when == time,
                EventView::Stopped { when, .. } => when == time,
                EventView::Continued { when, .. } => when == time,
            },
    ;
}

/// The run after a number of answers, each with the time at which it came.
pub open spec fn run_after<E: Executor>(
    run: E::State,
    answers: Seq<(E::Observed, Timestamp)>,
) -> E::State
    decreases answers.len(),
{
    if answers.len() == 0 {
        run
    } else {
        E::next(run_after::<E>(run, answers.drop_last()), answers.last().0)
    }
}

/// The events that the answers give rise to, the oldest first.
pub open spec fn events_after<E: Executor>(
    run: E::State,
    answers: Seq<(E::Observed, Timestamp)>,
) -> Seq<EventView>
    decreases answers.len(),
{
    if answers.len() == 0 {
        Seq::empty()
    } else {
        appended(
            events_after::<E>(run, answers.drop_last()),
            E::event(run_after::<E>(run, answers.drop_last()), answers.last().0, answers.last().1),
        )
    }
}

/// Each of the answers is one to what the run asks for at its turn.
pub open spec fn all_awaited<E: Executor>(
    run: E::State,
    answers: Seq<(E::Observed, Timestamp)>,
) -> bool
    decreases answers.len(),
{
    answers.len() == 0 || {
        &&& all_awaited::<E>(run, answers.drop_last())
        &&& E::awaits(run_after::<E>(run, answers.drop_last()), answers.last().0)
    }
}

} // verus!
