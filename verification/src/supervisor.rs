//! The supervisor's rule: whichever unit finishes first is reported, and the
//! other is cancelled.

use crate::notice::{Notice, NoticeView};
use crate::step::{noted, Action, ActionView, Outcome, OutcomeView, Step, StepView, Unit};
use vstd::prelude::*;

verus! {

/// The unit that runs beside the given one.
pub open spec fn rival_of(unit: Unit) -> Unit {
    match unit {
        Unit::Sender => Unit::Receiver,
        Unit::Receiver => Unit::Sender,
    }
}

/// The notice that reports how the first unit to finish ended.
pub open spec fn report_of(first: Unit, outcome: OutcomeView) -> NoticeView {
    match (first, outcome) {
        (Unit::Sender, OutcomeView::Count(n)) => NoticeView::MessagesSent(n),
        (Unit::Sender, OutcomeView::Aborted(how)) => NoticeView::SenderFailed(how),
        (Unit::Receiver, OutcomeView::Count(n)) => NoticeView::MessagesReceived(n),
        (Unit::Receiver, OutcomeView::Aborted(how)) => NoticeView::ReceiverFailed(how),
    }
}

/// What the supervisor does once a unit has finished: it reports that unit
/// and asks for the other to be cancelled.
pub open spec fn resolution(first: Unit, outcome: OutcomeView) -> StepView {
    noted(report_of(first, outcome), ActionView::Cancel(rival_of(first)))
}

/// The unit that runs beside the given one.
pub fn rival(unit: Unit) -> (other: Unit)
    ensures
        other == rival_of(unit),
{
    match unit {
        Unit::Sender => Unit::Receiver,
        Unit::Receiver => Unit::Sender,
    }
}

/// Resolves the race between the two units in favour of the one that
/// finished first.
pub fn resolve(first: Unit, outcome: Outcome) -> (step: Step)
    ensures
        step@ == resolution(first, outcome@),
{
    let notice = match first {
        Unit::Sender => match outcome {
            Outcome::Count(n) => Notice::MessagesSent(n),
            Outcome::Aborted(how) => Notice::SenderFailed(how),
        },
        Unit::Receiver => match outcome {
            Outcome::Count(n) => Notice::MessagesReceived(n),
            Outcome::Aborted(how) => Notice::ReceiverFailed(how),
        },
    };
    Step { notice: Some(notice), action: Action::Cancel(rival(first)) }
}

} // verus!
