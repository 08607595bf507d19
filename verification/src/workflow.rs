//! What the workflows share: the shape of a step, and the end of a session.

use vstd::prelude::*;
use crate::line::ReportLine;
use crate::report::{failure_texts, report_failure, texts};
use crate::session::{CardError, Command, Outcome};

verus! {

/// One step of a workflow: what to add to the report, and the exchange to
/// carry out next. There is no next exchange once the workflow is done.
#[derive(Debug)]
pub struct Step {
    /// The lines to add to the report, in order.
    pub lines: Vec<ReportLine>,
    /// The exchange to carry out next, if there is one.
    pub command: Option<Command>,
}

/// What a workflow reports of the halt of the card and of the switching
/// off of the crypto unit: nothing where the exchange went well, and else
/// its error.
pub open spec fn teardown_texts(outcome: Result<Outcome, CardError>) -> Seq<Seq<u8>> {
    match outcome {
        Ok(_) => Seq::empty(),
        Err(error) => failure_texts(error),
    }
}

/// Appends to a report what it says of the outcome of a halt or of the
/// switching off of the crypto unit.
pub fn report_teardown(lines: &mut Vec<ReportLine>, outcome: Result<Outcome, CardError>)
    ensures
        texts(final(lines)@) == texts(old(lines)@) + teardown_texts(outcome),
{
    match outcome {
        Ok(_) => {
        },
        Err(error) => {
            report_failure(lines, error);
        },
    }
}

} // verus!
