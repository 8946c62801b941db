//! Classification of the submission outcome.
//!
//! The surrounding program performs the blocking network call and reports
//! what happened as a plain value; the decision of how each outcome surfaces
//! to the caller is made here.
use crate::error::MetaError;
use vstd::prelude::*;

verus! {

/// What the remote endpoint reported for a submitted transaction: confirmed
/// with a transaction identifier, rejected because the checkpoint token had
/// expired by submission time, or rejected for any other reason (carried
/// verbatim).
#[derive(Debug)]
pub enum SubmitOutcome {
    Confirmed { signature: String },
    BlockhashExpired,
    Rejected { reason: String },
}

/// Turn a submission outcome into the operation's result: confirmation
/// yields the transaction identifier, an expired checkpoint token surfaces
/// as its own error, and every other rejection keeps its reason verbatim.
pub fn classify_submission(outcome: SubmitOutcome) -> (r: Result<String, MetaError>)
    ensures
        (match outcome {
            SubmitOutcome::Confirmed { signature } => r matches Ok(s) && s@ == signature@,
            SubmitOutcome::BlockhashExpired => r matches Err(e) && e matches
                MetaError::SubmissionExpired,
            SubmitOutcome::Rejected { reason } => r matches Err(e) && (e matches
                MetaError::Submission { reason: rr } && rr@ == reason@),
        }),
{
    match outcome {
        SubmitOutcome::Confirmed { signature } => Ok(signature),
        SubmitOutcome::BlockhashExpired => Err(MetaError::SubmissionExpired),
        SubmitOutcome::Rejected { reason } => Err(MetaError::Submission { reason }),
    }
}

} // verus!
