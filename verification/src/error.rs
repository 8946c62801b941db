//! The error taxonomy of the tool.
//!
//! Every failure of the pipeline is one of these variants; the payload of a
//! variant carries the detail that the human-readable message surfaces.
use vstd::prelude::*;

verus! {

/// One error kind for each way an invocation can fail: a malformed textual
/// address, an unreadable signer file, a missing metadata account, on-chain
/// bytes that do not match the expected layout, a checkpoint token that went
/// stale before submission, and a rejection by the remote endpoint (whose
/// reason is carried verbatim).
#[derive(Debug)]
pub enum MetaError {
    InvalidAddress { input: String },
    KeyLoad { path: String, cause: String },
    AccountNotFound,
    Decode { detail: String },
    SubmissionExpired,
    Submission { reason: String },
}

/// The exact text that `MetaError::message` renders for each variant.
pub open spec fn message_of(e: MetaError) -> Seq<char> {
    match e {
        MetaError::InvalidAddress { input } => "invalid address: "@ + input@,
        MetaError::KeyLoad { path, cause } => "failed to read keypair from '"@ + path@ + "': "@
            + cause@,
        MetaError::AccountNotFound => "failed to fetch metadata account: does it exist?"@,
        MetaError::Decode { detail } => "failed to deserialize metadata: "@ + detail@,
        MetaError::SubmissionExpired => "failed to send transaction: blockhash expired before submission"@,
        MetaError::Submission { reason } => "failed to send transaction: "@ + reason@,
    }
}

impl MetaError {
    /// A one-line human-readable description; the payload strings appear
    /// verbatim inside it.
    pub fn message(&self) -> (r: String)
        ensures
            r@ == message_of(*self),
    {
        match self {
            MetaError::InvalidAddress { input } => {
                let mut s = "invalid address: ".to_owned();
                s.append(input.as_str());
                s
            },
            MetaError::KeyLoad { path, cause } => {
                let mut s = "failed to read keypair from '".to_owned();
                s.append(path.as_str());
                s.append("': ");
                s.append(cause.as_str());
                s
            },
            MetaError::AccountNotFound => {
                "failed to fetch metadata account: does it exist?".to_owned()
            },
            MetaError::Decode { detail } => {
                let mut s = "failed to deserialize metadata: ".to_owned();
                s.append(detail.as_str());
                s
            },
            MetaError::SubmissionExpired => {
                "failed to send transaction: blockhash expired before submission".to_owned()
            },
            MetaError::Submission { reason } => {
                let mut s = "failed to send transaction: ".to_owned();
                s.append(reason.as_str());
                s
            },
        }
    }
}

} // verus!
