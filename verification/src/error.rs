//! The two ways in which a draw can fail.

use vstd::prelude::*;

verus! {

/// Why a draw returned no value.
#[derive(Debug, Clone, Copy, PartialEq, Eq)]
pub enum RandError {
    /// The lower bound lies above the upper bound. The caller has to mend the
    /// call; no entropy was asked for.
    InvalidRange,
    /// The operating system could not supply entropy. Holds what the entropy
    /// source reported, for diagnostics; a later call may succeed.
    EntropyUnavailable(getrandom::Error),
}

impl RandError {
    /// The text of [`RandError::message`].
    pub open spec fn message_text(self) -> Seq<char> {
        match self {
            RandError::InvalidRange => "upper_bound should be >= lower_bound"@,
            RandError::EntropyUnavailable(_) => "unable to call getrandom for seed entropy"@,
        }
    }

    /// What went wrong, in words. For an invalid range this names the
    /// constraint that the bounds break.
    pub fn message(&self) -> (text: String)
        ensures
            text@ == self.message_text(),
    {
        match self {
            RandError::InvalidRange => "upper_bound should be >= lower_bound".to_owned(),
            RandError::EntropyUnavailable(_) => "unable to call getrandom for seed entropy".to_owned(),
        }
    }

    /// What the entropy source reported, where it is the reason for the
    /// failure.
    pub fn cause(&self) -> (cause: Option<getrandom::Error>)
        ensures
            cause == match *self {
                RandError::InvalidRange => None::<getrandom::Error>,
                RandError::EntropyUnavailable(reported) => Some(reported),
            },
    {
        match self {
            RandError::InvalidRange => None,
            RandError::EntropyUnavailable(reported) => Some(*reported),
        }
    }
}

} // verus!
