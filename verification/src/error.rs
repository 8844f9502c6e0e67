//! What can go wrong while one message is moderated. None of these is fatal:
//! the message at hand is given up and the next one is handled as usual.

use crate::text::{decimal, decimal_text};
use vstd::prelude::*;

verus! {

#[derive(Clone, Copy, Debug, PartialEq, Eq, Structural)]
pub enum ModerationError {
    /// The store's worker has stopped, or a channel to it is closed.
    StoreUnavailable,
    /// The classification service could not be reached.
    ClassifierUnreachable,
    /// The classification service answered with a status other than success.
    ClassifierRejected(u16),
    /// The answer of the classification service is not of the expected form.
    MalformedVerdict,
}

impl ModerationError {
    /// The text that `describe` produces.
    pub open spec fn message(self) -> Seq<char> {
        match self {
            ModerationError::StoreUnavailable => "the context store is unavailable"@,
            ModerationError::ClassifierUnreachable => "the classifier could not be reached"@,
            ModerationError::ClassifierRejected(status) => "the classifier answered with status "@
                + decimal(status as nat),
            ModerationError::MalformedVerdict => "the classifier's verdict is malformed"@,
        }
    }

    /// A line for the log.
    pub fn describe(&self) -> (text: String)
        ensures
            text@ == self.message(),
    {
        match self {
            ModerationError::StoreUnavailable => String::from_str(
                "the context store is unavailable",
            ),
            ModerationError::ClassifierUnreachable => String::from_str(
                "the classifier could not be reached",
            ),
            ModerationError::ClassifierRejected(status) => {
                let mut text = String::from_str("the classifier answered with status ");
                let digits = decimal_text(*status as u64);
                text.append(digits.as_str());
                text
            },
            ModerationError::MalformedVerdict => String::from_str(
                "the classifier's verdict is malformed",
            ),
        }
    }
}

} // verus!
