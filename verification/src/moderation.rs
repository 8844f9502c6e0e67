//! The moderation of one newly observed message: record it, read the window
//! it falls into, and, once the classifier has spoken, mark the window if a
//! violation was found.
//!
//! Talking to the classifier is left to the caller. Between `collect_window`
//! and `apply_verdict` the caller sends the request that
//! `classifier::build_request` makes of the window, and reads the verdict
//! out of the answer.

use crate::classifier::Validation;
use crate::error::ModerationError;
use crate::record::{record_of, MessageEvent, MessageView, PartialMessage, Status};
use crate::store::{lemma_insert_then_read, reply, step, DatabaseMessage};
use crate::window::{latest, lemma_marked_scope, lemma_window_floor};
use crossbeam::channel::{Receiver, RecvError, Sender};
use vstd::prelude::*;

verus! {

/// The number of records in the window that is classified.
pub const WINDOW: u8 = 20;

/// How the moderation of one message ended.
#[derive(Clone, Copy, Debug, PartialEq, Eq, Structural)]
pub enum Outcome {
    /// A violation was found and the store was asked to mark the window.
    ValidatedApplied,
    /// No violation was found; nothing was asked of the store.
    NoOp,
}

/// The two requests by which a newly observed message is recorded and its
/// window read: the insert of its record first, then the read.
pub open spec fn is_record_and_read(message: MessageEvent, requests: (DatabaseMessage, DatabaseMessage)) -> bool {
    &&& requests.0 matches DatabaseMessage::InsertMessage(record)
    &&& record@ == record_of(message)
    &&& requests.1 == DatabaseMessage::GetLatest(WINDOW)
}

/// The request that follows a verdict. The window is marked when the verdict
/// gives a reason, and nothing is asked when it gives none.
pub open spec fn request_after(verdict: Validation) -> Option<DatabaseMessage> {
    if verdict.reason is Some {
        Some(DatabaseMessage::ValidateEntries(WINDOW as u64))
    } else {
        None
    }
}

/// Decides what a verdict asks of the store.
pub fn follow_up(verdict: &Validation) -> (request: Option<DatabaseMessage>)
    ensures
        request == request_after(*verdict),
{
    if verdict.found_violation() {
        Some(DatabaseMessage::ValidateEntries(WINDOW as u64))
    } else {
        None
    }
}

/// A caller of the store that moderates the messages of others. It holds
/// the sending end for requests and the receiving end for windows, and
/// never touches the store itself.
pub struct Handler {
    id: u64,
    requests: Sender<DatabaseMessage>,
    windows: Receiver<Vec<PartialMessage>>,
}

impl Handler {
    /// The identifier under which the assistant itself posts.
    pub closed spec fn own_id(&self) -> u64 {
        self.id
    }

    pub fn new(
        id: u64,
        requests: Sender<DatabaseMessage>,
        windows: Receiver<Vec<PartialMessage>>,
    ) -> (handler: Self)
        ensures
            handler.own_id() == id,
    {
        Self { id, requests, windows }
    }

    pub fn id(&self) -> (id: u64)
        ensures
            id == self.own_id(),
    {
        self.id
    }

    /// The requests that a newly observed message calls for: none for a
    /// message of the assistant itself, else the insert of its record
    /// followed by the read of the window.
    pub fn requests_for(&self, message: MessageEvent) -> (requests: Option<
        (DatabaseMessage, DatabaseMessage),
    >)
        ensures
            message.author_id == self.own_id() ==> requests is None,
            message.author_id != self.own_id() ==> requests is Some && is_record_and_read(
                message,
                requests->0,
            ),
    {
        if message.author_id == self.id {
            return None;
        }
        let record = PartialMessage::from(message);
        Some((DatabaseMessage::InsertMessage(record), DatabaseMessage::GetLatest(WINDOW)))
    }

    /// Sends the requests that `message` calls for, in their order. Returns
    /// whether a window is now owed: `false` for a message of the assistant
    /// itself, for which nothing is sent.
    pub fn submit(&self, message: MessageEvent) -> (submitted: Result<bool, ModerationError>)
        ensures
            message.author_id == self.own_id() ==> submitted == Ok::<bool, ModerationError>(
                false,
            ),
            message.author_id != self.own_id() ==> submitted == Ok::<bool, ModerationError>(true)
                || submitted == Err::<bool, ModerationError>(ModerationError::StoreUnavailable),
    {
        match self.requests_for(message) {
            None => Ok(false),
            Some((insert, read)) => {
                match self.requests.send(insert) {
                    Ok(_) => {},
                    Err(_) => {
                        return Err(ModerationError::StoreUnavailable);
                    },
                }
                match self.requests.send(read) {
                    Ok(_) => Ok(true),
                    Err(_) => Err(ModerationError::StoreUnavailable),
                }
            },
        }
    }

    /// Waits for the window that the store owes after a `submit` that
    /// returned `true`.
    pub fn collect_window(&self) -> (window: Result<Vec<PartialMessage>, ModerationError>)
        ensures
            window matches Err(e) ==> e == ModerationError::StoreUnavailable,
    {
        window_from(self.windows.recv())
    }

    /// Acts on a verdict. Asks the store to mark the window when the verdict
    /// gives a reason, and asks nothing of it when the verdict gives none.
    pub fn apply_verdict(&self, verdict: &Validation) -> (outcome: Result<
        Outcome,
        ModerationError,
    >)
        ensures
            verdict.reason is None ==> outcome == Ok::<Outcome, ModerationError>(Outcome::NoOp),
            verdict.reason is Some ==> outcome == Ok::<Outcome, ModerationError>(
                Outcome::ValidatedApplied,
            ) || outcome == Err::<Outcome, ModerationError>(ModerationError::StoreUnavailable),
    {
        match follow_up(verdict) {
            None => Ok(Outcome::NoOp),
            Some(request) => match self.requests.send(request) {
                Ok(_) => Ok(Outcome::ValidatedApplied),
                Err(_) => Err(ModerationError::StoreUnavailable),
            },
        }
    }
}

/// What a caller has once its wait for a window is over: the window that
/// arrived, unchanged, or the news that the store is unavailable when the
/// channel closed instead.
pub fn window_from(received: Result<Vec<PartialMessage>, RecvError>) -> (window: Result<
    Vec<PartialMessage>,
    ModerationError,
>)
    ensures
        match received {
            Ok(arrived) => window == Ok::<Vec<PartialMessage>, ModerationError>(arrived),
            Err(_) => window == Err::<Vec<PartialMessage>, ModerationError>(
                ModerationError::StoreUnavailable,
            ),
        },
{
    match received {
        Ok(arrived) => Ok(arrived),
        Err(_) => Err(ModerationError::StoreUnavailable),
    }
}

/// One round as the store sees it. After the store has handled the two
/// requests that a message of someone else calls for, the window it answers
/// with ends with the record of that message. A verdict without a reason
/// then asks nothing more of the store; a verdict with a reason asks for a
/// mark, and once the store has handled that mark every record of that
/// window is validated.
pub proof fn lemma_round(
    s: Seq<MessageView>,
    capacity: nat,
    message: MessageEvent,
    requests: (DatabaseMessage, DatabaseMessage),
    verdict: Validation,
)
    requires
        is_record_and_read(message, requests),
    ensures
        reply(step(s, capacity, requests.0), requests.1) matches Some(window) && window.len() >= 1
            && window.len() <= WINDOW && window.last() == record_of(message),
        step(step(s, capacity, requests.0), capacity, requests.1) == step(s, capacity, requests.0),
        verdict.reason is None ==> request_after(verdict) is None,
        verdict.reason is Some ==> request_after(verdict) == Some(
            DatabaseMessage::ValidateEntries(WINDOW as u64),
        ),
        ({
            let stored = step(s, capacity, requests.0);
            let after = step(stored, capacity, DatabaseMessage::ValidateEntries(WINDOW as u64));
            &&& after.len() == stored.len()
            &&& latest(after, WINDOW as nat) == latest(stored, WINDOW as nat).map_values(
                |m: MessageView| m.validated(),
            )
            &&& forall|i: int|
                0 <= i < latest(after, WINDOW as nat).len() ==> (#[trigger] latest(
                    after,
                    WINDOW as nat,
                )[i]).status == Status::Validated
        }),
{
    let record = requests.0->InsertMessage_0;
    lemma_insert_then_read(s, capacity, record, WINDOW);
    let stored = step(s, capacity, requests.0);
    lemma_window_floor(stored, WINDOW as nat);
    lemma_marked_scope(stored, WINDOW as nat);
}

} // verus!
