//! The context store: the single owner of the bounded history of records,
//! and the requests through which everything else reaches it.

use crate::record::{MessageView, PartialMessage};
use crate::window::{
    inserted, latest, lemma_read_after_write, marked, window_start, within_bound,
};
use crossbeam::channel::{unbounded, Receiver, RecvError, Sender};
use std::collections::VecDeque;
use vstd::prelude::*;

verus! {

/// A request to the store.
#[derive(Debug)]
pub enum DatabaseMessage {
    /// Asks for a copy of the latest records, at most as many as given.
    GetLatest(u8),
    /// Appends a record, evicting the oldest one when the store is full.
    InsertMessage(PartialMessage),
    /// Marks the latest records, at most as many as given, as validated.
    ValidateEntries(u64),
}

/// The contents of the store after it has handled `request`.
pub open spec fn step(s: Seq<MessageView>, capacity: nat, request: DatabaseMessage) -> Seq<
    MessageView,
> {
    match request {
        DatabaseMessage::GetLatest(_) => s,
        DatabaseMessage::InsertMessage(record) => inserted(s, capacity, record@),
        DatabaseMessage::ValidateEntries(n) => marked(s, n as nat),
    }
}

/// What the store answers to `request`: a window for `GetLatest`, nothing for
/// the other two.
pub open spec fn reply(s: Seq<MessageView>, request: DatabaseMessage) -> Option<Seq<MessageView>> {
    match request {
        DatabaseMessage::GetLatest(n) => Some(latest(s, n as nat)),
        DatabaseMessage::InsertMessage(_) => None,
        DatabaseMessage::ValidateEntries(_) => None,
    }
}

/// The contents of the store after it has handled each of `requests` in
/// turn, first to last, every one to completion before the next begins.
pub open spec fn run(s: Seq<MessageView>, capacity: nat, requests: Seq<DatabaseMessage>) -> Seq<
    MessageView,
>
    decreases requests.len(),
{
    if requests.len() == 0 {
        s
    } else {
        step(run(s, capacity, requests.drop_last()), capacity, requests.last())
    }
}

/// The store. It owns the records and both ends it talks through: requests
/// come in on one channel, windows go out on the other.
pub struct Database {
    messages: VecDeque<PartialMessage>,
    capacity: usize,
    sender: Sender<Vec<PartialMessage>>,
    receiver: Receiver<DatabaseMessage>,
}

impl View for Database {
    type V = Seq<MessageView>;

    /// The stored records, oldest first.
    closed spec fn view(&self) -> Seq<MessageView> {
        self.messages.deep_view()
    }
}

impl Database {
    /// The bound on the number of records that the store was made with.
    pub closed spec fn limit(&self) -> nat {
        self.capacity as nat
    }

    /// The store holds no more records than its bound allows.
    pub open spec fn wf(&self) -> bool {
        within_bound(self@, self.limit())
    }

    /// An empty store with the given bound, the sending end for requests to
    /// it, and the receiving end for the windows it answers with.
    pub fn new(capacity: usize) -> (made: (
        Database,
        Sender<DatabaseMessage>,
        Receiver<Vec<PartialMessage>>,
    ))
        ensures
            made.0.wf(),
            made.0@ == Seq::<MessageView>::empty(),
            made.0.limit() == capacity,
    {
        let (request_sender, request_receiver) = unbounded::<DatabaseMessage>();
        let (window_sender, window_receiver) = unbounded::<Vec<PartialMessage>>();
        let database = Database {
            messages: VecDeque::new(),
            capacity,
            sender: window_sender,
            receiver: request_receiver,
        };
        (database, request_sender, window_receiver)
    }

    pub fn capacity(&self) -> (capacity: usize)
        ensures
            capacity == self.limit(),
    {
        self.capacity
    }

    pub fn len(&self) -> (len: usize)
        ensures
            len == self@.len(),
    {
        self.messages.len()
    }

    /// Appends `record`. When the store already holds as many records as its
    /// bound, the oldest one is evicted first; never more than one.
    pub fn insert(&mut self, record: PartialMessage)
        requires
            old(self).wf(),
        ensures
            final(self).wf(),
            final(self).limit() == old(self).limit(),
            final(self)@ == inserted(old(self)@, old(self).limit(), record@),
            final(self)@.len() >= 1,
            final(self)@.last() == record@,
    {
        if self.messages.len() >= self.capacity {
            self.messages.pop_front();
        }
        self.messages.push_back(record);
    }

    /// A copy of the latest `n` records in stored order, or of all records
    /// when the store holds fewer than `n`.
    pub fn get_latest(&self, n: u8) -> (window: Vec<PartialMessage>)
        ensures
            window.deep_view() == latest(self@, n as nat),
            n >= self@.len() ==> window.deep_view() == self@,
            n <= self@.len() ==> window.len() == n,
            window.len() == latest(self@, n as nat).len(),
            forall|k: int|
                0 <= k < window.len() ==> (#[trigger] window@[k])@ == latest(self@, n as nat)[k],
    {
        let len = self.messages.len();
        let wanted = n as usize;
        let start = if wanted >= len {
            0
        } else {
            len - wanted
        };
        let mut window: Vec<PartialMessage> = Vec::new();
        let mut i = start;
        while i < len
            invariant
                start <= i <= len,
                len == self.messages@.len(),
                start == window_start(len as nat, n as nat),
                window@.len() == i - start,
                forall|k: int| 0 <= k < i - start ==> (#[trigger] window@[k])@ == self@[start + k],
            decreases len - i,
        {
            let copy = self.messages[i].clone();
            window.push(copy);
            i += 1;
        }
        window
    }

    /// Marks the latest `n` records as validated, or all records when the
    /// store holds fewer than `n`. Every other record, and every other field
    /// of the marked ones, stays as it was.
    pub fn validate_entries(&mut self, n: u64)
        requires
            old(self).wf(),
        ensures
            final(self).wf(),
            final(self).limit() == old(self).limit(),
            final(self)@ == marked(old(self)@, n as nat),
            final(self)@.len() == old(self)@.len(),
    {
        let len = self.messages.len();
        let start = if n >= len as u64 {
            0
        } else {
            len - (n as usize)
        };
        let ghost before = self@;
        // Every record is taken from the front, marked if it lies in the
        // window, and put back at the end. After `len` rounds the records
        // stand in their old order.
        let mut i: usize = 0;
        while i < len
            invariant
                i <= len,
                len == before.len(),
                self.messages@.len() == len,
                self.limit() == old(self).limit(),
                start == window_start(len as nat, n as nat),
                self@ == before.subrange(i as int, len as int) + marked(before, n as nat).subrange(
                    0,
                    i as int,
                ),
            decreases len - i,
        {
            let ghost round = self@;
            let ghost target = marked(before, n as nat);
            assert(round[0] == before[i as int]);
            match self.messages.pop_front() {
                Some(record) => {
                    let mut record = record;
                    if i >= start {
                        record.mark_validated();
                    }
                    self.messages.push_back(record);
                    assert(self@ =~= round.subrange(1, len as int).push(target[i as int]));
                },
                None => {},
            }
            i += 1;
        }
    }

    /// Handles one request to completion and returns what is owed to the
    /// caller: a window for `GetLatest`, nothing for the other two.
    pub fn handle(&mut self, request: DatabaseMessage) -> (answer: Option<Vec<PartialMessage>>)
        requires
            old(self).wf(),
        ensures
            final(self).wf(),
            final(self).limit() == old(self).limit(),
            final(self)@ == step(old(self)@, old(self).limit(), request),
            match answer {
                Some(window) => reply(old(self)@, request) == Some(window.deep_view()),
                None => reply(old(self)@, request) is None,
            },
    {
        match request {
            DatabaseMessage::InsertMessage(record) => {
                self.insert(record);
                None
            },
            DatabaseMessage::GetLatest(n) => Some(self.get_latest(n)),
            DatabaseMessage::ValidateEntries(n) => {
                self.validate_entries(n);
                None
            },
        }
    }

    /// Waits for the next request, handles it to completion, and sends the
    /// window back when one is owed. Returns `false`, with the store as it
    /// was, once no request can arrive any more. A window that can no longer
    /// be delivered is dropped.
    pub fn serve_next(&mut self) -> (served: bool)
        requires
            old(self).wf(),
        ensures
            final(self).wf(),
            final(self).limit() == old(self).limit(),
            !served ==> final(self)@ == old(self)@,
            served ==> exists|request: DatabaseMessage|
                final(self)@ == #[trigger] step(old(self)@, old(self).limit(), request),
    {
        let received = self.receiver.recv();
        let (served, answer) = self.serve(received);
        match answer {
            Some(window) => {
                let _ = self.sender.send(window);
            },
            None => {},
        }
        served
    }

    /// Acts on what came out of the request queue. A request is handled to
    /// completion, and the window that it is owed, if any, is returned beside
    /// `true`. When the queue has closed instead, the store stays as it was
    /// and `false` is returned with no window.
    pub fn serve(&mut self, received: Result<DatabaseMessage, RecvError>) -> (outcome: (
        bool,
        Option<Vec<PartialMessage>>,
    ))
        requires
            old(self).wf(),
        ensures
            final(self).wf(),
            final(self).limit() == old(self).limit(),
            outcome.0 == received is Ok,
            final(self)@ == after_receipt(old(self)@, old(self).limit(), received),
            match outcome.1 {
                Some(window) => owed_after(old(self)@, received) == Some(window.deep_view()),
                None => owed_after(old(self)@, received) is None,
            },
    {
        match received {
            Ok(request) => {
                let answer = self.handle(request);
                (true, answer)
            },
            Err(_) => (false, None),
        }
    }
}

/// The contents of the store after its worker has acted on what came out of
/// the request queue: a request takes effect, a closed queue changes nothing.
pub open spec fn after_receipt(
    s: Seq<MessageView>,
    capacity: nat,
    received: Result<DatabaseMessage, RecvError>,
) -> Seq<MessageView> {
    match received {
        Ok(request) => step(s, capacity, request),
        Err(_) => s,
    }
}

/// The window that the worker owes after it has acted on what came out of
/// the request queue: the answer to a request, and nothing for a closed
/// queue.
pub open spec fn owed_after(s: Seq<MessageView>, received: Result<DatabaseMessage, RecvError>) -> Option<
    Seq<MessageView>,
> {
    match received {
        Ok(request) => reply(s, request),
        Err(_) => None,
    }
}

/// Read after write, request by request: the window that answers a
/// `GetLatest` for at least one record, handled right after an
/// `InsertMessage`, ends with the record that was inserted.
pub proof fn lemma_insert_then_read(
    s: Seq<MessageView>,
    capacity: nat,
    record: PartialMessage,
    n: u8,
)
    requires
        n >= 1,
    ensures
        reply(
            step(s, capacity, DatabaseMessage::InsertMessage(record)),
            DatabaseMessage::GetLatest(n),
        ) matches Some(window) && window.len() >= 1 && window.last() == record@
            && window.contains(record@),
{
    lemma_read_after_write(s, capacity, record@, n as nat);
}

/// Handling a queue of requests in two batches leaves the store as handling
/// the whole queue at once does: requests take effect one after another, in
/// the order in which they were taken from the queue.
pub proof fn lemma_run_in_batches(
    s: Seq<MessageView>,
    capacity: nat,
    first: Seq<DatabaseMessage>,
    second: Seq<DatabaseMessage>,
)
    ensures
        run(s, capacity, first + second) == run(run(s, capacity, first), capacity, second),
    decreases second.len(),
{
    if second.len() == 0 {
    } else {
        lemma_run_in_batches(s, capacity, first, second.drop_last());
        assert((first + second).drop_last() =~= first + second.drop_last());
    }
}

/// The records that `requests` ask to insert, in the order of the requests.
pub open spec fn records_inserted(requests: Seq<DatabaseMessage>) -> Seq<MessageView>
    decreases requests.len(),
{
    if requests.len() == 0 {
        Seq::empty()
    } else {
        let earlier = records_inserted(requests.drop_last());
        match requests.last() {
            DatabaseMessage::InsertMessage(record) => earlier.push(record@),
            _ => earlier,
        }
    }
}

/// `s` with the status of every record left out of account.
pub open spec fn ignoring_status(s: Seq<MessageView>) -> Seq<MessageView> {
    s.map_values(|m: MessageView| m.validated())
}

/// No insert is lost. Whatever reads and marks stand between the inserts
/// of a queue, and whoever sent them, a store with a bound of at least one
/// ends up holding the latest `capacity` of all records it was ever given,
/// in the order of insertion; reads and marks change nothing but the status.
pub proof fn lemma_no_insert_is_lost(
    s: Seq<MessageView>,
    capacity: nat,
    requests: Seq<DatabaseMessage>,
)
    requires
        capacity >= 1,
        s.len() <= capacity,
    ensures
        ignoring_status(run(s, capacity, requests)) == ignoring_status(
            latest(s + records_inserted(requests), capacity),
        ),
        run(s, capacity, requests).len() <= capacity,
    decreases requests.len(),
{
    if requests.len() > 0 {
        let earlier = requests.drop_last();
        lemma_no_insert_is_lost(s, capacity, earlier);
        let held = run(s, capacity, earlier);
        let given = s + records_inserted(earlier);
        assert(ignoring_status(held).len() == ignoring_status(latest(given, capacity)).len());
        match requests.last() {
            DatabaseMessage::InsertMessage(record) => {
                assert(s + records_inserted(requests) =~= given.push(record@));
                let now = inserted(held, capacity, record@);
                let due = latest(given.push(record@), capacity);
                assert forall|i: int| 0 <= i < now.len() implies now[i].validated()
                    == due[i].validated() by {
                    if i < now.len() - 1 {
                        let shift: int = if held.len() >= capacity {
                            1
                        } else {
                            0
                        };
                        assert(ignoring_status(held)[i + shift] == held[i + shift].validated());
                        assert(ignoring_status(latest(given, capacity))[i + shift] == latest(
                            given,
                            capacity,
                        )[i + shift].validated());
                    }
                }
            },
            _ => {},
        }
    }
}

/// Whatever requests a store within its bound handles, it stays within its
/// bound.
pub proof fn lemma_run_keeps_bound(
    s: Seq<MessageView>,
    capacity: nat,
    requests: Seq<DatabaseMessage>,
)
    requires
        within_bound(s, capacity),
    ensures
        within_bound(run(s, capacity, requests), capacity),
    decreases requests.len(),
{
    if requests.len() > 0 {
        lemma_run_keeps_bound(s, capacity, requests.drop_last());
    }
}

} // verus!
