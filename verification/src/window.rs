//! The mathematical model of the store: a sequence of records, oldest first,
//! and what each request does to it.

use crate::record::MessageView;
use vstd::prelude::*;

verus! {

/// Where the window of the latest `n` records begins in a sequence of `len`
/// records. When `n` is at least `len` this is `0`: the window is everything.
pub open spec fn window_start(len: nat, n: nat) -> nat {
    (vstd::math::max(n as int, len as int) - n) as nat
}

/// The latest `n` records of `s`, in stored order; all of `s` when it holds
/// fewer.
pub open spec fn latest(s: Seq<MessageView>, n: nat) -> Seq<MessageView> {
    s.subrange(window_start(s.len(), n) as int, s.len() as int)
}

/// `s` with the latest `n` records marked as validated and the others as
/// they were.
pub open spec fn marked(s: Seq<MessageView>, n: nat) -> Seq<MessageView> {
    Seq::new(
        s.len(),
        |i: int|
            if i >= window_start(s.len(), n) {
                s[i].validated()
            } else {
                s[i]
            },
    )
}

/// `s` after room has been made for one more record under the bound
/// `capacity`: the oldest record leaves when the bound is reached, and at
/// most one record leaves.
pub open spec fn evicted(s: Seq<MessageView>, capacity: nat) -> Seq<MessageView> {
    if s.len() >= capacity && s.len() > 0 {
        s.subrange(1, s.len() as int)
    } else {
        s
    }
}

/// `s` after `record` has been inserted under the bound `capacity`.
pub open spec fn inserted(s: Seq<MessageView>, capacity: nat, record: MessageView) -> Seq<
    MessageView,
> {
    evicted(s, capacity).push(record)
}

/// `s` after each of `records` has been inserted in turn, first to last.
pub open spec fn inserted_all(
    s: Seq<MessageView>,
    capacity: nat,
    records: Seq<MessageView>,
) -> Seq<MessageView>
    decreases records.len(),
{
    if records.len() == 0 {
        s
    } else {
        inserted(inserted_all(s, capacity, records.drop_last()), capacity, records.last())
    }
}

/// The length that a store within its bound may have. A bound of zero still
/// lets the record that was inserted last stay.
pub open spec fn within_bound(s: Seq<MessageView>, capacity: nat) -> bool {
    s.len() <= capacity || s.len() <= 1
}

/// An insert keeps a store within its bound, and removes at most one record.
pub proof fn lemma_insert_keeps_bound(s: Seq<MessageView>, capacity: nat, record: MessageView)
    requires
        within_bound(s, capacity),
    ensures
        within_bound(inserted(s, capacity, record), capacity),
        inserted(s, capacity, record).len() >= s.len(),
        inserted(s, capacity, record).len() <= s.len() + 1,
        inserted(s, capacity, record).last() == record,
{
}

/// Bounded first-in-first-out: however many records are inserted into a
/// store that is within a bound of at least one, the store ends up holding
/// exactly the latest `capacity` of everything it was ever given, in the
/// order of insertion. It therefore never holds more than `capacity`
/// records, and once at least `capacity` records were inserted it holds
/// precisely the last `capacity` of those.
pub proof fn lemma_bounded_fifo(s: Seq<MessageView>, capacity: nat, records: Seq<MessageView>)
    requires
        capacity >= 1,
        s.len() <= capacity,
    ensures
        inserted_all(s, capacity, records) == latest(s + records, capacity),
        inserted_all(s, capacity, records).len() <= capacity,
        records.len() >= capacity ==> inserted_all(s, capacity, records) == records.subrange(
            records.len() - capacity,
            records.len() as int,
        ),
        s.len() + records.len() <= capacity ==> inserted_all(s, capacity, records) == s
            + records,
    decreases records.len(),
{
    if records.len() == 0 {
        assert(s + records =~= s);
    } else {
        let before = records.drop_last();
        lemma_bounded_fifo(s, capacity, before);
        assert(s + records =~= (s + before).push(records.last()));
    }
}

/// Read after write: the window of the latest `n` records, taken right after
/// an insert, ends with the record that was inserted, whenever `n` is at
/// least one.
pub proof fn lemma_read_after_write(
    s: Seq<MessageView>,
    capacity: nat,
    record: MessageView,
    n: nat,
)
    requires
        n >= 1,
    ensures
        latest(inserted(s, capacity, record), n).len() >= 1,
        latest(inserted(s, capacity, record), n).last() == record,
        latest(inserted(s, capacity, record), n).contains(record),
{
}

/// A window that asks for at least as many records as are stored is the
/// whole sequence, and a window of zero records is empty.
pub proof fn lemma_window_floor(s: Seq<MessageView>, n: nat)
    ensures
        n >= s.len() ==> latest(s, n) == s,
        n <= s.len() ==> latest(s, n).len() == n,
        n == 0 ==> latest(s, n) == Seq::<MessageView>::empty(),
        latest(s, n).len() <= s.len(),
        forall|i: int|
            0 <= i < latest(s, n).len() ==> #[trigger] latest(s, n)[i] == s[window_start(
                s.len(),
                n,
            ) + i],
{
}

/// Marking changes the status of the records in the window and nothing
/// else: the length stays, records before the window stay as they were, and
/// each record in the window differs from its old self in the status alone.
pub proof fn lemma_marked_scope(s: Seq<MessageView>, n: nat)
    ensures
        marked(s, n).len() == s.len(),
        forall|i: int|
            0 <= i < window_start(s.len(), n) ==> #[trigger] marked(s, n)[i] == s[i],
        forall|i: int|
            window_start(s.len(), n) <= i < s.len() ==> #[trigger] marked(s, n)[i] == s[i].validated(),
        latest(marked(s, n), n) == latest(s, n).map_values(|m: MessageView| m.validated()),
        marked(s, n).subrange(0, window_start(s.len(), n) as int) == s.subrange(
            0,
            window_start(s.len(), n) as int,
        ),
{
}

/// Marking the same window twice changes nothing more than marking it once.
pub proof fn lemma_marked_idempotent(s: Seq<MessageView>, n: nat)
    ensures
        marked(marked(s, n), n) == marked(s, n),
{
}

} // verus!
