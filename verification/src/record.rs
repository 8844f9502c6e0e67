//! One chat message as the store keeps it.

use std::cmp::Ordering;
use vstd::prelude::*;

verus! {

/// Whether a record has been marked by a classification round.
#[derive(Clone, Copy, Debug, PartialEq, Eq, Structural)]
pub enum Status {
    NotValidated,
    Validated,
}

impl Status {
    /// The status as it is written into a classification request.
    pub open spec fn label(self) -> Seq<char> {
        match self {
            Status::NotValidated => "not_validated"@,
            Status::Validated => "validated"@,
        }
    }

    pub fn name(&self) -> (text: &'static str)
        ensures
            text@ == self.label(),
    {
        match self {
            Status::NotValidated => "not_validated",
            Status::Validated => "validated",
        }
    }
}

/// What a record is, as a mathematical value.
pub struct MessageView {
    pub id: u64,
    pub channel_id: u64,
    pub author_id: u64,
    pub content: Seq<char>,
    pub status: Status,
    pub timestamp: i64,
}

impl MessageView {
    /// The same record with its status set to `Validated`.
    pub open spec fn validated(self) -> MessageView {
        MessageView { status: Status::Validated, ..self }
    }
}

/// A snapshot of one chat message. Everything but the status is fixed once
/// the record is built.
#[derive(Debug, Eq)]
pub struct PartialMessage {
    id: u64,
    channel_id: u64,
    author_id: u64,
    content: String,
    status: Status,
    timestamp: i64,
}

impl View for PartialMessage {
    type V = MessageView;

    closed spec fn view(&self) -> MessageView {
        MessageView {
            id: self.id,
            channel_id: self.channel_id,
            author_id: self.author_id,
            content: self.content@,
            status: self.status,
            timestamp: self.timestamp,
        }
    }
}

impl DeepView for PartialMessage {
    type V = MessageView;

    open spec fn deep_view(&self) -> MessageView {
        self@
    }
}

impl PartialMessage {
    pub fn new(
        id: u64,
        channel_id: u64,
        author_id: u64,
        content: String,
        status: Status,
        timestamp: i64,
    ) -> (record: Self)
        ensures
            record@ == (MessageView {
                id,
                channel_id,
                author_id,
                content: content@,
                status,
                timestamp,
            }),
    {
        Self { id, channel_id, author_id, content, status, timestamp }
    }

    /// Sets the status to `Validated` and leaves every other field as it was.
    pub fn mark_validated(&mut self)
        ensures
            final(self)@ == old(self)@.validated(),
    {
        self.status = Status::Validated;
    }

    /// Orders two records by timestamp alone and with the later one first:
    /// a record with a larger timestamp is `Less` than one with a smaller.
    pub fn cmp(&self, other: &Self) -> (order: Ordering)
        ensures
            order == recency_order(self@, other@),
    {
        if self.timestamp == other.timestamp {
            Ordering::Equal
        } else if self.timestamp < other.timestamp {
            Ordering::Greater
        } else {
            Ordering::Less
        }
    }

    /// The greater of two records in the order of `cmp`, which is the one
    /// with the smaller timestamp; `other` when the timestamps are equal.
    pub fn max(self, other: Self) -> (chosen: Self)
        ensures
            chosen == if self@.timestamp < other@.timestamp {
                self
            } else {
                other
            },
    {
        if self.timestamp < other.timestamp {
            return self;
        }
        other
    }

    /// The lesser of two records in the order of `cmp`, which is the one
    /// with the larger timestamp; `self` when the timestamps are equal.
    pub fn min(self, other: Self) -> (chosen: Self)
        ensures
            chosen == if self@.timestamp < other@.timestamp {
                other
            } else {
                self
            },
    {
        if self.timestamp < other.timestamp {
            return other;
        }
        self
    }

    /// Brings the record between `min` and `max` in the order of `cmp`:
    /// `min` when the record is less than `min`, which is when its timestamp
    /// is the larger one; else `max` when the record is greater than `max`,
    /// which is when its timestamp is the smaller one; else the record
    /// itself. Where `min` is not greater than `max`, the record chosen lies
    /// between the two.
    pub fn clamp(self, min: Self, max: Self) -> (chosen: Self)
        ensures
            chosen == if self@.timestamp > min@.timestamp {
                min
            } else if self@.timestamp < max@.timestamp {
                max
            } else {
                self
            },
            min@.timestamp >= max@.timestamp ==> max@.timestamp <= chosen@.timestamp
                <= min@.timestamp,
    {
        if self.timestamp > min.timestamp {
            return min;
        }
        if self.timestamp < max.timestamp {
            return max;
        }
        self
    }

    pub fn id(&self) -> (id: u64)
        ensures
            id == self@.id,
    {
        self.id
    }

    pub fn channel_id(&self) -> (channel_id: u64)
        ensures
            channel_id == self@.channel_id,
    {
        self.channel_id
    }

    pub fn author_id(&self) -> (author_id: u64)
        ensures
            author_id == self@.author_id,
    {
        self.author_id
    }

    pub fn content(&self) -> (content: &str)
        ensures
            content@ == self@.content,
    {
        self.content.as_str()
    }

    pub fn status(&self) -> (status: Status)
        ensures
            status == self@.status,
    {
        self.status
    }

    pub fn timestamp(&self) -> (timestamp: i64)
        ensures
            timestamp == self@.timestamp,
    {
        self.timestamp
    }
}

/// How two records compare: by timestamp alone, the later one first.
pub open spec fn recency_order(a: MessageView, b: MessageView) -> Ordering {
    if a.timestamp == b.timestamp {
        Ordering::Equal
    } else if a.timestamp < b.timestamp {
        Ordering::Greater
    } else {
        Ordering::Less
    }
}

/// A newly observed chat message, as the gateway delivers it.
pub struct MessageEvent {
    pub id: u64,
    pub channel_id: u64,
    pub author_id: u64,
    pub content: String,
    pub timestamp: i64,
}

impl From<MessageEvent> for PartialMessage {
    /// The record of a newly observed message. It starts out not validated.
    fn from(message: MessageEvent) -> (record: Self)
        ensures
            record@ == record_of(message),
    {
        Self {
            id: message.id,
            channel_id: message.channel_id,
            author_id: message.author_id,
            content: message.content,
            status: Status::NotValidated,
            timestamp: message.timestamp,
        }
    }
}

impl vstd::std_specs::convert::FromSpecImpl<MessageEvent> for PartialMessage {
    open spec fn obeys_from_spec() -> bool {
        true
    }

    closed spec fn from_spec(message: MessageEvent) -> Self {
        Self {
            id: message.id,
            channel_id: message.channel_id,
            author_id: message.author_id,
            content: message.content,
            status: Status::NotValidated,
            timestamp: message.timestamp,
        }
    }
}

/// What the record of a newly observed message holds.
pub open spec fn record_of(message: MessageEvent) -> MessageView {
    MessageView {
        id: message.id,
        channel_id: message.channel_id,
        author_id: message.author_id,
        content: message.content@,
        status: Status::NotValidated,
        timestamp: message.timestamp,
    }
}

impl Clone for PartialMessage {
    fn clone(&self) -> (copy: Self)
        ensures
            copy == *self,
    {
        Self {
            id: self.id,
            channel_id: self.channel_id,
            author_id: self.author_id,
            content: self.content.clone(),
            status: self.status,
            timestamp: self.timestamp,
        }
    }
}

impl PartialEq for PartialMessage {
    /// Two records are the same message when they agree on channel and id.
    fn eq(&self, other: &Self) -> (same: bool) {
        self.channel_id == other.channel_id && self.id == other.id
    }

    fn ne(&self, other: &Self) -> (differ: bool) {
        self.channel_id != other.channel_id || self.id != other.id
    }
}

impl vstd::std_specs::cmp::PartialEqSpecImpl for PartialMessage {
    open spec fn obeys_eq_spec() -> bool {
        true
    }

    open spec fn eq_spec(&self, other: &Self) -> bool {
        self@.channel_id == other@.channel_id && self@.id == other@.id
    }
}

impl PartialOrd for PartialMessage {
    fn partial_cmp(&self, other: &Self) -> (order: Option<Ordering>) {
        Some(self.cmp(other))
    }

    fn lt(&self, other: &Self) -> (holds: bool) {
        self.timestamp > other.timestamp
    }

    fn le(&self, other: &Self) -> (holds: bool) {
        self.timestamp >= other.timestamp
    }

    fn gt(&self, other: &Self) -> (holds: bool) {
        self.timestamp < other.timestamp
    }

    fn ge(&self, other: &Self) -> (holds: bool) {
        self.timestamp <= other.timestamp
    }
}

impl vstd::std_specs::cmp::PartialOrdSpecImpl for PartialMessage {
    open spec fn obeys_partial_cmp_spec() -> bool {
        true
    }

    open spec fn partial_cmp_spec(&self, other: &Self) -> Option<Ordering> {
        Some(recency_order(self@, other@))
    }
}

} // verus!
