use vstd::prelude::*;

verus! {

/// A block-commit notification reported by one node.
#[derive(Clone, Debug, PartialEq, Eq)]
pub struct Commit {
    /// Identifier of the committed block.
    pub commit: String,
    /// The node's proposal round of the block.
    pub round: u64,
    /// Identifier of the block's parent.
    pub parent: String,
}

pub struct CommitModel {
    pub commit: Seq<char>,
    pub round: u64,
    pub parent: Seq<char>,
}

impl View for Commit {
    type V = CommitModel;

    open spec fn view(&self) -> CommitModel {
        CommitModel { commit: self.commit@, round: self.round, parent: self.parent@ }
    }
}

/// A decoded node event. Raw events of any other kind are dropped.
#[derive(Clone, Debug, PartialEq, Eq)]
pub enum Event {
    Commit(Commit),
}

pub enum EventModel {
    Commit(CommitModel),
}

impl View for Event {
    type V = EventModel;

    open spec fn view(&self) -> EventModel {
        match self {
            Event::Commit(c) => EventModel::Commit(c@),
        }
    }
}

/// A decoded event together with the node that emitted it and when.
#[derive(Clone, Debug, PartialEq, Eq)]
pub struct ValidatorEvent {
    /// Identity of the emitting node.
    pub validator: String,
    /// Milliseconds since the epoch, as reported by the node.
    pub timestamp_ms: u64,
    /// Milliseconds since the epoch at which the event was received locally.
    pub received_timestamp_ms: u64,
    pub event: Event,
}

pub struct ValidatorEventModel {
    pub validator: Seq<char>,
    pub timestamp_ms: u64,
    pub received_timestamp_ms: u64,
    pub event: EventModel,
}

impl View for ValidatorEvent {
    type V = ValidatorEventModel;

    open spec fn view(&self) -> ValidatorEventModel {
        ValidatorEventModel {
            validator: self.validator@,
            timestamp_ms: self.timestamp_ms,
            received_timestamp_ms: self.received_timestamp_ms,
            event: self.event@,
        }
    }
}

/// One event as a node's debug endpoint returns it.
#[derive(Clone, Debug, PartialEq, Eq)]
pub struct RawEvent {
    /// Kind of the event, such as `committed`.
    pub name: String,
    /// Milliseconds since the epoch, as the node observed it.
    pub timestamp: i64,
    /// The event's payload, a JSON document.
    pub json: String,
}

pub struct RawEventModel {
    pub name: Seq<char>,
    pub timestamp: i64,
    pub json: Seq<char>,
}

impl View for RawEvent {
    type V = RawEventModel;

    open spec fn view(&self) -> RawEventModel {
        RawEventModel { name: self.name@, timestamp: self.timestamp, json: self.json@ }
    }
}

impl RawEvent {
    pub fn new(name: String, timestamp: i64, json: String) -> (r: RawEvent)
        ensures
            r.name == name,
            r.timestamp == timestamp,
            r.json == json,
    {
        RawEvent { name, timestamp, json }
    }
}

/// A field that a commit payload must hold.
#[derive(Clone, Copy, Debug, PartialEq, Eq)]
pub enum CommitField {
    BlockId,
    Round,
    ParentId,
}

/// Why a raw event broke the debug protocol. Any of these ends the poller
/// of the node that sent it.
#[derive(Clone, Copy, Debug, PartialEq, Eq)]
pub enum DecodeError {
    /// The payload is not a JSON document.
    MalformedJson,
    /// A commit payload lacks a required field.
    MissingField(CommitField),
    /// A required field of a commit payload has the wrong JSON type.
    WrongFieldType(CommitField),
}

} // verus!
