//! Turning one raw debug event into a typed [`ValidatorEvent`].
use vstd::prelude::*;
use vstd::string::*;

use crate::event::{
    Commit, CommitField, CommitModel, DecodeError, Event, EventModel, RawEvent, RawEventModel,
    ValidatorEvent, ValidatorEventModel,
};
use crate::json::{json_as_str, json_as_u64, json_get, json_member, json_of, json_str, json_u64, parse_json};

verus! {

/// Kinds of raw event that decode into an [`Event`].
#[derive(Clone, Copy, Debug, PartialEq, Eq)]
pub enum EventKind {
    Committed,
}

pub open spec fn committed_name() -> Seq<char> {
    seq!['c', 'o', 'm', 'm', 'i', 't', 't', 'e', 'd']
}

/// The kind registered under an event name; `None` for names that are skipped.
pub open spec fn kind_of(name: Seq<char>) -> Option<EventKind> {
    if name == committed_name() {
        Some(EventKind::Committed)
    } else {
        None
    }
}

pub open spec fn field_key(f: CommitField) -> Seq<char> {
    match f {
        CommitField::BlockId => seq!['b', 'l', 'o', 'c', 'k', '_', 'i', 'd'],
        CommitField::Round => seq!['r', 'o', 'u', 'n', 'd'],
        CommitField::ParentId => seq!['p', 'a', 'r', 'e', 'n', 't', '_', 'i', 'd'],
    }
}

/// The string held under field `f` of a payload.
pub open spec fn string_field(v: serde_json::Value, f: CommitField) -> Result<Seq<char>, DecodeError> {
    match json_member(v, field_key(f)) {
        None => Err(DecodeError::MissingField(f)),
        Some(m) => match json_str(m) {
            None => Err(DecodeError::WrongFieldType(f)),
            Some(s) => Ok(s),
        },
    }
}

/// The unsigned integer held under field `f` of a payload.
pub open spec fn u64_field(v: serde_json::Value, f: CommitField) -> Result<u64, DecodeError> {
    match json_member(v, field_key(f)) {
        None => Err(DecodeError::MissingField(f)),
        Some(m) => match json_u64(m) {
            None => Err(DecodeError::WrongFieldType(f)),
            Some(n) => Ok(n),
        },
    }
}

/// The commit that a payload describes; the first faulty field, in the order
/// `block_id`, `round`, `parent_id`, decides the error.
pub open spec fn commit_of(v: serde_json::Value) -> Result<CommitModel, DecodeError> {
    match string_field(v, CommitField::BlockId) {
        Err(e) => Err(e),
        Ok(commit) => match u64_field(v, CommitField::Round) {
            Err(e) => Err(e),
            Ok(round) => match string_field(v, CommitField::ParentId) {
                Err(e) => Err(e),
                Ok(parent) => Ok(CommitModel { commit, round, parent }),
            },
        },
    }
}

/// What decoding a raw event from node `validator`, received at
/// `received_ms`, yields: the payload must be JSON whatever the kind; events
/// of unregistered kinds give `None`.
pub open spec fn decoded(validator: Seq<char>, raw: RawEventModel, received_ms: u64) -> Result<Option<ValidatorEventModel>, DecodeError> {
    match json_of(raw.json) {
        None => Err(DecodeError::MalformedJson),
        Some(v) => match kind_of(raw.name) {
            None => Ok(None),
            Some(EventKind::Committed) => match commit_of(v) {
                Err(e) => Err(e),
                Ok(c) => Ok(Some(ValidatorEventModel {
                    validator,
                    timestamp_ms: raw.timestamp as u64,
                    received_timestamp_ms: received_ms,
                    event: EventModel::Commit(c),
                })),
            },
        },
    }
}

/// Whether two texts are the same sequence of characters.
fn same_text(a: &str, b: &str) -> (r: bool)
    ensures
        r == (a@ == b@),
{
    let n = a.unicode_len();
    if n != b.unicode_len() {
        return false;
    }
    let mut i: usize = 0;
    while i < n
        invariant
            n == a@.len(),
            n == b@.len(),
            i <= n,
            a@.subrange(0, i as int) == b@.subrange(0, i as int),
        decreases n - i,
    {
        if a.get_char(i) != b.get_char(i) {
            assert(a@[i as int] != b@[i as int]);
            return false;
        }
        assert(a@.subrange(0, i + 1) == a@.subrange(0, i as int).push(a@[i as int]));
        assert(b@.subrange(0, i + 1) == b@.subrange(0, i as int).push(b@[i as int]));
        i = i + 1;
    }
    assert(a@ == a@.subrange(0, n as int));
    assert(b@ == b@.subrange(0, n as int));
    true
}

/// Looks up the kind registered under an event name.
pub fn event_kind(name: &str) -> (r: Option<EventKind>)
    ensures
        r == kind_of(name@),
{
    let committed = "committed";
    proof {
        reveal_strlit("committed");
        assert(committed@ =~= committed_name());
    }
    if same_text(name, committed) {
        Some(EventKind::Committed)
    } else {
        None
    }
}

fn field_name(f: CommitField) -> (r: &'static str)
    ensures
        r@ == field_key(f),
{
    match f {
        CommitField::BlockId => {
            proof {
                reveal_strlit("block_id");
            }
            "block_id"
        },
        CommitField::Round => {
            proof {
                reveal_strlit("round");
            }
            "round"
        },
        CommitField::ParentId => {
            proof {
                reveal_strlit("parent_id");
            }
            "parent_id"
        },
    }
}

fn read_string_field(json: &serde_json::Value, f: CommitField) -> (r: Result<String, DecodeError>)
    ensures
        match r {
            Ok(s) => string_field(*json, f) == Ok::<Seq<char>, DecodeError>(s@),
            Err(e) => string_field(*json, f) == Err::<Seq<char>, DecodeError>(e),
        },
{
    match json_get(json, field_name(f)) {
        None => Err(DecodeError::MissingField(f)),
        Some(m) => match json_as_str(m) {
            None => Err(DecodeError::WrongFieldType(f)),
            Some(s) => Ok(s.to_owned()),
        },
    }
}

fn read_u64_field(json: &serde_json::Value, f: CommitField) -> (r: Result<u64, DecodeError>)
    ensures
        r == u64_field(*json, f),
{
    match json_get(json, field_name(f)) {
        None => Err(DecodeError::MissingField(f)),
        Some(m) => match json_as_u64(m) {
            None => Err(DecodeError::WrongFieldType(f)),
            Some(n) => Ok(n),
        },
    }
}

/// Decodes the payload of a `committed` event. Every field is required:
/// a missing or mistyped one is an error, never replaced by a default.
pub fn parse_commit(json: &serde_json::Value) -> (r: Result<Event, DecodeError>)
    ensures
        match r {
            Ok(e) => commit_of(*json) == Ok::<CommitModel, DecodeError>(
                match e@ {
                    EventModel::Commit(c) => c,
                },
            ),
            Err(e) => commit_of(*json) == Err::<CommitModel, DecodeError>(e),
        },
{
    let commit = match read_string_field(json, CommitField::BlockId) {
        Ok(s) => s,
        Err(e) => return Err(e),
    };
    let round = match read_u64_field(json, CommitField::Round) {
        Ok(n) => n,
        Err(e) => return Err(e),
    };
    let parent = match read_string_field(json, CommitField::ParentId) {
        Ok(s) => s,
        Err(e) => return Err(e),
    };
    Ok(Event::Commit(Commit { commit, round, parent }))
}

/// Decodes one raw event from node `validator`, received locally at
/// `received_timestamp_ms`. Gives `Ok(None)` for an event of a kind that is
/// skipped, and an error where the event breaks the debug protocol.
pub fn parse_event(validator: &str, event: &RawEvent, received_timestamp_ms: u64) -> (r: Result<Option<ValidatorEvent>, DecodeError>)
    ensures
        match r {
            Ok(Some(e)) => decoded(validator@, event@, received_timestamp_ms) == Ok::<Option<ValidatorEventModel>, DecodeError>(Some(e@)),
            Ok(None) => decoded(validator@, event@, received_timestamp_ms) == Ok::<Option<ValidatorEventModel>, DecodeError>(None),
            Err(e) => decoded(validator@, event@, received_timestamp_ms) == Err::<Option<ValidatorEventModel>, DecodeError>(e),
        },
{
    let json = match parse_json(event.json.as_str()) {
        Ok(v) => v,
        Err(_) => return Err(DecodeError::MalformedJson),
    };
    match event_kind(event.name.as_str()) {
        None => Ok(None),
        Some(EventKind::Committed) => match parse_commit(&json) {
            Err(e) => Err(e),
            Ok(e) => Ok(Some(ValidatorEvent {
                validator: validator.to_owned(),
                timestamp_ms: event.timestamp as u64,
                received_timestamp_ms,
                event: e,
            })),
        },
    }
}

/// Whether field `f` of a payload is absent or of the wrong JSON type:
/// `round` must be an unsigned 64-bit integer, the others strings.
pub open spec fn field_faulty(v: serde_json::Value, f: CommitField) -> bool {
    match json_member(v, field_key(f)) {
        None => true,
        Some(m) => match f {
            CommitField::Round => json_u64(m) is None,
            _ => json_str(m) is None,
        },
    }
}

/// A `committed` event whose payload holds `block_id` and `parent_id` as
/// strings and `round` as an unsigned 64-bit integer decodes to exactly that
/// commit, attributed to the node it came from and stamped with the node's
/// timestamp and the time of receipt.
pub proof fn lemma_commit_decodes_exactly(
    validator: Seq<char>,
    raw: RawEventModel,
    received_ms: u64,
    payload: serde_json::Value,
    block_id: Seq<char>,
    round: u64,
    parent_id: Seq<char>,
)
    requires
        raw.name == committed_name(),
        json_of(raw.json) == Some(payload),
        json_member(payload, field_key(CommitField::BlockId)) matches Some(m) && json_str(m) == Some(block_id),
        json_member(payload, field_key(CommitField::Round)) matches Some(m) && json_u64(m) == Some(round),
        json_member(payload, field_key(CommitField::ParentId)) matches Some(m) && json_str(m) == Some(parent_id),
    ensures
        decoded(validator, raw, received_ms) == Ok::<Option<ValidatorEventModel>, DecodeError>(
            Some(
                ValidatorEventModel {
                    validator,
                    timestamp_ms: raw.timestamp as u64,
                    received_timestamp_ms: received_ms,
                    event: EventModel::Commit(CommitModel { commit: block_id, round, parent: parent_id }),
                },
            ),
        ),
{
}

/// An event of any kind but `committed`, with a JSON payload, is skipped:
/// decoding gives `None`.
pub proof fn lemma_unknown_event_skipped(validator: Seq<char>, raw: RawEventModel, received_ms: u64)
    requires
        raw.name != committed_name(),
        json_of(raw.json) is Some,
    ensures
        decoded(validator, raw, received_ms) == Ok::<Option<ValidatorEventModel>, DecodeError>(None),
{
}

/// A `committed` event with a required field absent or mistyped fails to
/// decode: no default is put in its place and no partial event comes out.
pub proof fn lemma_faulty_field_aborts(
    validator: Seq<char>,
    raw: RawEventModel,
    received_ms: u64,
    f: CommitField,
)
    requires
        raw.name == committed_name(),
        json_of(raw.json) matches Some(v) && field_faulty(v, f),
    ensures
        decoded(validator, raw, received_ms) is Err,
{
}

/// A payload that is not JSON fails to decode, whatever the event's kind.
pub proof fn lemma_malformed_payload_aborts(validator: Seq<char>, raw: RawEventModel, received_ms: u64)
    requires
        json_of(raw.json) is None,
    ensures
        decoded(validator, raw, received_ms) == Err::<Option<ValidatorEventModel>, DecodeError>(DecodeError::MalformedJson),
{
}

} // verus!
