//! The decisions of one node's poller: what a poll's outcome delivers, how
//! long the poller sleeps next, and when it must stop.
use vstd::prelude::*;

use crate::decode::{committed_name, decoded, parse_event};
use crate::json::json_of;
use crate::event::{DecodeError, RawEvent, RawEventModel, ValidatorEvent, ValidatorEventModel};

verus! {

/// Port on which every node serves its debug endpoint.
pub const DEBUG_PORT: u16 = 6191;

/// Default bound on one request for events, in milliseconds.
pub const DEFAULT_REQUEST_TIMEOUT_MS: u64 = 5000;

/// Default pause after a failed request, in milliseconds.
pub const DEFAULT_FAILURE_BACKOFF_MS: u64 = 1000;

/// Default pause after a successful request, in milliseconds.
pub const DEFAULT_POLL_INTERVAL_MS: u64 = 200;

/// How a poller behaves; fixed when it is built.
#[derive(Clone, Copy, Debug, PartialEq, Eq)]
pub struct PollerConfig {
    /// Whether failed requests are reported.
    pub verbose_failures: bool,
    /// Bound on one request for events, in milliseconds.
    pub request_timeout_ms: u64,
    /// Pause after a failed request, in milliseconds.
    pub failure_backoff_ms: u64,
    /// Pause after a successful request, in milliseconds.
    pub poll_interval_ms: u64,
}

impl PollerConfig {
    /// The usual configuration: 5 s requests, 1 s back-off, 200 ms interval.
    pub fn new(verbose_failures: bool) -> (r: PollerConfig)
        ensures
            r.verbose_failures == verbose_failures,
            r.request_timeout_ms == DEFAULT_REQUEST_TIMEOUT_MS,
            r.failure_backoff_ms == DEFAULT_FAILURE_BACKOFF_MS,
            r.poll_interval_ms == DEFAULT_POLL_INTERVAL_MS,
    {
        PollerConfig {
            verbose_failures,
            request_timeout_ms: DEFAULT_REQUEST_TIMEOUT_MS,
            failure_backoff_ms: DEFAULT_FAILURE_BACKOFF_MS,
            poll_interval_ms: DEFAULT_POLL_INTERVAL_MS,
        }
    }
}

/// What one request to a node's debug endpoint came back with.
#[derive(Clone, Debug, PartialEq, Eq)]
pub enum PollOutcome {
    /// The request failed in transport: timeout, refusal, unreachable node.
    Failed,
    /// The node answered with these events, oldest first.
    Received(Vec<RawEvent>),
}

/// What a poller does after one request.
#[derive(Clone, Debug, PartialEq, Eq)]
pub struct PollStep {
    /// Events to send to the aggregation channel, in this order.
    pub deliver: Vec<ValidatorEvent>,
    /// Names of the events that were skipped as of an unknown kind.
    pub skipped: Vec<String>,
    /// Whether to report a failed request.
    pub report_failure: bool,
    /// How long to sleep before the next request, in milliseconds.
    pub sleep_ms: u64,
    /// Set where an event broke the debug protocol: the poller delivers what
    /// came before it and then stops for good.
    pub fault: Option<DecodeError>,
}

/// Decoding a batch of raw events in order, up to the first that breaks the
/// protocol: the events delivered, the names skipped, and the fault if any.
pub open spec fn decode_batch(validator: Seq<char>, raws: Seq<RawEventModel>, received_ms: u64) -> (Seq<ValidatorEventModel>, Seq<Seq<char>>, Option<DecodeError>)
    decreases raws.len(),
{
    if raws.len() == 0 {
        (Seq::empty(), Seq::empty(), None)
    } else {
        let (d, s, f) = decode_batch(validator, raws.drop_last(), received_ms);
        if f is Some {
            (d, s, f)
        } else {
            match decoded(validator, raws.last(), received_ms) {
                Err(e) => (d, s, Some(e)),
                Ok(Some(ev)) => (d.push(ev), s, None),
                Ok(None) => (d, s.push(raws.last().name), None),
            }
        }
    }
}

pub open spec fn views_of_events(v: Seq<ValidatorEvent>) -> Seq<ValidatorEventModel> {
    v.map_values(|e: ValidatorEvent| e@)
}

pub open spec fn views_of_raws(v: Seq<RawEvent>) -> Seq<RawEventModel> {
    v.map_values(|e: RawEvent| e@)
}

pub open spec fn views_of_texts(v: Seq<String>) -> Seq<Seq<char>> {
    v.map_values(|s: String| s@)
}

/// Decides what a poller for node `validator` does after a request came
/// back with `outcome`; `received_timestamp_ms` is when the answer arrived.
pub fn poll_step(config: &PollerConfig, validator: &str, outcome: &PollOutcome, received_timestamp_ms: u64) -> (r: PollStep)
    ensures
        match outcome {
            PollOutcome::Failed => {
                &&& r.deliver@.len() == 0
                &&& r.skipped@.len() == 0
                &&& r.report_failure == config.verbose_failures
                &&& r.sleep_ms == config.failure_backoff_ms
                &&& r.fault is None
            },
            PollOutcome::Received(raws) => {
                let (d, s, f) = decode_batch(validator@, views_of_raws(raws@), received_timestamp_ms);
                &&& views_of_events(r.deliver@) == d
                &&& views_of_texts(r.skipped@) == s
                &&& r.fault == f
                &&& !r.report_failure
                &&& r.sleep_ms == config.poll_interval_ms
            },
        },
{
    match outcome {
        PollOutcome::Failed => PollStep {
            deliver: Vec::new(),
            skipped: Vec::new(),
            report_failure: config.verbose_failures,
            sleep_ms: config.failure_backoff_ms,
            fault: None,
        },
        PollOutcome::Received(raws) => {
            let mut deliver: Vec<ValidatorEvent> = Vec::new();
            let mut skipped: Vec<String> = Vec::new();
            let mut fault: Option<DecodeError> = None;
            let mut i: usize = 0;
            while i < raws.len() && fault.is_none()
                invariant
                    i <= raws@.len(),
                    fault is Some ==> i > 0 && decode_batch(validator@, views_of_raws(raws@.subrange(0, i as int)), received_timestamp_ms)
                        == (views_of_events(deliver@), views_of_texts(skipped@), fault),
                    fault is None ==> decode_batch(validator@, views_of_raws(raws@.subrange(0, i as int)), received_timestamp_ms)
                        == (views_of_events(deliver@), views_of_texts(skipped@), fault),
                decreases raws@.len() - i,
            {
                let ghost before = views_of_raws(raws@.subrange(0, i as int));
                let ghost after = views_of_raws(raws@.subrange(0, i + 1));
                assert(after.drop_last() =~= before);
                assert(after.last() == raws@[i as int]@);
                match parse_event(validator, &raws[i], received_timestamp_ms) {
                    Err(e) => {
                        fault = Some(e);
                    },
                    Ok(Some(ev)) => {
                        proof {
                            assert(views_of_events(deliver@.push(ev)) =~= views_of_events(deliver@).push(ev@));
                        }
                        deliver.push(ev);
                    },
                    Ok(None) => {
                        let name = raws[i].name.clone();
                        proof {
                            assert(views_of_texts(skipped@.push(name)) =~= views_of_texts(skipped@).push(name@));
                        }
                        skipped.push(name);
                    },
                }
                i = i + 1;
            }
            proof {
                if fault is Some {
                    lemma_batch_fault_stays(validator@, raws@, i as int, received_timestamp_ms);
                }
                assert(raws@.subrange(0, raws@.len() as int) =~= raws@);
            }
            PollStep {
                deliver,
                skipped,
                report_failure: false,
                sleep_ms: config.poll_interval_ms,
                fault,
            }
        },
    }
}

/// Once a prefix of a batch has a fault, every longer prefix has the same
/// outcome.
proof fn lemma_batch_fault_stays(validator: Seq<char>, raws: Seq<RawEvent>, i: int, received_ms: u64)
    requires
        0 <= i <= raws.len(),
        decode_batch(validator, views_of_raws(raws.subrange(0, i)), received_ms).2 is Some,
    ensures
        decode_batch(validator, views_of_raws(raws), received_ms)
            == decode_batch(validator, views_of_raws(raws.subrange(0, i)), received_ms),
    decreases raws.len() - i,
{
    if i < raws.len() {
        let next = views_of_raws(raws.subrange(0, i + 1));
        assert(next.drop_last() =~= views_of_raws(raws.subrange(0, i)));
        lemma_batch_fault_stays(validator, raws, i + 1, received_ms);
    } else {
        assert(raws.subrange(0, i) =~= raws);
    }
}

/// A batch whose events all decode delivers every one of them, in the order
/// the node returned them, and stops nothing.
pub proof fn lemma_batch_delivers_in_order(validator: Seq<char>, raws: Seq<RawEventModel>, received_ms: u64)
    requires
        forall|i: int| 0 <= i < raws.len() ==> #[trigger] decoded(validator, raws[i], received_ms) matches Ok(Some(_)),
    ensures
        decode_batch(validator, raws, received_ms).0.len() == raws.len(),
        decode_batch(validator, raws, received_ms).1.len() == 0,
        decode_batch(validator, raws, received_ms).2 is None,
        forall|i: int| 0 <= i < raws.len() ==> #[trigger] decoded(validator, raws[i], received_ms)
            == Ok::<Option<ValidatorEventModel>, DecodeError>(Some(decode_batch(validator, raws, received_ms).0[i])),
    decreases raws.len(),
{
    if raws.len() > 0 {
        let prefix = raws.drop_last();
        assert forall|i: int| 0 <= i < prefix.len() implies #[trigger] decoded(validator, prefix[i], received_ms) matches Ok(Some(_)) by {
            assert(prefix[i] == raws[i]);
        }
        lemma_batch_delivers_in_order(validator, prefix, received_ms);
        assert(decoded(validator, raws[raws.len() - 1], received_ms) matches Ok(Some(_)));
        assert forall|i: int| 0 <= i < raws.len() implies #[trigger] decoded(validator, raws[i], received_ms)
            == Ok::<Option<ValidatorEventModel>, DecodeError>(Some(decode_batch(validator, raws, received_ms).0[i])) by {
            if i < raws.len() - 1 {
                assert(prefix[i] == raws[i]);
                assert(decoded(validator, prefix[i], received_ms) == Ok::<Option<ValidatorEventModel>, DecodeError>(Some(decode_batch(validator, prefix, received_ms).0[i])));
            }
        }
    }
}

/// A batch of events that all carry JSON payloads and none of which is a
/// `committed` event delivers nothing: each is skipped by name.
pub proof fn lemma_unknown_batch_delivers_nothing(validator: Seq<char>, raws: Seq<RawEventModel>, received_ms: u64)
    requires
        forall|i: int| 0 <= i < raws.len() ==> (#[trigger] raws[i]).name != committed_name() && json_of(raws[i].json) is Some,
    ensures
        decode_batch(validator, raws, received_ms).0.len() == 0,
        decode_batch(validator, raws, received_ms).1 == raws.map_values(|r: RawEventModel| r.name),
        decode_batch(validator, raws, received_ms).2 is None,
    decreases raws.len(),
{
    if raws.len() > 0 {
        let prefix = raws.drop_last();
        assert forall|i: int| 0 <= i < prefix.len() implies (#[trigger] prefix[i]).name != committed_name() && json_of(prefix[i].json) is Some by {
            assert(prefix[i] == raws[i]);
        }
        lemma_unknown_batch_delivers_nothing(validator, prefix, received_ms);
        let last = raws[raws.len() - 1];
        assert(last.name != committed_name() && json_of(last.json) is Some);
        assert(raws.map_values(|r: RawEventModel| r.name) =~= prefix.map_values(|r: RawEventModel| r.name).push(last.name));
    }
}

/// Whether a poller that got `answers`, one per request (`None` for a request
/// that failed in transport), has stopped on a protocol fault.
pub open spec fn poller_stopped(validator: Seq<char>, answers: Seq<Option<Seq<RawEventModel>>>, received_ms: u64) -> bool {
    exists|i: int| 0 <= i < answers.len() && (#[trigger] answers[i] matches Some(raws) && decode_batch(validator, raws, received_ms).2 is Some)
}

/// Failed requests never stop a poller, however many there are in a row: it
/// keeps retrying and goes on delivering once its node answers again.
pub proof fn lemma_transport_failures_never_stop(validator: Seq<char>, answers: Seq<Option<Seq<RawEventModel>>>, received_ms: u64)
    requires
        forall|i: int| 0 <= i < answers.len() ==> #[trigger] answers[i] is None,
    ensures
        !poller_stopped(validator, answers, received_ms),
{
}

} // verus!
