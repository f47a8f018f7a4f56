use vstd::prelude::*;

use crate::history::StoreError;
use crate::sample::{is_valid_price_bits, price_ok};

verus! {

/// Why a fetcher gave no value.
#[derive(Clone, Copy, Debug, PartialEq, Eq, Structural)]
pub enum FetchError {
    /// The request did not reach the source, or no full answer came back.
    Network,
    /// The source answered with a status other than success.
    Status,
    /// The answer did not hold the expected value.
    Parse,
}

/// Where the collector stands. A round is `Fetching` and then, when both
/// values came, `Storing`; between rounds the collector is `Idle`.
#[derive(Clone, Copy, Debug, PartialEq, Eq, Structural)]
pub enum Phase {
    Idle,
    Fetching,
    Storing,
}

/// What happens to the collector.
#[derive(Debug, PartialEq)]
pub enum Event {
    /// The sampling timer fired.
    Tick,
    /// Both fetchers finished; the price is given as the bits of an `f64`.
    Fetched { height: Result<u64, FetchError>, price_bits: Result<u64, FetchError> },
    /// The append of the round's sample finished, with the sequence id that
    /// the log gave it.
    Appended(Result<i64, StoreError>),
}

/// How a round ended.
#[derive(Debug, PartialEq)]
pub enum Outcome {
    /// A sample was appended under this sequence id.
    Written { sequence_id: i64 },
    /// The height could not be fetched; nothing was stored.
    HeightFailed(FetchError),
    /// The price could not be fetched; nothing was stored.
    PriceFailed(FetchError),
    /// The price was negative, infinite or not a number; nothing was stored.
    PriceInvalid { price_bits: u64 },
    /// The log refused the append; the round's values are lost.
    AppendFailed(StoreError),
}

/// What the collector asks its driver to do.
#[derive(Debug, PartialEq)]
pub enum Action {
    /// Run both fetchers and report back with `Event::Fetched`.
    FetchBoth,
    /// Append one sample and report back with `Event::Appended`.
    Append { block_height: u64, price_bits: u64 },
    /// The round is over; report how it ended and wait for the next tick.
    Finish(Outcome),
    /// The event does not belong to the current phase and changes nothing.
    Ignore,
}

/// The collector's decision on an event: its next phase and its action.
pub open spec fn next(phase: Phase, event: Event) -> (Phase, Action) {
    match (phase, event) {
        (Phase::Idle, Event::Tick) => (Phase::Fetching, Action::FetchBoth),
        (Phase::Fetching, Event::Fetched { height, price_bits }) => match (height, price_bits) {
            (Err(e), _) => (Phase::Idle, Action::Finish(Outcome::HeightFailed(e))),
            (Ok(_), Err(e)) => (Phase::Idle, Action::Finish(Outcome::PriceFailed(e))),
            (Ok(h), Ok(p)) => if price_ok(p) {
                (Phase::Storing, Action::Append { block_height: h, price_bits: p })
            } else {
                (Phase::Idle, Action::Finish(Outcome::PriceInvalid { price_bits: p }))
            },
        },
        (Phase::Storing, Event::Appended(Ok(id))) => (
            Phase::Idle,
            Action::Finish(Outcome::Written { sequence_id: id }),
        ),
        (Phase::Storing, Event::Appended(Err(e))) => (
            Phase::Idle,
            Action::Finish(Outcome::AppendFailed(e)),
        ),
        (p, _) => (p, Action::Ignore),
    }
}

/// The collector loop's state: one round at a time.
pub struct Collector {
    phase: Phase,
}

impl Collector {
    pub closed spec fn spec_phase(&self) -> Phase {
        self.phase
    }

    /// A collector waiting for its first tick.
    pub fn new() -> (r: Collector)
        ensures
            r.spec_phase() == Phase::Idle,
    {
        Collector { phase: Phase::Idle }
    }

    /// The current phase.
    pub fn phase(&self) -> (r: Phase)
        ensures
            r == self.spec_phase(),
    {
        self.phase
    }

    /// Takes one event and says what to do next.
    pub fn step(&mut self, event: Event) -> (r: Action)
        ensures
            (final(self).spec_phase(), r) == next(old(self).spec_phase(), event),
    {
        let phase = self.phase;
        match (phase, event) {
            (Phase::Idle, Event::Tick) => {
                self.phase = Phase::Fetching;
                Action::FetchBoth
            },
            (Phase::Fetching, Event::Fetched { height, price_bits }) => match (height, price_bits) {
                (Err(e), _) => {
                    self.phase = Phase::Idle;
                    Action::Finish(Outcome::HeightFailed(e))
                },
                (Ok(_), Err(e)) => {
                    self.phase = Phase::Idle;
                    Action::Finish(Outcome::PriceFailed(e))
                },
                (Ok(h), Ok(p)) => {
                    if is_valid_price_bits(p) {
                        self.phase = Phase::Storing;
                        Action::Append { block_height: h, price_bits: p }
                    } else {
                        self.phase = Phase::Idle;
                        Action::Finish(Outcome::PriceInvalid { price_bits: p })
                    }
                },
            },
            (Phase::Storing, Event::Appended(Ok(id))) => {
                self.phase = Phase::Idle;
                Action::Finish(Outcome::Written { sequence_id: id })
            },
            (Phase::Storing, Event::Appended(Err(e))) => {
                self.phase = Phase::Idle;
                Action::Finish(Outcome::AppendFailed(e))
            },
            (_, _) => Action::Ignore,
        }
    }
}

/// A round in which either fetcher failed stores nothing: the collector asks
/// for no append, whatever its phase, and opens no write of its own.
pub proof fn lemma_failed_fetch_stores_nothing(
    phase: Phase,
    height: Result<u64, FetchError>,
    price_bits: Result<u64, FetchError>,
)
    requires
        height is Err || price_bits is Err,
    ensures
        !(next(phase, Event::Fetched { height, price_bits }).1 is Append),
        next(phase, Event::Fetched { height, price_bits }).0 == Phase::Storing ==> phase
            == Phase::Storing,
{
}

/// A tick that comes while a round is open changes nothing: rounds never
/// overlap.
pub proof fn lemma_one_round_at_a_time(phase: Phase)
    requires
        phase != Phase::Idle,
    ensures
        next(phase, Event::Tick) == (phase, Action::Ignore),
{
}

/// A sample is appended only from a round in which both values came and the
/// price is valid, and the append carries exactly those values.
pub proof fn lemma_append_only_on_joint_success(phase: Phase, event: Event)
    requires
        next(phase, event).1 is Append,
    ensures
        phase == Phase::Fetching,
        event matches Event::Fetched { height: Ok(h), price_bits: Ok(p) } && price_ok(p)
            && next(phase, event).1 == (Action::Append { block_height: h, price_bits: p }),
{
}

} // verus!
