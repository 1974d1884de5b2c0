//! The TCP traversal client's decisions: what each connect attempt towards
//! the peer leads to, and how long to wait before the next one.

use vstd::prelude::*;
use crate::addr::PeerAddr;

verus! {

/// The time, in milliseconds, that one connect attempt may take.
pub const CONNECT_TIMEOUT_MS: u64 = 200;

/// The time, in milliseconds, between two attempts, before jitter.
pub const BASE_RETRY_MS: u64 = 200;

/// The jitter is below this many milliseconds, either way.
pub const JITTER_SPAN_MS: u64 = 50;

/// The time to wait for a heartbeat reply, in milliseconds.
pub const HEARTBEAT_REPLY_MS: u64 = 200;

/// Relies on `rand::random` (rand 0.8): a value drawn from the thread-local
/// generator, of which nothing is promised.
pub assume_specification<T>[ rand::random::<T> ]() -> (r: T)
    where
        rand::distributions::Standard: rand::distributions::Distribution<T>,
;

/// The wait after a failed attempt, from a random draw and a coin flip: the
/// base interval lengthened or shortened by the draw modulo the jitter span.
pub open spec fn retry_interval_spec(draw: u64, longer: bool) -> u64 {
    if longer {
        (BASE_RETRY_MS + draw % JITTER_SPAN_MS) as u64
    } else {
        (BASE_RETRY_MS - draw % JITTER_SPAN_MS) as u64
    }
}

/// The wait after a failed attempt for a given draw and coin flip.
pub fn retry_interval_ms(draw: u64, longer: bool) -> (r: u64)
    ensures
        r == retry_interval_spec(draw, longer),
        BASE_RETRY_MS - JITTER_SPAN_MS < r < BASE_RETRY_MS + JITTER_SPAN_MS,
{
    let jitter = draw % JITTER_SPAN_MS;
    if longer {
        BASE_RETRY_MS + jitter
    } else {
        BASE_RETRY_MS - jitter
    }
}

/// A freshly jittered wait after a failed attempt, so that two peers that
/// retry against each other drift out of lock step.
pub fn random_retry_interval_ms() -> (r: u64)
    ensures
        BASE_RETRY_MS - JITTER_SPAN_MS < r < BASE_RETRY_MS + JITTER_SPAN_MS,
        exists|draw: u64, longer: bool| r == retry_interval_spec(draw, longer),
{
    let draw: u64 = rand::random::<u64>();
    let longer: bool = rand::random::<bool>();
    retry_interval_ms(draw, longer)
}

/// How one connect attempt towards the peer ended.
#[derive(Clone, Copy, Debug, PartialEq, Eq, Structural)]
pub enum ConnectOutcome {
    Connected,
    TimedOut,
    /// The local address could not be bound again: no retry can succeed.
    AddrNotAvailable,
    Failed,
}

/// Where a traversal attempt stands.
#[derive(Clone, Copy, Debug, PartialEq, Eq, Structural)]
pub enum AttemptOutcome {
    Pending,
    Connected,
    PermanentlyFailed,
}

/// What the punching loop does next.
#[derive(Clone, Copy, Debug, PartialEq, Eq, Structural)]
pub enum PunchStep {
    /// A direct connection stands: leave the loop holding it.
    Established,
    /// Give the attempt up.
    Abandon,
    /// Try again at once.
    RetryNow,
    /// Try again after this many milliseconds.
    RetryAfter(u64),
}

/// The step that follows an attempt's outcome, with `wait_ms` the jittered
/// wait to use after an ordinary failure.
pub open spec fn punch_step_spec(result: ConnectOutcome, wait_ms: u64) -> PunchStep {
    match result {
        ConnectOutcome::Connected => PunchStep::Established,
        ConnectOutcome::AddrNotAvailable => PunchStep::Abandon,
        ConnectOutcome::TimedOut => PunchStep::RetryNow,
        ConnectOutcome::Failed => PunchStep::RetryAfter(wait_ms),
    }
}

/// The state of one traversal attempt: the local port that the rendezvous
/// connection used and that every punching socket binds again, the peer's
/// address, and how far the attempt has come.
pub struct TraversalAttempt {
    pub local_port: u16,
    pub remote: PeerAddr,
    pub outcome: AttemptOutcome,
}

impl TraversalAttempt {
    pub fn new(local_port: u16, remote: PeerAddr) -> (r: TraversalAttempt)
        ensures
            r.local_port == local_port,
            r.remote == remote,
            r.outcome == AttemptOutcome::Pending,
    {
        TraversalAttempt { local_port, remote, outcome: AttemptOutcome::Pending }
    }

    /// Records how one connect attempt ended and returns what to do next: a
    /// connection ends the loop; an unavailable local address gives the
    /// attempt up for good; a timeout retries at once; any other failure
    /// retries after `wait_ms`.
    pub fn record(&mut self, result: ConnectOutcome, wait_ms: u64) -> (r: PunchStep)
        requires
            old(self).outcome == AttemptOutcome::Pending,
        ensures
            r == punch_step_spec(result, wait_ms),
            final(self).outcome == (match result {
                ConnectOutcome::Connected => AttemptOutcome::Connected,
                ConnectOutcome::AddrNotAvailable => AttemptOutcome::PermanentlyFailed,
                _ => AttemptOutcome::Pending,
            }),
            final(self).local_port == old(self).local_port,
            final(self).remote == old(self).remote,
    {
        match result {
            ConnectOutcome::Connected => {
                self.outcome = AttemptOutcome::Connected;
                PunchStep::Established
            },
            ConnectOutcome::AddrNotAvailable => {
                self.outcome = AttemptOutcome::PermanentlyFailed;
                PunchStep::Abandon
            },
            ConnectOutcome::TimedOut => PunchStep::RetryNow,
            ConnectOutcome::Failed => PunchStep::RetryAfter(wait_ms),
        }
    }
}

/// What waiting for a heartbeat reply gave.
#[derive(Clone, Copy, Debug, PartialEq, Eq, Structural)]
pub enum HeartbeatEvent {
    Reply,
    TimedOut,
    Closed,
    Failed,
}

/// Whether the heartbeat loop goes on: only the peer's disconnect or a
/// transport error ends it.
pub fn heartbeat_continues(event: HeartbeatEvent) -> (r: bool)
    ensures
        r == (event == HeartbeatEvent::Reply || event == HeartbeatEvent::TimedOut),
{
    match event {
        HeartbeatEvent::Reply => true,
        HeartbeatEvent::TimedOut => true,
        _ => false,
    }
}

} // verus!
