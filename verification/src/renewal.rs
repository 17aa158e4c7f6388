//! When the served certificate needs renewing, and the steps of one renewal through ACME.
//!
//! The server runs the renewal as a loop that awaits a daily tick and the ACME calls; the
//! decisions of that loop are made here. `step` takes the loop's state and what the last
//! awaited work produced, and answers the next state and the work to perform.

use vstd::prelude::*;
use crate::text::bytes_equal;
use crate::keys::{parse_leaf, within_time_range, x509_leaf, LeafSummary};

verus! {

/// Nanoseconds in a second.
pub const NANOS_PER_SECOND: u128 = 1_000_000_000;

/// Seconds in a day.
pub const SECONDS_PER_DAY: u128 = 86_400;

/// An instant, in nanoseconds since the Unix epoch, within the range of `time::OffsetDateTime`.
pub open spec fn valid_instant(nanos: int) -> bool {
    within_time_range(nanos)
}

/// A certificate is renewed when it is self-issued, or when fewer than two whole days remain
/// until it expires (an expired certificate counts as zero days away).
pub open spec fn renewal_due_spec(self_issued: bool, not_after: int, now: int) -> bool {
    self_issued || not_after - now < 2 * SECONDS_PER_DAY * NANOS_PER_SECOND
}

/// Whether the certificate needs renewing: it is self-issued, or, counting the time left until
/// `not_after` in whole seconds and then whole days (nothing when it has passed), fewer than
/// two days remain. Instants are nanoseconds since the Unix epoch.
pub fn renewal_due(self_issued: bool, not_after: i128, now: i128) -> (due: bool)
    requires
        valid_instant(not_after as int),
        valid_instant(now as int),
    ensures
        due == renewal_due_spec(self_issued, not_after as int, now as int),
{
    let diff: i128 = not_after - now;
    let until_expiration: u128 = if diff < 0 {
        0
    } else {
        diff as u128
    };
    let seconds: u128 = until_expiration / NANOS_PER_SECOND;
    let days: u128 = seconds / SECONDS_PER_DAY;
    let almost_expired = days < 2;
    proof {
        lemma_two_days(until_expiration as int);
    }
    self_issued || almost_expired
}

/// Fewer than two whole days, counted from whole seconds, is less than two days of nanoseconds.
proof fn lemma_two_days(nanos: int)
    requires
        nanos >= 0,
    ensures
        (nanos / 1_000_000_000) / 86_400 < 2 <==> nanos < 2 * 86_400 * 1_000_000_000,
{
    let s = nanos / 1_000_000_000;
    assert(0 <= nanos - s * 1_000_000_000 < 1_000_000_000) by (nonlinear_arith)
        requires
            nanos >= 0,
            s == nanos / 1_000_000_000,
    ;
    let d = s / 86_400;
    assert(0 <= s - d * 86_400 < 86_400) by (nonlinear_arith)
        requires
            s >= 0,
            d == s / 86_400,
    ;
}

/// Why the served certificate could not be checked.
#[derive(Debug, Clone, Copy, PartialEq, Eq, Structural)]
pub enum LeafError {
    /// The certificate's DER encoding does not parse.
    Unparsable,
    /// Bytes follow the certificate's DER encoding.
    TrailingData,
}

/// The renewal decision for a parsed certificate, as `check_leaf` makes it.
pub open spec fn leaf_decision(
    leaf: Option<(nat, Seq<u8>, Seq<u8>, int)>,
    now: int,
) -> Result<bool, LeafError> {
    match leaf {
        None => Err(LeafError::Unparsable),
        Some((trailing, issuer, subject, not_after)) => if trailing != 0 {
            Err(LeafError::TrailingData)
        } else {
            Ok(renewal_due_spec(issuer == subject, not_after, now))
        },
    }
}

/// The renewal decision for a certificate the check can read: with bytes after it, it is
/// refused; otherwise it is due exactly when its issuer and subject names are the same bytes,
/// or fewer than two days (172 800 000 000 000 nanoseconds) remain until it expires.
pub proof fn lemma_leaf_decision(
    trailing: nat,
    issuer: Seq<u8>,
    subject: Seq<u8>,
    not_after: int,
    now: int,
)
    ensures
        leaf_decision(None, now) == Err::<bool, LeafError>(LeafError::Unparsable),
        trailing != 0 ==> leaf_decision(Some((trailing, issuer, subject, not_after)), now) == Err::<
            bool,
            LeafError,
        >(LeafError::TrailingData),
        trailing == 0 ==> leaf_decision(Some((trailing, issuer, subject, not_after)), now) == Ok::<
            bool,
            LeafError,
        >(issuer =~= subject || not_after - now < 172_800_000_000_000),
{
}

/// A certificate issued by someone else, with two days or more left, is not due: its
/// decision is `Ok(false)`, whatever its issuer and subject names are, as long as they
/// differ anywhere.
pub proof fn lemma_issued_certificate_not_due(
    issuer: Seq<u8>,
    subject: Seq<u8>,
    not_after: int,
    now: int,
    i: int,
)
    requires
        0 <= i < issuer.len(),
        i < subject.len(),
        issuer[i] != subject[i],
        not_after - now >= 2 * 86_400 * 1_000_000_000,
    ensures
        leaf_decision(Some((0nat, issuer, subject, not_after)), now) == Ok::<bool, LeafError>(false),
{
    assert(issuer != subject);
}

/// Whether a parsed certificate needs renewing at `now`: it must have no trailing bytes; it is
/// self-issued when its issuer and subject names are the same.
pub fn leaf_renewal_due(leaf: &LeafSummary, now: i128) -> (due: Result<bool, LeafError>)
    requires
        valid_instant(leaf.not_after as int),
        valid_instant(now as int),
    ensures
        due == leaf_decision(
            Some((leaf.trailing as nat, leaf.issuer@, leaf.subject@, leaf.not_after as int)),
            now as int,
        ),
{
    if leaf.trailing != 0 {
        return Err(LeafError::TrailingData);
    }
    let self_issued = bytes_equal(leaf.issuer.as_slice(), leaf.subject.as_slice());
    Ok(renewal_due(self_issued, leaf.not_after, now))
}

/// Whether the served certificate, given by its DER encoding, needs renewing at `now`
/// (nanoseconds since the Unix epoch).
pub fn check_leaf(der: &[u8], now: i128) -> (due: Result<bool, LeafError>)
    requires
        valid_instant(now as int),
    ensures
        due == leaf_decision(x509_leaf(der@), now as int),
{
    match parse_leaf(der) {
        Some(leaf) => leaf_renewal_due(&leaf, now),
        None => Err(LeafError::Unparsable),
    }
}

/// A self-issued certificate is always due for renewal.
pub proof fn lemma_self_issued_always_due(not_after: int, now: int)
    ensures
        renewal_due_spec(true, not_after, now),
{
}

/// Once a certificate is due for renewal it stays due as time passes.
pub proof fn lemma_due_stays_due(self_issued: bool, not_after: int, now: int, later: int)
    requires
        now <= later,
        renewal_due_spec(self_issued, not_after, now),
    ensures
        renewal_due_spec(self_issued, not_after, later),
{
}

/// Where the renewal loop stands.
#[derive(Debug, Clone, Copy, PartialEq, Eq, Structural)]
pub enum RenewalState {
    /// Waiting for the next daily tick.
    Idle,
    /// Creating an ACME order for the domain.
    AwaitingOrder,
    /// Fetching the certificate that answers the order's TLS-ALPN-01 challenge.
    AwaitingChallenge,
    /// Finishing the order: marking the challenge ready and collecting the certificate.
    AwaitingCertificate,
}

/// What the last awaited work produced.
#[derive(Debug, Clone, Copy, PartialEq, Eq, Structural)]
pub enum RenewalEvent {
    /// The daily tick elapsed; `due` tells whether the served certificate needs renewing.
    Tick { due: bool },
    /// The ACME order was created.
    OrderCreated,
    /// Creating the ACME order failed.
    OrderFailed,
    /// The challenge certificate is ready.
    ChallengeReady,
    /// Fetching the challenge certificate failed.
    ChallengeFailed,
    /// The order was finished and the new certificate chain issued.
    CertificateIssued,
    /// Finishing the order failed.
    CertificateFailed,
}

/// A step of the renewal that failed; the loop reports it and waits for the next tick.
#[derive(Debug, Clone, Copy, PartialEq, Eq, Structural)]
pub enum RenewalFailure {
    /// Creating the ACME order.
    CreateOrder,
    /// Fetching the challenge certificate.
    ChallengeCertificate,
    /// Finishing the order to obtain the public certificate.
    PublicCertificate,
}

/// The work the renewal loop performs next.
#[derive(Debug, Clone, Copy, PartialEq, Eq, Structural)]
pub enum RenewalAction {
    /// Wait for the next tick.
    Wait,
    /// Create an ACME order for the domain.
    CreateOrder,
    /// Fetch the certificate for the order's TLS-ALPN-01 challenge.
    FetchChallenge,
    /// Serve the challenge certificate to ACME clients, then finish the order.
    ServeChallengeAndFinish,
    /// Cache the issued certificate and serve it as the default certificate, then wait for
    /// the next tick.
    CacheAndServe,
    /// Report the failed step, then wait for the next tick.
    Report(RenewalFailure),
}

/// The events the loop can receive in a state: a tick when idle, otherwise the outcome of the
/// work it is doing.
pub open spec fn expects(state: RenewalState, event: RenewalEvent) -> bool {
    match state {
        RenewalState::Idle => event is Tick,
        RenewalState::AwaitingOrder => event is OrderCreated || event is OrderFailed,
        RenewalState::AwaitingChallenge => event is ChallengeReady || event is ChallengeFailed,
        RenewalState::AwaitingCertificate => event is CertificateIssued || event is CertificateFailed,
    }
}

/// The renewal loop's transitions.
pub open spec fn transition(state: RenewalState, event: RenewalEvent) -> (RenewalState, RenewalAction) {
    match event {
        RenewalEvent::Tick { due } => if due {
            (RenewalState::AwaitingOrder, RenewalAction::CreateOrder)
        } else {
            (RenewalState::Idle, RenewalAction::Wait)
        },
        RenewalEvent::OrderCreated => (RenewalState::AwaitingChallenge, RenewalAction::FetchChallenge),
        RenewalEvent::OrderFailed => (
            RenewalState::Idle,
            RenewalAction::Report(RenewalFailure::CreateOrder),
        ),
        RenewalEvent::ChallengeReady => (
            RenewalState::AwaitingCertificate,
            RenewalAction::ServeChallengeAndFinish,
        ),
        RenewalEvent::ChallengeFailed => (
            RenewalState::Idle,
            RenewalAction::Report(RenewalFailure::ChallengeCertificate),
        ),
        RenewalEvent::CertificateIssued => (RenewalState::Idle, RenewalAction::CacheAndServe),
        RenewalEvent::CertificateFailed => (
            RenewalState::Idle,
            RenewalAction::Report(RenewalFailure::PublicCertificate),
        ),
    }
}

/// The next state of the renewal loop, and the work to perform, after `event`.
pub fn step(state: RenewalState, event: RenewalEvent) -> (next: (RenewalState, RenewalAction))
    ensures
        next == transition(state, event),
{
    match event {
        RenewalEvent::Tick { due } => {
            if due {
                (RenewalState::AwaitingOrder, RenewalAction::CreateOrder)
            } else {
                (RenewalState::Idle, RenewalAction::Wait)
            }
        },
        RenewalEvent::OrderCreated => (RenewalState::AwaitingChallenge, RenewalAction::FetchChallenge),
        RenewalEvent::OrderFailed => (
            RenewalState::Idle,
            RenewalAction::Report(RenewalFailure::CreateOrder),
        ),
        RenewalEvent::ChallengeReady => (
            RenewalState::AwaitingCertificate,
            RenewalAction::ServeChallengeAndFinish,
        ),
        RenewalEvent::ChallengeFailed => (
            RenewalState::Idle,
            RenewalAction::Report(RenewalFailure::ChallengeCertificate),
        ),
        RenewalEvent::CertificateIssued => (RenewalState::Idle, RenewalAction::CacheAndServe),
        RenewalEvent::CertificateFailed => (
            RenewalState::Idle,
            RenewalAction::Report(RenewalFailure::PublicCertificate),
        ),
    }
}

/// The loop's state and the actions it performed, after the events in order from `state`;
/// `None` when some event is not one the loop expects where it stands.
pub open spec fn run(state: RenewalState, events: Seq<RenewalEvent>) -> Option<
    (RenewalState, Seq<RenewalAction>),
>
    decreases events.len(),
{
    if events.len() == 0 {
        Some((state, seq![]))
    } else {
        match run(state, events.drop_last()) {
            Some((s, actions)) => if expects(s, events.last()) {
                let (next, action) = transition(s, events.last());
                Some((next, actions.push(action)))
            } else {
                None
            },
            None => None,
        }
    }
}

/// Every failed step sends the loop back to waiting for the next tick, reporting the step.
pub proof fn lemma_failures_return_to_idle(state: RenewalState, event: RenewalEvent)
    requires
        expects(state, event),
        event is OrderFailed || event is ChallengeFailed || event is CertificateFailed,
    ensures
        transition(state, event).0 == RenewalState::Idle,
        transition(state, event).1 is Report,
{
}

/// A tick with nothing due leaves the loop idle and doing nothing.
pub proof fn lemma_no_renewal_unless_due(state: RenewalState)
    requires
        expects(state, RenewalEvent::Tick { due: false }),
    ensures
        transition(state, RenewalEvent::Tick { due: false }) == (
            RenewalState::Idle,
            RenewalAction::Wait,
        ),
{
}

/// The actions of a run from an idle loop (empty when the run is refused).
pub open spec fn actions_from_idle(events: Seq<RenewalEvent>) -> Seq<RenewalAction> {
    match run(RenewalState::Idle, events) {
        Some((_, actions)) => actions,
        None => seq![],
    }
}

/// The state after a run from an idle loop (idle when the run is refused).
pub open spec fn state_from_idle(events: Seq<RenewalEvent>) -> RenewalState {
    match run(RenewalState::Idle, events) {
        Some((state, _)) => state,
        None => RenewalState::Idle,
    }
}

/// The invariant of a run from an idle loop: each waiting state is entered exactly by the
/// action that starts its work.
pub open spec fn run_invariant(state: RenewalState, actions: Seq<RenewalAction>) -> bool {
    &&& (state == RenewalState::AwaitingCertificate) == (actions.len() > 0 && actions.last()
        == RenewalAction::ServeChallengeAndFinish)
    &&& (state == RenewalState::AwaitingChallenge) == (actions.len() > 0 && actions.last()
        == RenewalAction::FetchChallenge)
    &&& (state == RenewalState::AwaitingOrder) == (actions.len() > 0 && actions.last()
        == RenewalAction::CreateOrder)
}

proof fn lemma_run_invariant(events: Seq<RenewalEvent>)
    requires
        run(RenewalState::Idle, events) is Some,
    ensures
        run_invariant(state_from_idle(events), actions_from_idle(events)),
        actions_from_idle(events).len() == events.len(),
    decreases events.len(),
{
    if events.len() > 0 {
        lemma_run_invariant(events.drop_last());
    }
}

/// In any run of the loop from idle, a new certificate is cached and served only right after
/// the challenge certificate of the same order was served and the order finished, and every
/// order is created only on a tick that found the certificate due.
pub proof fn lemma_certificate_served_after_challenge(events: Seq<RenewalEvent>, i: int)
    requires
        run(RenewalState::Idle, events) is Some,
        0 <= i < events.len(),
    ensures
        actions_from_idle(events)[i] == RenewalAction::CacheAndServe ==> {
            &&& i > 0
            &&& actions_from_idle(events)[i - 1] == RenewalAction::ServeChallengeAndFinish
            &&& events[i] == RenewalEvent::CertificateIssued
        },
        actions_from_idle(events)[i] == RenewalAction::CreateOrder ==> events[i]
            == (RenewalEvent::Tick { due: true }),
    decreases events.len(),
{
    lemma_run_invariant(events);
    let prefix = events.drop_last();
    lemma_run_invariant(prefix);
    if i < events.len() - 1 {
        lemma_certificate_served_after_challenge(prefix, i);
        assert(actions_from_idle(events)[i] == actions_from_idle(prefix)[i]);
        assert(events[i] == prefix[i]);
    }
}

} // verus!
