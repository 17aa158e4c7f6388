use bronze_magpie::cert::CertContainer;
use bronze_magpie::keys::LeafSummary;
use bronze_magpie::renewal::{
    check_leaf, leaf_renewal_due, renewal_due, step, LeafError, RenewalAction, RenewalEvent,
    RenewalFailure, RenewalState,
};

const DAY: i128 = 86_400 * 1_000_000_000;

#[test]
fn renewal_within_two_days() {
    let now = 1_700_000_000 * 1_000_000_000;
    assert!(!renewal_due(false, now + 3 * DAY, now));
    assert!(!renewal_due(false, now + 2 * DAY, now));
    assert!(renewal_due(false, now + 2 * DAY - 1, now));
    assert!(renewal_due(false, now + DAY, now));
    assert!(renewal_due(false, now, now));
    assert!(renewal_due(false, now - DAY, now));
    assert!(renewal_due(true, now + 365 * DAY, now));
}

fn leaf(issuer: &[u8], subject: &[u8], trailing: usize, not_after: i128) -> LeafSummary {
    LeafSummary { trailing, issuer: issuer.to_vec(), subject: subject.to_vec(), not_after }
}

#[test]
fn leaf_decisions() {
    let now = 0;
    assert_eq!(leaf_renewal_due(&leaf(b"ca", b"site", 0, 30 * DAY), now), Ok(false));
    assert_eq!(leaf_renewal_due(&leaf(b"ca", b"site", 0, DAY), now), Ok(true));
    assert_eq!(leaf_renewal_due(&leaf(b"site", b"site", 0, 30 * DAY), now), Ok(true));
    assert_eq!(
        leaf_renewal_due(&leaf(b"ca", b"site", 1, 30 * DAY), now),
        Err(LeafError::TrailingData)
    );
}

fn leaf_der() -> Vec<u8> {
    let cert = CertContainer::self_signed().unwrap().pem;
    let mut reader = std::io::Cursor::new(cert.cert_chain_pem.as_bytes());
    let der = rustls_pemfile::certs(&mut reader).next().unwrap().unwrap();
    der.to_vec()
}

#[test]
fn self_signed_certificate_is_due() {
    let der = leaf_der();
    assert_eq!(check_leaf(&der, 1_700_000_000 * 1_000_000_000), Ok(true));
}

#[test]
fn unparsable_or_padded_certificates() {
    assert_eq!(check_leaf(b"not a certificate", 0), Err(LeafError::Unparsable));
    let mut der = leaf_der();
    der.push(0);
    assert_eq!(check_leaf(&der, 0), Err(LeafError::TrailingData));
}

#[test]
fn successful_renewal_round() {
    let (s, a) = step(RenewalState::Idle, RenewalEvent::Tick { due: true });
    assert_eq!((s, a), (RenewalState::AwaitingOrder, RenewalAction::CreateOrder));
    let (s, a) = step(s, RenewalEvent::OrderCreated);
    assert_eq!((s, a), (RenewalState::AwaitingChallenge, RenewalAction::FetchChallenge));
    let (s, a) = step(s, RenewalEvent::ChallengeReady);
    assert_eq!(
        (s, a),
        (RenewalState::AwaitingCertificate, RenewalAction::ServeChallengeAndFinish)
    );
    let (s, a) = step(s, RenewalEvent::CertificateIssued);
    assert_eq!((s, a), (RenewalState::Idle, RenewalAction::CacheAndServe));
}

#[test]
fn idle_tick_waits() {
    assert_eq!(
        step(RenewalState::Idle, RenewalEvent::Tick { due: false }),
        (RenewalState::Idle, RenewalAction::Wait)
    );
}

#[test]
fn failures_report_and_wait() {
    assert_eq!(
        step(RenewalState::AwaitingOrder, RenewalEvent::OrderFailed),
        (RenewalState::Idle, RenewalAction::Report(RenewalFailure::CreateOrder))
    );
    assert_eq!(
        step(RenewalState::AwaitingChallenge, RenewalEvent::ChallengeFailed),
        (RenewalState::Idle, RenewalAction::Report(RenewalFailure::ChallengeCertificate))
    );
    assert_eq!(
        step(RenewalState::AwaitingCertificate, RenewalEvent::CertificateFailed),
        (RenewalState::Idle, RenewalAction::Report(RenewalFailure::PublicCertificate))
    );
}

#[test]
fn events_follow_the_transition_table_in_any_state() {
    assert_eq!(
        step(RenewalState::Idle, RenewalEvent::OrderCreated),
        (RenewalState::AwaitingChallenge, RenewalAction::FetchChallenge)
    );
    assert_eq!(
        step(RenewalState::AwaitingCertificate, RenewalEvent::Tick { due: false }),
        (RenewalState::Idle, RenewalAction::Wait)
    );
}
