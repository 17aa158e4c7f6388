use bronze_magpie::access::AccessRecord;
use bronze_magpie::tls::{listen_address, listen_port, serves_acme_challenge};

#[test]
fn acme_alpn_selects_challenge_certificate() {
    assert!(!serves_acme_challenge(None));
    assert!(!serves_acme_challenge(Some(&vec![])));
    assert!(!serves_acme_challenge(Some(&vec![b"h2".to_vec(), b"http/1.1".to_vec()])));
    assert!(serves_acme_challenge(Some(&vec![b"acme-tls/1".to_vec()])));
    assert!(serves_acme_challenge(Some(&vec![b"h2".to_vec(), b"acme-tls/1".to_vec()])));
    assert!(!serves_acme_challenge(Some(&vec![b"acme-tls/2".to_vec()])));
    assert!(!serves_acme_challenge(Some(&vec![b"tls-alpn-01".to_vec()])));
}

#[test]
fn port_by_stage() {
    assert_eq!(listen_port(Some("DEV")), 3000);
    assert_eq!(listen_port(Some("PROD")), 443);
    assert_eq!(listen_port(Some("dev")), 443);
    assert_eq!(listen_port(None), 443);
}

#[test]
fn addresses() {
    assert_eq!(listen_address(443), "0.0.0.0:443");
    assert_eq!(listen_address(3000), "0.0.0.0:3000");
    assert_eq!(listen_address(0), "0.0.0.0:0");
    assert_eq!(listen_address(65535), "0.0.0.0:65535");
}

#[test]
fn access_records() {
    let known = AccessRecord::new(Some("peer".to_string()), Some("curl/8"), "/".to_string());
    assert_eq!(known.client_addr, "peer");
    assert_eq!(known.user_agent, "curl/8");
    assert_eq!(known.uri, "/");
    let unknown = AccessRecord::new(None, None, "/styles.css".to_string());
    assert_eq!(unknown.client_addr, "unknown");
    assert_eq!(unknown.user_agent, "UNKNOWN");
    assert_eq!(unknown.uri, "/styles.css");
}
