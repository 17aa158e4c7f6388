//! Decisions of the TLS front end: which certificate answers a client hello, and where the
//! server listens.

use vstd::prelude::*;
use vstd::string::{StringExecFns, StringSliceAdditionalSpecFns};
use crate::text::{bytes_equal, str_equal};

verus! {

/// The ALPN protocol identifier of the ACME TLS-ALPN-01 challenge, `acme-tls/1` (RFC 8737,
/// section 6.2).
pub const ACME_ALPN: &'static str = "acme-tls/1";

/// The bytes of the ACME challenge's ALPN identifier.
pub open spec fn acme_alpn_bytes() -> Seq<u8> {
    ACME_ALPN.spec_bytes()
}

/// The client offers the ACME challenge protocol among its ALPN protocols.
pub open spec fn offers_acme_alpn(alpn: Option<Seq<Seq<u8>>>) -> bool {
    match alpn {
        Some(protocols) => exists|i: int|
            #![trigger protocols[i]]
            0 <= i < protocols.len() && protocols[i] =~= acme_alpn_bytes(),
        None => false,
    }
}

/// A client that offers the ACME protocol at any position of its ALPN list is answered with
/// the challenge certificate.
pub proof fn lemma_acme_offered_anywhere(protocols: Seq<Seq<u8>>, i: int)
    requires
        0 <= i < protocols.len(),
        protocols[i] == acme_alpn_bytes(),
    ensures
        offers_acme_alpn(Some(protocols)),
{
    let alpn = Some(protocols);
    assert(alpn matches Some(p) && p == protocols);
    assert(0 <= i < protocols.len() && protocols[i] =~= acme_alpn_bytes());
    assert(offers_acme_alpn(alpn));
}

/// A client whose ALPN list holds no ACME protocol, or that sends no list, gets the default
/// certificate.
pub proof fn lemma_acme_not_offered(protocols: Seq<Seq<u8>>)
    requires
        forall|i: int| 0 <= i < protocols.len() ==> protocols[i] != acme_alpn_bytes(),
    ensures
        !offers_acme_alpn(Some(protocols)),
        !offers_acme_alpn(None),
{
}

/// The order of the offered protocols does not matter: swapping two parts of the list keeps
/// the answer.
pub proof fn lemma_acme_order_irrelevant(front: Seq<Seq<u8>>, back: Seq<Seq<u8>>)
    ensures
        offers_acme_alpn(Some(front + back)) == offers_acme_alpn(Some(back + front)),
{
    if offers_acme_alpn(Some(front + back)) {
        let i = choose|i: int| 0 <= i < (front + back).len() && (front + back)[i] == acme_alpn_bytes();
        if i < front.len() {
            lemma_acme_offered_anywhere(back + front, back.len() + i);
        } else {
            lemma_acme_offered_anywhere(back + front, i - front.len());
        }
    }
    if offers_acme_alpn(Some(back + front)) {
        let i = choose|i: int| 0 <= i < (back + front).len() && (back + front)[i] == acme_alpn_bytes();
        if i < back.len() {
            lemma_acme_offered_anywhere(front + back, front.len() + i);
        } else {
            lemma_acme_offered_anywhere(front + back, i - back.len());
        }
    }
}

/// The ACME protocol identifier is the ten bytes of `acme-tls/1`.
pub proof fn lemma_acme_alpn_bytes()
    ensures
        acme_alpn_bytes() == seq![0x61u8, 0x63, 0x6d, 0x65, 0x2d, 0x74, 0x6c, 0x73, 0x2f, 0x31],
{
    reveal_strlit("acme-tls/1");
    assert(vstd::string::is_ascii(ACME_ALPN));
    vstd::string::is_ascii_spec_bytes(ACME_ALPN);
    assert(acme_alpn_bytes() =~= seq![0x61u8, 0x63, 0x6d, 0x65, 0x2d, 0x74, 0x6c, 0x73, 0x2f, 0x31]);
}

/// The protocols of an optional ALPN list, as byte strings.
pub open spec fn alpn_view(alpn: Option<&Vec<Vec<u8>>>) -> Option<Seq<Seq<u8>>> {
    match alpn {
        Some(protocols) => Some(protocols@.map_values(|p: Vec<u8>| p@)),
        None => None,
    }
}

/// Whether a client hello asks for the ACME challenge certificate: its ALPN list (absent when
/// the client sent none) holds the `acme-tls/1` protocol. Such clients get the challenge
/// certificate; all others get the default certificate.
pub fn serves_acme_challenge(alpn: Option<&Vec<Vec<u8>>>) -> (acme: bool)
    ensures
        acme == offers_acme_alpn(alpn_view(alpn)),
{
    match alpn {
        Some(protocols) => {
            let acme = ACME_ALPN.as_bytes();
            let mut i: usize = 0;
            while i < protocols.len()
                invariant
                    i <= protocols@.len(),
                    acme@ == acme_alpn_bytes(),
                    alpn_view(alpn) == Some(protocols@.map_values(|p: Vec<u8>| p@)),
                    forall|j: int| 0 <= j < i ==> protocols@[j]@ != acme_alpn_bytes(),
                decreases protocols.len() - i,
            {
                if bytes_equal(protocols[i].as_slice(), acme) {
                    assert(alpn_view(alpn)->0[i as int] == acme_alpn_bytes());
                    return true;
                }
                i = i + 1;
            }
            assert(!offers_acme_alpn(alpn_view(alpn))) by {
                let view = alpn_view(alpn)->0;
                assert forall|j: int| 0 <= j < view.len() implies view[j] != acme_alpn_bytes() by {
                    assert(view[j] == protocols@[j]@);
                }
            }
            false
        },
        None => false,
    }
}

/// The port for a deployment stage: 3000 for `DEV`, 443 otherwise (also when no stage is set).
pub open spec fn listen_port_spec(stage: Option<Seq<char>>) -> u16 {
    if stage == Some("DEV"@) {
        3000
    } else {
        443
    }
}

/// The port to listen on, given the `STAGE` setting when it is set.
pub fn listen_port(stage: Option<&str>) -> (port: u16)
    ensures
        port == listen_port_spec(
            match stage {
                Some(s) => Some(s@),
                None => None,
            },
        ),
{
    let is_dev = match stage {
        Some(s) => str_equal(s, "DEV"),
        None => false,
    };
    if is_dev {
        3000
    } else {
        443
    }
}

/// The decimal digit for a value below ten.
pub open spec fn digit_char(d: nat) -> char {
    if d == 0 {
        '0'
    } else if d == 1 {
        '1'
    } else if d == 2 {
        '2'
    } else if d == 3 {
        '3'
    } else if d == 4 {
        '4'
    } else if d == 5 {
        '5'
    } else if d == 6 {
        '6'
    } else if d == 7 {
        '7'
    } else if d == 8 {
        '8'
    } else {
        '9'
    }
}

/// The decimal notation of a number, without leading zeros.
pub open spec fn decimal(n: nat) -> Seq<char>
    decreases n,
{
    if n < 10 {
        seq![digit_char(n)]
    } else {
        decimal(n / 10) + seq![digit_char(n % 10)]
    }
}

fn digit_str(d: u16) -> (digit: &'static str)
    requires
        d < 10,
    ensures
        digit@ == seq![digit_char(d as nat)],
{
    proof {
        reveal_strlit("0");
        reveal_strlit("1");
        reveal_strlit("2");
        reveal_strlit("3");
        reveal_strlit("4");
        reveal_strlit("5");
        reveal_strlit("6");
        reveal_strlit("7");
        reveal_strlit("8");
        reveal_strlit("9");
    }
    if d == 0 {
        "0"
    } else if d == 1 {
        "1"
    } else if d == 2 {
        "2"
    } else if d == 3 {
        "3"
    } else if d == 4 {
        "4"
    } else if d == 5 {
        "5"
    } else if d == 6 {
        "6"
    } else if d == 7 {
        "7"
    } else if d == 8 {
        "8"
    } else {
        "9"
    }
}

fn push_decimal(text: &mut String, n: u16)
    ensures
        final(text)@ == old(text)@ + decimal(n as nat),
    decreases n,
{
    if n >= 10 {
        push_decimal(text, n / 10);
    }
    text.append(digit_str(n % 10));
    assert(final(text)@ =~= old(text)@ + decimal(n as nat));
}

/// The address to listen on: every interface, at the given port.
pub fn listen_address(port: u16) -> (address: String)
    ensures
        address@ == "0.0.0.0:"@ + decimal(port as nat),
{
    let mut address = String::from_str("0.0.0.0:");
    push_decimal(&mut address, port);
    address
}

} // verus!
