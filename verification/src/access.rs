//! The fields of an access-log line.

use vstd::prelude::*;
use vstd::string::StringExecFns;

verus! {

/// What the access log records of one request.
pub struct AccessRecord {
    /// The client's connection details, or `unknown` when the request carries none.
    pub client_addr: String,
    /// The `User-Agent` header's text, or `UNKNOWN` when the request carries none that reads
    /// as text.
    pub user_agent: String,
    /// The requested URI.
    pub uri: String,
}

/// The text of an optional field, or the fallback when it is absent.
pub open spec fn or_fallback(field: Option<Seq<char>>, fallback: Seq<char>) -> Seq<char> {
    match field {
        Some(text) => text,
        None => fallback,
    }
}

/// A field that is present is recorded as its whole text, unchanged, whatever its length;
/// the fallback stands only for an absent field.
pub proof fn lemma_fields_recorded_whole(text: Seq<char>, fallback: Seq<char>)
    ensures
        or_fallback(Some(text), fallback) == text,
        or_fallback(Some(text), fallback).len() == text.len(),
        or_fallback(None, fallback) == fallback,
{
}

impl AccessRecord {
    /// The record of a request: the connection details and the user agent when the request
    /// carries them, and the URI.
    pub fn new(connection: Option<String>, user_agent: Option<&str>, uri: String) -> (record:
        AccessRecord)
        ensures
            record.client_addr@ == or_fallback(
                match connection {
                    Some(c) => Some(c@),
                    None => None,
                },
                "unknown"@,
            ),
            record.user_agent@ == or_fallback(
                match user_agent {
                    Some(a) => Some(a@),
                    None => None,
                },
                "UNKNOWN"@,
            ),
            record.uri@ == uri@,
            connection matches Some(c) ==> record.client_addr@ == c@,
            connection is None ==> record.client_addr@ == "unknown"@,
            user_agent matches Some(a) ==> record.user_agent@ == a@,
            user_agent is None ==> record.user_agent@ == "UNKNOWN"@,
    {
        let client_addr = match connection {
            Some(c) => c,
            None => String::from_str("unknown"),
        };
        let user_agent = match user_agent {
            Some(a) => String::from_str(a),
            None => String::from_str("UNKNOWN"),
        };
        AccessRecord { client_addr, user_agent, uri }
    }
}

} // verus!
