//! The authentication gate and the credential validator's pure parts.
//!
//! The auth gate extracts Basic-auth credentials from an `Authorization`
//! header; the validator probes the backend by opening a fresh
//! connection with those credentials (the connection attempt itself is
//! outside work — its outcome is handed to [`classify_probe`]).

use vstd::prelude::*;
use vstd::utf8::{decode_utf8, valid_utf8};
use crate::strutil::{contains_seq, has_prefix, str_contains, str_has_prefix};

verus! {

/// What the standard-alphabet, padded base64 decoding yields on the
/// given text: the decoded bytes, or nothing when the text is not valid
/// base64.
pub uninterp spec fn base64_standard_decoded(s: Seq<char>) -> Option<Seq<u8>>;

/// Relies on base64's `Engine::decode` with the `STANDARD` engine
/// (standard alphabet, padded): success and result are a function of the
/// input characters alone.
#[verifier::external_body]
fn base64_decode(s: &str) -> (r: Option<Vec<u8>>)
    ensures
        r is Some <==> base64_standard_decoded(s@) is Some,
        (r matches Some(v) ==> base64_standard_decoded(s@) == Some(v@)),
{
    match base64::Engine::decode(&base64::engine::general_purpose::STANDARD, s) {
        Ok(v) => Some(v),
        Err(_) => None,
    }
}

/// Relies on `String::from_utf8`: it succeeds exactly on valid UTF-8 and
/// yields its decoding, as `vstd`'s UTF-8 model states.
#[verifier::external_body]
fn bytes_to_string(v: Vec<u8>) -> (r: Option<String>)
    ensures
        r is Some <==> valid_utf8(v@),
        (r matches Some(s) ==> s@ == decode_utf8(v@)),
{
    match String::from_utf8(v) {
        Ok(s) => Some(s),
        Err(_) => None,
    }
}

/// The text carried by a well-formed `Basic` authorization header: the
/// base64 payload after the scheme, decoded, read as UTF-8. `None` when
/// the scheme, the base64 or the UTF-8 is wrong.
pub open spec fn basic_decoded_text(h: Seq<char>) -> Option<Seq<char>> {
    if !has_prefix(h, "Basic "@) {
        Option::None
    } else {
        match base64_standard_decoded(h.skip(6)) {
            Option::None => Option::None,
            Option::Some(bytes) => if valid_utf8(bytes) {
                Option::Some(decode_utf8(bytes))
            } else {
                Option::None
            },
        }
    }
}

/// The text contains a `:` separator.
pub open spec fn has_colon(t: Seq<char>) -> bool {
    exists|i: int| 0 <= i < t.len() && t[i] == ':'
}

/// `u` and `p` are the parts of `t` before and after its first `:`.
pub open spec fn splits_at_first_colon(t: Seq<char>, u: Seq<char>, p: Seq<char>) -> bool {
    exists|i: int|
        0 <= i < t.len() && t[i] == ':' && (forall|k: int| 0 <= k < i ==> t[k] != ':') && u
            == t.take(i) && p == t.skip(i + 1)
}

/// Extract the Basic-auth credential pair from an `Authorization`
/// header: the decoded payload split at its first `:` into username and
/// password. Every malformed case — absent header, wrong scheme, bad
/// base64, bad UTF-8, no separator — yields `None`; in particular an
/// absent header is rejected before any decoding or backend work.
pub fn authorization_credentials(header: &Option<String>) -> (r: Option<(String, String)>)
    ensures
        header is None ==> r is None,
        (header matches Some(h) ==> (basic_decoded_text(h@) is None ==> r is None)),
        (header matches Some(h) ==> (basic_decoded_text(h@) matches Some(t) ==> (r is Some
            <==> has_colon(t)))),
        (header matches Some(h) ==> (basic_decoded_text(h@) matches Some(t) ==> (r matches Some(up)
            ==> splits_at_first_colon(t, up.0@, up.1@)))),
{
    let h = match header {
        Some(h) => h,
        None => {
            return None;
        },
    };
    if !str_has_prefix(h.as_str(), "Basic ") {
        return None;
    }
    proof {
        reveal_strlit("Basic ");
        assert(h@.len() >= 6);
    }
    let payload = h.as_str().substring_char(6, h.as_str().unicode_len());
    proof {
        assert(payload@ =~= h@.skip(6));
    }
    let bytes = match base64_decode(payload) {
        Some(b) => b,
        None => {
            return None;
        },
    };
    let text = match bytes_to_string(bytes) {
        Some(t) => t,
        None => {
            return None;
        },
    };
    proof {
        assert(basic_decoded_text(h@) == Option::Some(text@));
    }
    let n = text.as_str().unicode_len();
    let mut i: usize = 0;
    #[verifier::loop_isolation(false)]
    while i < n
        invariant
            n == text@.len(),
            i <= n,
            forall|k: int| 0 <= k < i ==> text@[k] != ':',
        decreases n - i,
    {
        if text.as_str().get_char(i) == ':' {
            let username = String::from_str(text.as_str().substring_char(0, i));
            let password = String::from_str(text.as_str().substring_char(i + 1, n));
            proof {
                let t = text@;
                assert(username@ =~= t.take(i as int));
                assert(password@ =~= t.skip(i + 1));
                assert(0 <= i < t.len() && t[i as int] == ':' && (forall|k: int|
                    0 <= k < i ==> t[k] != ':') && username@ == t.take(i as int) && password@
                    == t.skip(i + 1));
                assert(has_colon(t));
                assert(splits_at_first_colon(t, username@, password@));
            }
            return Some((username, password));
        }
        i = i + 1;
    }
    None
}

/// Outcome of a credential probe: the connection was established, it was
/// refused for bad credentials, or the attempt failed for another
/// reason.
#[derive(Debug)]
pub enum ProbeOutcome {
    Allowed,
    Denied,
    Failed(String),
}

/// A connection-attempt error that marks bad credentials rather than an
/// operational failure: the backend's `NOAUTH` or `WRONGPASS` replies.
pub open spec fn denied_marker(m: Seq<char>) -> bool {
    contains_seq(m, "NOAUTH"@) || contains_seq(m, "WRONGPASS"@)
}

/// Classify the outcome of a fresh connection attempt made with the
/// caller's credentials: success allows; an error naming the backend's
/// bad-credential markers denies; any other error is an operational
/// failure, reported with its message.
pub fn classify_probe(result: Result<(), String>) -> (r: ProbeOutcome)
    ensures
        result is Ok ==> r is Allowed,
        (result matches Err(m) ==> {
            if denied_marker(m@) {
                r is Denied
            } else {
                r matches ProbeOutcome::Failed(f) && f@ == "Redis connection error: "@ + m@
            }
        }),
{
    match result {
        Ok(_) => ProbeOutcome::Allowed,
        Err(m) => {
            if str_contains(m.as_str(), "NOAUTH") || str_contains(m.as_str(), "WRONGPASS") {
                ProbeOutcome::Denied
            } else {
                let mut f = String::from_str("Redis connection error: ");
                f.append(m.as_str());
                ProbeOutcome::Failed(f)
            }
        },
    }
}

/// The validator's outcome when no backend connection factory has been
/// initialized: no probe is attempted.
pub fn backend_missing_outcome() -> (r: ProbeOutcome)
    ensures
        r matches ProbeOutcome::Failed(m) && m@ == "Redis client not initialized"@,
{
    ProbeOutcome::Failed(String::from_str("Redis client not initialized"))
}

/// The auth gate admits a request exactly when the probe allowed it: a denial
/// and an operational failure are rejected alike.
pub fn gate_admits(outcome: &ProbeOutcome) -> (r: bool)
    ensures
        r == (outcome is Allowed),
{
    match outcome {
        ProbeOutcome::Allowed => true,
        ProbeOutcome::Denied => false,
        ProbeOutcome::Failed(_) => false,
    }
}

/// The connection URL the probe uses: the supplied credentials against
/// the fixed local backend address.
pub fn build_probe_url(username: &Option<String>, password: &str) -> (r: String)
    ensures
        (username matches Some(u) ==> r@ == "redis://"@ + u@ + ":"@ + password@
            + "@127.0.0.1:6379/0"@),
        username is None ==> r@ == "redis://:"@ + password@ + "@127.0.0.1:6379/0"@,
{
    let mut url = String::from_str("redis://");
    if let Some(u) = username {
        url.append(u.as_str());
    }
    url.append(":");
    url.append(password);
    url.append("@127.0.0.1:6379/0");
    proof {
        if username is Some {
            assert(url@ =~= "redis://"@ + username->0@ + ":"@ + password@ + "@127.0.0.1:6379/0"@);
        } else {
            reveal_strlit("redis://");
            reveal_strlit(":");
            reveal_strlit("redis://:");
            assert(url@ =~= "redis://:"@ + password@ + "@127.0.0.1:6379/0"@);
        }
    }
    url
}

} // verus!
