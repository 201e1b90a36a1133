//! Plain-text rendering of the three result shapes.

use vstd::prelude::*;
use crate::response::{HashAllResponse, HashFieldResponse, RedisResponse};

verus! {

/// Text rendering of a failure: `ERROR: ` followed by the message, or
/// `ERROR: Unknown error` when no message is present.
pub open spec fn error_text(error: Option<String>) -> Seq<char> {
    match error {
        Option::Some(m) => "ERROR: "@ + m@,
        Option::None => "ERROR: Unknown error"@,
    }
}

/// Text rendering of a successful scalar payload: the value itself, or
/// `OK` when the payload is absent.
pub open spec fn payload_text(payload: Option<String>) -> Seq<char> {
    match payload {
        Option::Some(v) => v@,
        Option::None => "OK"@,
    }
}

/// One `key: value` line of a hash listing.
pub open spec fn field_line(kv: (String, String)) -> Seq<char> {
    kv.0@ + ": "@ + kv.1@
}

/// The `key: value` lines of a hash listing, joined by single newlines,
/// with no trailing newline.
pub open spec fn joined_lines(fields: Seq<(String, String)>) -> Seq<char>
    decreases fields.len(),
{
    if fields.len() == 0 {
        Seq::empty()
    } else if fields.len() == 1 {
        field_line(fields[0])
    } else {
        joined_lines(fields.drop_last()) + "\n"@ + field_line(fields.last())
    }
}

/// Text rendering of a scalar-read result.
pub open spec fn text_of_redis_response(r: RedisResponse) -> Seq<char> {
    if r.success {
        payload_text(r.result)
    } else {
        error_text(r.error)
    }
}

/// Text rendering of a hash-field-read result.
pub open spec fn text_of_hash_field_response(r: HashFieldResponse) -> Seq<char> {
    if r.success {
        payload_text(r.value)
    } else {
        error_text(r.error)
    }
}

/// Text rendering of a full hash read: the joined `key: value` lines on
/// success (`OK` when the listing is absent or empty), an error line on
/// failure.
pub open spec fn text_of_hash_all(r: HashAllResponse) -> Seq<char> {
    if r.success {
        match r.fields {
            Option::Some(f) => if f@.len() == 0 {
                "OK"@
            } else {
                joined_lines(f@)
            },
            Option::None => "OK"@,
        }
    } else {
        error_text(r.error)
    }
}

fn render_error(error: &Option<String>) -> (r: String)
    ensures
        r@ == error_text(*error),
{
    match error {
        Some(e) => {
            let mut s = String::from_str("ERROR: ");
            s.append(e.as_str());
            s
        },
        None => String::from_str("ERROR: Unknown error"),
    }
}

/// Render a scalar-read result as plain text. On success this is the
/// value itself, or `OK` for an absent key — never an error; on failure
/// it is `ERROR: ` plus the message, or `ERROR: Unknown error` when the
/// failure carries none.
pub fn format_redis_response_text(response: &RedisResponse) -> (r: String)
    ensures
        r@ == text_of_redis_response(*response),
        response.success ==> r@ == payload_text(response.result),
        !response.success ==> r@ == error_text(response.error),
        response.success && response.result is None ==> r@ == "OK"@,
        !response.success ==> (response.error matches Some(m) ==> r@ == "ERROR: "@ + m@),
        !response.success && response.error is None ==> r@ == "ERROR: Unknown error"@,
{
    if response.success {
        match &response.result {
            Some(v) => v.clone(),
            None => String::from_str("OK"),
        }
    } else {
        render_error(&response.error)
    }
}

/// Render a hash-field-read result as plain text; the cases are those of
/// [`format_redis_response_text`].
pub fn format_hash_field_response_text(response: &HashFieldResponse) -> (r: String)
    ensures
        r@ == text_of_hash_field_response(*response),
        response.success ==> r@ == payload_text(response.value),
        !response.success ==> r@ == error_text(response.error),
        response.success && response.value is None ==> r@ == "OK"@,
        !response.success ==> (response.error matches Some(m) ==> r@ == "ERROR: "@ + m@),
        !response.success && response.error is None ==> r@ == "ERROR: Unknown error"@,
{
    if response.success {
        match &response.value {
            Some(v) => v.clone(),
            None => String::from_str("OK"),
        }
    } else {
        render_error(&response.error)
    }
}

/// Render a full-hash-read result as plain text: `key: value` lines
/// joined by newlines. An absent and an empty listing both render as
/// `OK`; failures render as in [`format_redis_response_text`].
pub fn format_hash_all_response_text(response: &HashAllResponse) -> (r: String)
    ensures
        r@ == text_of_hash_all(*response),
        !response.success ==> (response.error matches Some(m) ==> r@ == "ERROR: "@ + m@),
        !response.success && response.error is None ==> r@ == "ERROR: Unknown error"@,
{
    if response.success {
        match &response.fields {
            Some(fields) => {
                if fields.len() == 0 {
                    String::from_str("OK")
                } else {
                    let mut out = String::new();
                    let mut i: usize = 0;
                    while i < fields.len()
                        invariant
                            i <= fields@.len(),
                            out@ == joined_lines(fields@.take(i as int)),
                        decreases fields@.len() - i,
                    {
                        if i > 0 {
                            out.append("\n");
                        }
                        let kv = &fields[i];
                        out.append(kv.0.as_str());
                        out.append(": ");
                        out.append(kv.1.as_str());
                        proof {
                            let taken = fields@.take(i + 1);
                            assert(taken.drop_last() =~= fields@.take(i as int));
                            assert(taken.last() == fields@[i as int]);
                            if i == 0 {
                                assert(out@ == field_line(fields@[0]));
                            }
                        }
                        i = i + 1;
                    }
                    proof {
                        assert(fields@.take(fields@.len() as int) =~= fields@);
                    }
                    out
                }
            },
            None => String::from_str("OK"),
        }
    } else {
        render_error(&response.error)
    }
}

} // verus!
