//! JSON rendering of the three result shapes and of outbound-call
//! results, matching the canonical compact object serialization: keys in
//! declaration order, absent optional fields rendered as `null`, strings
//! escaped with `\"`, `\\`, `\b`, `\t`, `\n`, `\f`, `\r`, and `\u00XX`
//! for the remaining control characters.

use vstd::prelude::*;
use crate::response::{HashAllResponse, HashFieldResponse, RedisResponse};

verus! {

/// The lowercase hexadecimal digit for `n` (`n < 16`).
pub open spec fn hex_digit(n: u32) -> char
    recommends
        n < 16,
{
    "0123456789abcdef"@[n as int]
}

/// The JSON escape of one character inside a string literal.
pub open spec fn json_escaped_char(c: char) -> Seq<char> {
    if c == '"' {
        seq!['\\', '"']
    } else if c == '\\' {
        seq!['\\', '\\']
    } else if c == '\u{8}' {
        seq!['\\', 'b']
    } else if c == '\t' {
        seq!['\\', 't']
    } else if c == '\n' {
        seq!['\\', 'n']
    } else if c == '\u{c}' {
        seq!['\\', 'f']
    } else if c == '\r' {
        seq!['\\', 'r']
    } else if (c as u32) < 0x20 {
        seq!['\\', 'u', '0', '0', hex_digit((c as u32) >> 4), hex_digit((c as u32) & 0xf)]
    } else {
        seq![c]
    }
}

/// The JSON escape of a whole string.
pub open spec fn json_escaped(s: Seq<char>) -> Seq<char>
    decreases s.len(),
{
    if s.len() == 0 {
        Seq::empty()
    } else {
        json_escaped(s.drop_last()) + json_escaped_char(s.last())
    }
}

/// A JSON string literal: the escaped text in double quotes.
pub open spec fn json_quoted(s: Seq<char>) -> Seq<char> {
    "\""@ + json_escaped(s) + "\""@
}

/// An optional string: a JSON string literal, or `null` when absent.
pub open spec fn json_opt_string(v: Option<String>) -> Seq<char> {
    match v {
        Option::Some(s) => json_quoted(s@),
        Option::None => "null"@,
    }
}

/// A JSON boolean.
pub open spec fn json_bool(b: bool) -> Seq<char> {
    if b {
        "true"@
    } else {
        "false"@
    }
}

/// One `"key":"value"` member of a JSON object.
pub open spec fn json_member(kv: (String, String)) -> Seq<char> {
    json_quoted(kv.0@) + ":"@ + json_quoted(kv.1@)
}

/// The members of a JSON object, joined by commas.
pub open spec fn json_members(fields: Seq<(String, String)>) -> Seq<char>
    decreases fields.len(),
{
    if fields.len() == 0 {
        Seq::empty()
    } else if fields.len() == 1 {
        json_member(fields[0])
    } else {
        json_members(fields.drop_last()) + ","@ + json_member(fields.last())
    }
}

/// A string-to-string object: `{...}` over the members, or `null` when
/// the mapping is absent. A present empty mapping renders as `{}`.
pub open spec fn json_string_map(v: Option<Vec<(String, String)>>) -> Seq<char> {
    match v {
        Option::Some(f) => "{"@ + json_members(f@) + "}"@,
        Option::None => "null"@,
    }
}

/// The JSON object for a scalar-read result.
pub open spec fn json_of_redis_response(r: RedisResponse) -> Seq<char> {
    "{\"success\":"@ + json_bool(r.success) + ",\"result\":"@ + json_opt_string(r.result)
        + ",\"error\":"@ + json_opt_string(r.error) + "}"@
}

/// The JSON object for a hash-field-read result.
pub open spec fn json_of_hash_field_response(r: HashFieldResponse) -> Seq<char> {
    "{\"success\":"@ + json_bool(r.success) + ",\"value\":"@ + json_opt_string(r.value)
        + ",\"error\":"@ + json_opt_string(r.error) + "}"@
}

/// The JSON object for a full-hash-read result.
pub open spec fn json_of_hash_all_response(r: HashAllResponse) -> Seq<char> {
    "{\"success\":"@ + json_bool(r.success) + ",\"fields\":"@ + json_string_map(r.fields)
        + ",\"error\":"@ + json_opt_string(r.error) + "}"@
}

/// The decimal digits of `n`, most significant first, no leading zeros
/// (a single `0` for zero).
pub open spec fn dec_digits(n: nat) -> Seq<char>
    decreases n,
{
    if n < 10 {
        seq![hex_digit(n as u32)]
    } else {
        dec_digits(n / 10) + seq![hex_digit((n % 10) as u32)]
    }
}

fn push_hex_digit(out: &mut String, n: u32)
    requires
        n < 16,
    ensures
        final(out)@ == old(out)@ + seq![hex_digit(n)],
{
    let digits = "0123456789abcdef";
    proof {
        reveal_strlit("0123456789abcdef");
    }
    let d = digits.substring_ascii(n as usize, n as usize + 1);
    out.append(d);
    proof {
        assert(d@ =~= seq![hex_digit(n)]);
    }
}

fn append_json_escaped(out: &mut String, s: &str)
    ensures
        final(out)@ == old(out)@ + json_escaped(s@),
{
    let n = s.unicode_len();
    let mut i: usize = 0;
    proof {
        assert(s@.take(0) =~= Seq::<char>::empty());
        assert(out@ =~= old(out)@ + json_escaped(s@.take(0)));
    }
    while i < n
        invariant
            n == s@.len(),
            i <= n,
            out@ == old(out)@ + json_escaped(s@.take(i as int)),
        decreases n - i,
    {
        let c = s.get_char(i);
        if c == '"' {
            out.append("\\\"");
            proof {
                reveal_strlit("\\\"");
                assert("\\\""@ =~= json_escaped_char(c));
            }
        } else if c == '\\' {
            out.append("\\\\");
            proof {
                reveal_strlit("\\\\");
                assert("\\\\"@ =~= json_escaped_char(c));
            }
        } else if c == '\u{8}' {
            out.append("\\b");
            proof {
                reveal_strlit("\\b");
                assert("\\b"@ =~= json_escaped_char(c));
            }
        } else if c == '\t' {
            out.append("\\t");
            proof {
                reveal_strlit("\\t");
                assert("\\t"@ =~= json_escaped_char(c));
            }
        } else if c == '\n' {
            out.append("\\n");
            proof {
                reveal_strlit("\\n");
                assert("\\n"@ =~= json_escaped_char(c));
            }
        } else if c == '\u{c}' {
            out.append("\\f");
            proof {
                reveal_strlit("\\f");
                assert("\\f"@ =~= json_escaped_char(c));
            }
        } else if c == '\r' {
            out.append("\\r");
            proof {
                reveal_strlit("\\r");
                assert("\\r"@ =~= json_escaped_char(c));
            }
        } else if (c as u32) < 0x20 {
            let code: u32 = c as u32;
            proof {
                assert(code >> 4 < 16 && code & 0xf < 16) by (bit_vector)
                    requires
                        code < 0x20,
                ;
            }
            out.append("\\u00");
            push_hex_digit(out, code >> 4);
            push_hex_digit(out, code & 0xf);
            proof {
                reveal_strlit("\\u00");
                assert("\\u00"@ + seq![hex_digit(code >> 4)] + seq![hex_digit(code & 0xf)]
                    =~= json_escaped_char(c));
            }
        } else {
            let one = s.substring_char(i, i + 1);
            out.append(one);
            proof {
                assert(one@ =~= seq![c]);
                assert(seq![c] =~= json_escaped_char(c));
            }
        }
        proof {
            let taken = s@.take(i + 1);
            assert(taken.drop_last() =~= s@.take(i as int));
            assert(taken.last() == s@[i as int]);
            assert(out@ =~= old(out)@ + json_escaped(taken));
        }
        i = i + 1;
    }
    proof {
        assert(s@.take(n as int) =~= s@);
    }
}

pub(crate) fn append_json_quoted(out: &mut String, s: &str)
    ensures
        final(out)@ == old(out)@ + json_quoted(s@),
{
    out.append("\"");
    append_json_escaped(out, s);
    out.append("\"");
    proof {
        assert(out@ =~= old(out)@ + json_quoted(s@));
    }
}

fn append_json_opt_string(out: &mut String, v: &Option<String>)
    ensures
        final(out)@ == old(out)@ + json_opt_string(*v),
{
    match v {
        Some(s) => append_json_quoted(out, s.as_str()),
        None => out.append("null"),
    }
}

fn append_json_bool(out: &mut String, b: bool)
    ensures
        final(out)@ == old(out)@ + json_bool(b),
{
    if b {
        out.append("true");
    } else {
        out.append("false");
    }
}

pub(crate) fn append_json_members(out: &mut String, fields: &Vec<(String, String)>)
    ensures
        final(out)@ == old(out)@ + json_members(fields@),
{
    let mut i: usize = 0;
    proof {
        assert(fields@.take(0) =~= Seq::<(String, String)>::empty());
        assert(out@ =~= old(out)@ + json_members(fields@.take(0)));
    }
    while i < fields.len()
        invariant
            i <= fields@.len(),
            out@ == old(out)@ + json_members(fields@.take(i as int)),
        decreases fields@.len() - i,
    {
        if i > 0 {
            out.append(",");
        }
        let kv = &fields[i];
        append_json_quoted(out, kv.0.as_str());
        out.append(":");
        append_json_quoted(out, kv.1.as_str());
        proof {
            let taken = fields@.take(i + 1);
            assert(taken.drop_last() =~= fields@.take(i as int));
            assert(taken.last() == fields@[i as int]);
            assert(out@ =~= old(out)@ + json_members(taken));
        }
        i = i + 1;
    }
    proof {
        assert(fields@.take(fields@.len() as int) =~= fields@);
    }
}

/// Render a scalar-read result as a compact JSON object with the keys
/// `success`, `result`, `error`; absent options render as `null`.
pub fn format_redis_response_json(response: &RedisResponse) -> (r: String)
    ensures
        r@ == json_of_redis_response(*response),
{
    let mut out = String::from_str("{\"success\":");
    append_json_bool(&mut out, response.success);
    out.append(",\"result\":");
    append_json_opt_string(&mut out, &response.result);
    out.append(",\"error\":");
    append_json_opt_string(&mut out, &response.error);
    out.append("}");
    proof {
        assert(out@ =~= json_of_redis_response(*response));
    }
    out
}

/// Render a hash-field-read result as a compact JSON object with the
/// keys `success`, `value`, `error`.
pub fn format_hash_field_response_json(response: &HashFieldResponse) -> (r: String)
    ensures
        r@ == json_of_hash_field_response(*response),
{
    let mut out = String::from_str("{\"success\":");
    append_json_bool(&mut out, response.success);
    out.append(",\"value\":");
    append_json_opt_string(&mut out, &response.value);
    out.append(",\"error\":");
    append_json_opt_string(&mut out, &response.error);
    out.append("}");
    proof {
        assert(out@ =~= json_of_hash_field_response(*response));
    }
    out
}

/// Render a full-hash-read result as a compact JSON object with the keys
/// `success`, `fields`, `error`. A present, empty field list renders as
/// `{}`, an absent one as `null`.
pub fn format_hash_all_response_json(response: &HashAllResponse) -> (r: String)
    ensures
        r@ == json_of_hash_all_response(*response),
{
    let mut out = String::from_str("{\"success\":");
    append_json_bool(&mut out, response.success);
    out.append(",\"fields\":");
    match &response.fields {
        Some(f) => {
            out.append("{");
            append_json_members(&mut out, f);
            out.append("}");
        },
        None => out.append("null"),
    }
    out.append(",\"error\":");
    append_json_opt_string(&mut out, &response.error);
    out.append("}");
    proof {
        assert(out@ =~= json_of_hash_all_response(*response));
    }
    out
}

/// The decimal rendering of `n`.
pub fn u16_to_decimal(n: u16) -> (r: String)
    ensures
        r@ == dec_digits(n as nat),
    decreases n,
{
    if n < 10 {
        let mut out = String::new();
        push_hex_digit(&mut out, n as u32);
        out
    } else {
        let mut out = u16_to_decimal(n / 10);
        push_hex_digit(&mut out, (n % 10) as u32);
        out
    }
}

} // verus!
