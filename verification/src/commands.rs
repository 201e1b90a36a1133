//! The outbound HTTP commands: argument validation, the request each
//! command issues, and the serialization of what came back.
//!
//! The application performs the outbound call itself; this module
//! decides whether the arguments are acceptable (arity, URL syntax),
//! what request to make, and how the result is rendered for the host.

use vstd::prelude::*;
use crate::json::{append_json_members, append_json_quoted, dec_digits, json_members, json_quoted, u16_to_decimal};
use crate::response::distinct_keys;

verus! {

/// The four outbound verbs.
#[derive(Debug, Clone, Copy, PartialEq, Eq, Structural)]
pub enum HttpMethod {
    Get,
    Post,
    Put,
    Delete,
}

/// Why a command was refused without any call being made: wrong argument
/// count, or a target that does not parse as a URL.
#[derive(Debug, Clone, Copy, PartialEq, Eq, Structural)]
pub enum CommandError {
    WrongArity,
    InvalidUrl,
}

/// The outbound request a command asks for.
#[derive(Debug)]
pub struct OutboundRequest {
    pub method: HttpMethod,
    pub url: String,
    pub body: Option<String>,
    pub content_type: Option<String>,
}

/// The result of an outbound call, as handed back by the application:
/// status, response headers (one value per name), response body.
#[derive(Debug)]
pub struct HttpResponse {
    pub status: u16,
    pub headers: Vec<(String, String)>,
    pub body: String,
}

/// Whether `url`'s crate accepts the text as an absolute URL: a function
/// of the text alone.
pub uninterp spec fn url_parses(s: Seq<char>) -> bool;

/// Relies on `url::Url::parse`: syntax validation of the target before
/// any call is attempted.
#[verifier::external_body]
fn is_valid_url(s: &str) -> (r: bool)
    ensures
        r == url_parses(s@),
{
    url::Url::parse(s).is_ok()
}

/// Validate a body-less command (`HTTP.GET`, `HTTP.DELETE`): exactly one
/// argument after the command name, which must parse as a URL. The arity
/// error wins over everything else, whatever the arguments hold.
pub fn prepare_simple_request(method: HttpMethod, args: &Vec<String>) -> (r: Result<
    OutboundRequest,
    CommandError,
>)
    ensures
        args@.len() != 2 ==> r == Result::<OutboundRequest, CommandError>::Err(
            CommandError::WrongArity,
        ),
        args@.len() == 2 && !url_parses(args@[1]@) ==> r == Result::<
            OutboundRequest,
            CommandError,
        >::Err(CommandError::InvalidUrl),
        args@.len() == 2 && url_parses(args@[1]@) ==> (r matches Ok(q) && q.method == method
            && q.url@ == args@[1]@ && q.body is None && q.content_type is None),
{
    if args.len() != 2 {
        return Err(CommandError::WrongArity);
    }
    let url = args[1].clone();
    if !is_valid_url(url.as_str()) {
        return Err(CommandError::InvalidUrl);
    }
    Ok(OutboundRequest { method, url, body: None, content_type: None })
}

/// Validate a body-carrying command (`HTTP.POST`, `HTTP.PUT`): a URL,
/// then an optional body and an optional content type, which defaults to
/// `application/json`. The arity error wins over everything else,
/// whatever the arguments hold.
pub fn prepare_body_request(method: HttpMethod, args: &Vec<String>) -> (r: Result<
    OutboundRequest,
    CommandError,
>)
    ensures
        args@.len() < 2 || args@.len() > 4 ==> r == Result::<OutboundRequest, CommandError>::Err(
            CommandError::WrongArity,
        ),
        2 <= args@.len() <= 4 && !url_parses(args@[1]@) ==> r == Result::<
            OutboundRequest,
            CommandError,
        >::Err(CommandError::InvalidUrl),
        2 <= args@.len() <= 4 && url_parses(args@[1]@) ==> (r matches Ok(q) && q.method == method
            && q.url@ == args@[1]@ && (if args@.len() > 2 {
            q.body matches Some(b) && b@ == args@[2]@
        } else {
            q.body is None
        }) && (q.content_type matches Some(c) && c@ == (if args@.len() > 3 {
            args@[3]@
        } else {
            "application/json"@
        }))),
{
    if args.len() < 2 || args.len() > 4 {
        return Err(CommandError::WrongArity);
    }
    let url = args[1].clone();
    if !is_valid_url(url.as_str()) {
        return Err(CommandError::InvalidUrl);
    }
    let body = if args.len() > 2 {
        Some(args[2].clone())
    } else {
        None
    };
    let content_type = if args.len() > 3 {
        Some(args[3].clone())
    } else {
        Some(String::from_str("application/json"))
    };
    Ok(OutboundRequest { method, url, body, content_type })
}

/// The mapping a pair list denotes when later values win: each pair
/// inserted in order.
pub open spec fn headers_map(pairs: Seq<(String, String)>) -> Map<Seq<char>, Seq<char>>
    decreases pairs.len(),
{
    if pairs.len() == 0 {
        Map::empty()
    } else {
        headers_map(pairs.drop_last()).insert(pairs.last().0@, pairs.last().1@)
    }
}

proof fn lemma_headers_map_push(pairs: Seq<(String, String)>, kv: (String, String))
    ensures
        headers_map(pairs.push(kv)) == headers_map(pairs).insert(kv.0@, kv.1@),
{
    assert(pairs.push(kv).drop_last() =~= pairs);
    assert(pairs.push(kv).last() == kv);
}

proof fn lemma_headers_map_update(pairs: Seq<(String, String)>, j: int, v: String)
    requires
        distinct_keys(pairs),
        0 <= j < pairs.len(),
    ensures
        headers_map(pairs.update(j, (pairs[j].0, v))) == headers_map(pairs).insert(
            pairs[j].0@,
            v@,
        ),
    decreases pairs.len(),
{
    let updated = pairs.update(j, (pairs[j].0, v));
    if j == pairs.len() - 1 {
        assert(updated.drop_last() =~= pairs.drop_last());
        assert(updated.last() == (pairs[j].0, v));
        assert(headers_map(pairs.drop_last()).insert(pairs[j].0@, v@) =~= headers_map(
            pairs.drop_last(),
        ).insert(pairs.last().0@, pairs.last().1@).insert(pairs[j].0@, v@));
    } else {
        assert(updated.drop_last() =~= pairs.drop_last().update(j, (pairs[j].0, v)));
        assert(pairs.drop_last()[j] == pairs[j]);
        assert(distinct_keys(pairs.drop_last()));
        lemma_headers_map_update(pairs.drop_last(), j, v);
        assert(updated.last() == pairs.last());
        assert(pairs.last().0@ != pairs[j].0@);
        assert(headers_map(pairs.drop_last()).insert(pairs[j].0@, v@).insert(
            pairs.last().0@,
            pairs.last().1@,
        ) =~= headers_map(pairs.drop_last()).insert(pairs.last().0@, pairs.last().1@).insert(
            pairs[j].0@,
            v@,
        ));
    }
}

/// Collapse repeated header names: later values win, each name is kept
/// once, and the result denotes the same mapping as the input.
pub fn dedup_headers(pairs: Vec<(String, String)>) -> (r: Vec<(String, String)>)
    ensures
        distinct_keys(r@),
        headers_map(r@) == headers_map(pairs@),
        r@.len() <= pairs@.len(),
{
    let mut out: Vec<(String, String)> = Vec::new();
    let mut i: usize = 0;
    proof {
        assert(pairs@.take(0) =~= Seq::<(String, String)>::empty());
        assert(headers_map(out@) =~= headers_map(pairs@.take(0)));
    }
    while i < pairs.len()
        invariant
            i <= pairs@.len(),
            distinct_keys(out@),
            headers_map(out@) == headers_map(pairs@.take(i as int)),
            out@.len() <= i,
        decreases pairs@.len() - i,
    {
        let kv = &pairs[i];
        let mut found: Option<usize> = None;
        let mut j: usize = 0;
        while j < out.len()
            invariant
                j <= out@.len(),
                (match found {
                    Option::Some(p) => p < j && out@[p as int].0@ == kv.0@,
                    Option::None => forall|k: int| 0 <= k < j ==> out@[k].0@ != kv.0@,
                }),
            decreases out@.len() - j,
        {
            if out[j].0 == kv.0 {
                found = Some(j);
            }
            j = j + 1;
        }
        proof {
            let taken = pairs@.take(i + 1);
            assert(taken.drop_last() =~= pairs@.take(i as int));
            assert(taken.last() == pairs@[i as int]);
        }
        match found {
            Some(p) => {
                let value = kv.1.clone();
                let ghost before = out@;
                out.set(p, (out[p].0.clone(), value));
                proof {
                    assert(out@[p as int].0@ == before[p as int].0@);
                    assert(out@ =~= before.update(p as int, (before[p as int].0, out@[p as int].1))) by {
                        assert(forall|k: int|
                            0 <= k < out@.len() && k != p ==> out@[k] == before[k]);
                    }
                    lemma_headers_map_update(before, p as int, out@[p as int].1);
                    assert(before[p as int].0@ == pairs@[i as int].0@);
                    assert(out@[p as int].1@ == pairs@[i as int].1@);
                    assert(headers_map(out@) =~= headers_map(pairs@.take(i + 1)));
                }
            },
            None => {
                let ghost before = out@;
                out.push((kv.0.clone(), kv.1.clone()));
                proof {
                    assert(out@ =~= before.push(out@.last()));
                    lemma_headers_map_push(before, out@.last());
                    assert(out@.last().0@ == pairs@[i as int].0@);
                    assert(out@.last().1@ == pairs@[i as int].1@);
                    assert(headers_map(out@) =~= headers_map(pairs@.take(i + 1)));
                    assert(distinct_keys(out@));
                }
            },
        }
        i = i + 1;
    }
    proof {
        assert(pairs@.take(pairs@.len() as int) =~= pairs@);
    }
    out
}

/// The JSON object a command returns for an outbound result: `status` as
/// a number, `headers` as an object, `body` as a string.
pub open spec fn json_of_http_response(r: HttpResponse) -> Seq<char> {
    "{\"status\":"@ + dec_digits(r.status as nat) + ",\"headers\":{"@ + json_members(r.headers@)
        + "},\"body\":"@ + json_quoted(r.body@) + "}"@
}

/// Serialize an outbound result for the host: a compact JSON object with
/// the keys `status`, `headers`, `body`.
pub fn encode_http_response(response: &HttpResponse) -> (r: String)
    ensures
        r@ == json_of_http_response(*response),
{
    let mut out = String::from_str("{\"status\":");
    let status = u16_to_decimal(response.status);
    out.append(status.as_str());
    out.append(",\"headers\":{");
    append_json_members(&mut out, &response.headers);
    out.append("},\"body\":");
    append_json_quoted(&mut out, response.body.as_str());
    out.append("}");
    proof {
        assert(out@ =~= json_of_http_response(*response));
    }
    out
}

} // verus!
