//! The store-operation routes' result rendering: from the outcome of a
//! backend read and the request's `Accept` header to the reply body and
//! content type.
//!
//! The application performs the backend work (acquiring a connection,
//! running the read) and hands the outcome here. A connection-acquisition
//! failure and a missing factory render as JSON whatever format was
//! asked for — the acquisition-failure path has never been format-aware,
//! and that behaviour is kept.

use vstd::prelude::*;
use crate::format::{detect_response_format, negotiated_format, ResponseFormat};
use crate::json::{
    format_hash_all_response_json, format_hash_field_response_json, format_redis_response_json,
    json_of_hash_all_response, json_of_hash_field_response, json_of_redis_response,
};
use crate::response::{HashAllResponse, HashFieldResponse, RedisResponse};
use crate::text::{
    format_hash_all_response_text, format_hash_field_response_text, format_redis_response_text,
    text_of_hash_all, text_of_hash_field_response, text_of_redis_response,
};
use crate::xml::{
    format_hash_all_response_xml, format_hash_field_response_xml, format_redis_response_xml,
    xml_of_hash_all_response, xml_of_hash_field_response, xml_of_redis_response,
};

verus! {

/// A rendered reply: the body and the `content-type` header value.
#[derive(Debug)]
pub struct HttpReply {
    pub body: String,
    pub content_type: String,
}

/// Outcome of a scalar or hash-field read, as the application reports
/// it: no factory initialized, connection acquisition failed, the
/// backend refused the command, or the read value (absent for a missing
/// key or field).
#[derive(Debug)]
pub enum ScalarOutcome {
    NotInitialized,
    ConnFailed(String),
    CmdFailed(String),
    Value(Option<String>),
}

/// Outcome of a full hash read; a missing key reads as an empty listing.
#[derive(Debug)]
pub enum HashAllOutcome {
    NotInitialized,
    ConnFailed(String),
    CmdFailed(String),
    Fields(Vec<(String, String)>),
}

/// The `content-type` value for each format.
pub open spec fn content_type_of(f: ResponseFormat) -> Seq<char> {
    match f {
        ResponseFormat::Json => "application/json"@,
        ResponseFormat::Xml => "application/xml"@,
        ResponseFormat::Text => "text/plain"@,
    }
}

/// The body of a scalar-read reply in the given format.
pub open spec fn scalar_body(r: RedisResponse, f: ResponseFormat) -> Seq<char> {
    match f {
        ResponseFormat::Json => json_of_redis_response(r),
        ResponseFormat::Xml => xml_of_redis_response(r),
        ResponseFormat::Text => text_of_redis_response(r),
    }
}

/// The body of a hash-field-read reply in the given format.
pub open spec fn hash_field_body(r: HashFieldResponse, f: ResponseFormat) -> Seq<char> {
    match f {
        ResponseFormat::Json => json_of_hash_field_response(r),
        ResponseFormat::Xml => xml_of_hash_field_response(r),
        ResponseFormat::Text => text_of_hash_field_response(r),
    }
}

/// The body of a full-hash-read reply in the given format.
pub open spec fn hash_all_body(r: HashAllResponse, f: ResponseFormat) -> Seq<char> {
    match f {
        ResponseFormat::Json => json_of_hash_all_response(r),
        ResponseFormat::Xml => xml_of_hash_all_response(r),
        ResponseFormat::Text => text_of_hash_all(r),
    }
}

/// The format a scalar-route reply is rendered in: JSON unconditionally
/// when no connection was obtained, the negotiated format otherwise.
pub open spec fn scalar_reply_format(
    outcome: ScalarOutcome,
    accept: Option<String>,
) -> ResponseFormat {
    match outcome {
        ScalarOutcome::NotInitialized => ResponseFormat::Json,
        ScalarOutcome::ConnFailed(_) => ResponseFormat::Json,
        _ => negotiated_format(accept),
    }
}

/// As [`scalar_reply_format`], for the full-hash route.
pub open spec fn hash_all_reply_format(
    outcome: HashAllOutcome,
    accept: Option<String>,
) -> ResponseFormat {
    match outcome {
        HashAllOutcome::NotInitialized => ResponseFormat::Json,
        HashAllOutcome::ConnFailed(_) => ResponseFormat::Json,
        _ => negotiated_format(accept),
    }
}

fn render_scalar(resp: &RedisResponse, format: ResponseFormat) -> (r: HttpReply)
    ensures
        r.body@ == scalar_body(*resp, format),
        r.content_type@ == content_type_of(format),
{
    match format {
        ResponseFormat::Json => HttpReply {
            body: format_redis_response_json(resp),
            content_type: String::from_str("application/json"),
        },
        ResponseFormat::Xml => HttpReply {
            body: format_redis_response_xml(resp),
            content_type: String::from_str("application/xml"),
        },
        ResponseFormat::Text => HttpReply {
            body: format_redis_response_text(resp),
            content_type: String::from_str("text/plain"),
        },
    }
}

fn render_hash_field(resp: &HashFieldResponse, format: ResponseFormat) -> (r: HttpReply)
    ensures
        r.body@ == hash_field_body(*resp, format),
        r.content_type@ == content_type_of(format),
{
    match format {
        ResponseFormat::Json => HttpReply {
            body: format_hash_field_response_json(resp),
            content_type: String::from_str("application/json"),
        },
        ResponseFormat::Xml => HttpReply {
            body: format_hash_field_response_xml(resp),
            content_type: String::from_str("application/xml"),
        },
        ResponseFormat::Text => HttpReply {
            body: format_hash_field_response_text(resp),
            content_type: String::from_str("text/plain"),
        },
    }
}

fn render_hash_all(resp: &HashAllResponse, format: ResponseFormat) -> (r: HttpReply)
    ensures
        r.body@ == hash_all_body(*resp, format),
        r.content_type@ == content_type_of(format),
{
    match format {
        ResponseFormat::Json => HttpReply {
            body: format_hash_all_response_json(resp),
            content_type: String::from_str("application/json"),
        },
        ResponseFormat::Xml => HttpReply {
            body: format_hash_all_response_xml(resp),
            content_type: String::from_str("application/xml"),
        },
        ResponseFormat::Text => HttpReply {
            body: format_hash_all_response_text(resp),
            content_type: String::from_str("text/plain"),
        },
    }
}

fn scalar_error(prefix: &str, message: &str) -> (r: RedisResponse)
    ensures
        !r.success && r.result is None,
        (r.error matches Some(m) && m@ == prefix@ + message@),
        r.wf(),
{
    let mut m = String::from_str(prefix);
    m.append(message);
    RedisResponse { success: false, result: None, error: Some(m) }
}

/// The reply of the scalar-read route (`/GET/{key}`), given the backend
/// outcome and the request's `Accept` header. The response rendered
/// (returned as its ghost second component) is well-formed; failure
/// messages carry their cause with the fixed prefixes; a missing factory
/// or failed connection renders as JSON regardless of the header.
pub fn redis_get_reply(outcome: ScalarOutcome, accept: Option<String>) -> (r: (
    HttpReply,
    Ghost<RedisResponse>,
))
    ensures
        r.1@.wf(),
        r.0.body@ == scalar_body(r.1@, scalar_reply_format(outcome, accept)),
        r.0.content_type@ == content_type_of(scalar_reply_format(outcome, accept)),
        (match outcome {
            ScalarOutcome::NotInitialized => !r.1@.success && (r.1@.error matches Some(m) && m@
                == "Redis client not initialized"@),
            ScalarOutcome::ConnFailed(e) => !r.1@.success && (r.1@.error matches Some(m) && m@
                == "Connection error: "@ + e@),
            ScalarOutcome::CmdFailed(e) => !r.1@.success && (r.1@.error matches Some(m) && m@
                == "Redis error: "@ + e@),
            ScalarOutcome::Value(v) => r.1@.success && r.1@.error is None && r.1@.result == v,
        }),
{
    match outcome {
        ScalarOutcome::NotInitialized => {
            let resp = RedisResponse {
                success: false,
                result: None,
                error: Some(String::from_str("Redis client not initialized")),
            };
            let reply = render_scalar(&resp, ResponseFormat::Json);
            (reply, Ghost(resp))
        },
        ScalarOutcome::ConnFailed(e) => {
            let resp = scalar_error("Connection error: ", e.as_str());
            let reply = render_scalar(&resp, ResponseFormat::Json);
            (reply, Ghost(resp))
        },
        ScalarOutcome::CmdFailed(e) => {
            let resp = scalar_error("Redis error: ", e.as_str());
            let reply = render_scalar(&resp, detect_response_format(accept));
            (reply, Ghost(resp))
        },
        ScalarOutcome::Value(v) => {
            let resp = RedisResponse { success: true, result: v, error: None };
            let reply = render_scalar(&resp, detect_response_format(accept));
            (reply, Ghost(resp))
        },
    }
}

/// The reply of the hash-field route (`/MGET/{key}/{field}`); the cases
/// are those of [`redis_get_reply`].
pub fn redis_hget_reply(outcome: ScalarOutcome, accept: Option<String>) -> (r: (
    HttpReply,
    Ghost<HashFieldResponse>,
))
    ensures
        r.1@.wf(),
        r.0.body@ == hash_field_body(r.1@, scalar_reply_format(outcome, accept)),
        r.0.content_type@ == content_type_of(scalar_reply_format(outcome, accept)),
        (match outcome {
            ScalarOutcome::NotInitialized => !r.1@.success && (r.1@.error matches Some(m) && m@
                == "Redis client not initialized"@),
            ScalarOutcome::ConnFailed(e) => !r.1@.success && (r.1@.error matches Some(m) && m@
                == "Connection error: "@ + e@),
            ScalarOutcome::CmdFailed(e) => !r.1@.success && (r.1@.error matches Some(m) && m@
                == "Redis error: "@ + e@),
            ScalarOutcome::Value(v) => r.1@.success && r.1@.error is None && r.1@.value == v,
        }),
{
    match outcome {
        ScalarOutcome::NotInitialized => {
            let resp = HashFieldResponse {
                success: false,
                value: None,
                error: Some(String::from_str("Redis client not initialized")),
            };
            let reply = render_hash_field(&resp, ResponseFormat::Json);
            (reply, Ghost(resp))
        },
        ScalarOutcome::ConnFailed(e) => {
            let mut m = String::from_str("Connection error: ");
            m.append(e.as_str());
            let resp = HashFieldResponse { success: false, value: None, error: Some(m) };
            let reply = render_hash_field(&resp, ResponseFormat::Json);
            (reply, Ghost(resp))
        },
        ScalarOutcome::CmdFailed(e) => {
            let mut m = String::from_str("Redis error: ");
            m.append(e.as_str());
            let resp = HashFieldResponse { success: false, value: None, error: Some(m) };
            let reply = render_hash_field(&resp, detect_response_format(accept));
            (reply, Ghost(resp))
        },
        ScalarOutcome::Value(v) => {
            let resp = HashFieldResponse { success: true, value: v, error: None };
            let reply = render_hash_field(&resp, detect_response_format(accept));
            (reply, Ghost(resp))
        },
    }
}

/// The reply of the full-hash route (`/MGETALL/{key}`); the cases are
/// those of [`redis_get_reply`], with the read listing carried through
/// unchanged.
pub fn redis_hgetall_reply(outcome: HashAllOutcome, accept: Option<String>) -> (r: (
    HttpReply,
    Ghost<HashAllResponse>,
))
    ensures
        (outcome matches HashAllOutcome::Fields(f) ==> (crate::response::distinct_keys(f@)
            ==> r.1@.wf())),
        (!(outcome matches HashAllOutcome::Fields(f)) ==> r.1@.wf()),
        r.0.body@ == hash_all_body(r.1@, hash_all_reply_format(outcome, accept)),
        r.0.content_type@ == content_type_of(hash_all_reply_format(outcome, accept)),
        (match outcome {
            HashAllOutcome::NotInitialized => !r.1@.success && r.1@.fields is None && (r.1@.error
                matches Some(m) && m@ == "Redis client not initialized"@),
            HashAllOutcome::ConnFailed(e) => !r.1@.success && r.1@.fields is None && (r.1@.error
                matches Some(m) && m@ == "Connection error: "@ + e@),
            HashAllOutcome::CmdFailed(e) => !r.1@.success && r.1@.fields is None && (r.1@.error
                matches Some(m) && m@ == "Redis error: "@ + e@),
            HashAllOutcome::Fields(f) => r.1@.success && r.1@.error is None && (r.1@.fields
                matches Some(g) && g == f),
        }),
{
    match outcome {
        HashAllOutcome::NotInitialized => {
            let resp = HashAllResponse {
                success: false,
                fields: None,
                error: Some(String::from_str("Redis client not initialized")),
            };
            let reply = render_hash_all(&resp, ResponseFormat::Json);
            (reply, Ghost(resp))
        },
        HashAllOutcome::ConnFailed(e) => {
            let mut m = String::from_str("Connection error: ");
            m.append(e.as_str());
            let resp = HashAllResponse { success: false, fields: None, error: Some(m) };
            let reply = render_hash_all(&resp, ResponseFormat::Json);
            (reply, Ghost(resp))
        },
        HashAllOutcome::CmdFailed(e) => {
            let mut m = String::from_str("Redis error: ");
            m.append(e.as_str());
            let resp = HashAllResponse { success: false, fields: None, error: Some(m) };
            let reply = render_hash_all(&resp, detect_response_format(accept));
            (reply, Ghost(resp))
        },
        HashAllOutcome::Fields(f) => {
            let resp = HashAllResponse { success: true, fields: Some(f), error: None };
            let reply = render_hash_all(&resp, detect_response_format(accept));
            (reply, Ghost(resp))
        },
    }
}

} // verus!
