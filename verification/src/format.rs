//! Content negotiation: map an `Accept` header to one of the three
//! response formats.

use vstd::prelude::*;
use crate::strutil::{contains_ci, str_contains_ci};

verus! {

/// The three wire formats a response can be rendered in.
#[derive(Debug, Clone, PartialEq, Eq, Structural)]
pub enum ResponseFormat {
    Json,
    Xml,
    Text,
}

/// An `Accept` header value asks for XML: it contains `application/xml`
/// or `text/xml`, case-insensitively.
pub open spec fn accepts_xml(h: Seq<char>) -> bool {
    contains_ci(h, "application/xml"@) || contains_ci(h, "text/xml"@)
}

/// An `Accept` header value asks for plain text: it contains
/// `text/plain`, case-insensitively.
pub open spec fn accepts_text(h: Seq<char>) -> bool {
    contains_ci(h, "text/plain"@)
}

/// The format negotiated for an `Accept` header: XML wins over text,
/// text over JSON, and JSON is the default (header absent, or no known
/// token in it).
pub open spec fn negotiated_format(accept_header: Option<String>) -> ResponseFormat {
    match accept_header {
        Option::Some(h) => if accepts_xml(h@) {
            ResponseFormat::Xml
        } else if accepts_text(h@) {
            ResponseFormat::Text
        } else {
            ResponseFormat::Json
        },
        Option::None => ResponseFormat::Json,
    }
}

/// Detect the response format from an `Accept` header.
pub fn detect_response_format(accept_header: Option<String>) -> (r: ResponseFormat)
    ensures
        r == negotiated_format(accept_header),
{
    if let Some(accept) = accept_header {
        if str_contains_ci(accept.as_str(), "application/xml") || str_contains_ci(
            accept.as_str(),
            "text/xml",
        ) {
            return ResponseFormat::Xml;
        }
        if str_contains_ci(accept.as_str(), "text/plain") {
            return ResponseFormat::Text;
        }
        return ResponseFormat::Json;
    }
    ResponseFormat::Json
}

} // verus!
