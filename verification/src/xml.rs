//! XML rendering of the three result shapes. The markup is produced
//! through `quick_xml`'s event writer over an in-memory buffer; its
//! contents are tracked by the uninterpreted [`xml_written`] and the
//! trusted wrappers below, and each formatter's contract pins the whole
//! document.

use vstd::prelude::*;
use crate::response::{HashAllResponse, HashFieldResponse, RedisResponse};

verus! {

/// `true` or `false`, as written inside the `<success>` element.
pub open spec fn bool_text(b: bool) -> Seq<char> {
    if b {
        "true"@
    } else {
        "false"@
    }
}

/// The escape of one character of text content, as `quick_xml`'s
/// `escape` performs it: the five XML-special characters become
/// entities, a carriage return becomes a character reference, everything
/// else is unchanged.
pub open spec fn xml_escaped_char(c: char) -> Seq<char> {
    if c == '<' {
        "&lt;"@
    } else if c == '>' {
        "&gt;"@
    } else if c == '&' {
        "&amp;"@
    } else if c == '\'' {
        "&apos;"@
    } else if c == '"' {
        "&quot;"@
    } else if c == '\r' {
        "&#13;"@
    } else {
        seq![c]
    }
}

/// The escape of a whole text content.
pub open spec fn xml_escaped(s: Seq<char>) -> Seq<char>
    decreases s.len(),
{
    if s.len() == 0 {
        Seq::empty()
    } else {
        xml_escaped(s.drop_last()) + xml_escaped_char(s.last())
    }
}

/// A start tag.
pub open spec fn start_tag(name: Seq<char>) -> Seq<char> {
    "<"@ + name + ">"@
}

/// An end tag.
pub open spec fn end_tag(name: Seq<char>) -> Seq<char> {
    "</"@ + name + ">"@
}

/// An element: start tag, content, end tag.
pub open spec fn xml_elt(name: Seq<char>, content: Seq<char>) -> Seq<char> {
    start_tag(name) + content + end_tag(name)
}

/// An optional element holding escaped text: absent values render
/// nothing at all.
pub open spec fn xml_opt_elt(name: Seq<char>, v: Option<String>) -> Seq<char> {
    match v {
        Option::Some(s) => xml_elt(name, xml_escaped(s@)),
        Option::None => Seq::empty(),
    }
}

/// The document for a scalar-read result.
pub open spec fn xml_of_redis_response(r: RedisResponse) -> Seq<char> {
    xml_elt(
        "response"@,
        xml_elt("success"@, xml_escaped(bool_text(r.success))) + xml_opt_elt("result"@, r.result)
            + xml_opt_elt("error"@, r.error),
    )
}

/// The document for a hash-field-read result.
pub open spec fn xml_of_hash_field_response(r: HashFieldResponse) -> Seq<char> {
    xml_elt(
        "response"@,
        xml_elt("success"@, xml_escaped(bool_text(r.success))) + xml_opt_elt("value"@, r.value)
            + xml_opt_elt("error"@, r.error),
    )
}

/// The `<field><key>..</key><value>..</value></field>` run of a hash
/// listing, in listing order.
pub open spec fn xml_fields(fields: Seq<(String, String)>) -> Seq<char>
    decreases fields.len(),
{
    if fields.len() == 0 {
        Seq::empty()
    } else {
        xml_fields(fields.drop_last()) + xml_elt(
            "field"@,
            xml_elt("key"@, xml_escaped(fields.last().0@)) + xml_elt(
                "value"@,
                xml_escaped(fields.last().1@),
            ),
        )
    }
}

/// The document for a full-hash-read result. A present listing renders a
/// `<fields>` element even when empty; an absent one renders no
/// `<fields>` element at all.
pub open spec fn xml_of_hash_all_response(r: HashAllResponse) -> Seq<char> {
    xml_elt(
        "response"@,
        xml_elt("success"@, xml_escaped(bool_text(r.success))) + (match r.fields {
            Option::Some(f) => xml_elt("fields"@, xml_fields(f@)),
            Option::None => Seq::empty(),
        }) + xml_opt_elt("error"@, r.error),
    )
}

#[verifier::external_type_specification]
#[verifier::external_body]
#[verifier::reject_recursive_types(W)]
pub struct ExXmlWriter<W>(quick_xml::Writer<W>);

#[verifier::external_type_specification]
#[verifier::external_body]
#[verifier::reject_recursive_types(T)]
pub struct ExCursor<T>(std::io::Cursor<T>);

/// The text written into the writer's buffer so far.
pub uninterp spec fn xml_written(w: quick_xml::Writer<std::io::Cursor<Vec<u8>>>) -> Seq<char>;

/// Relies on `quick_xml::Writer::new` over a fresh in-memory cursor:
/// nothing has been written yet.
#[verifier::external_body]
fn xml_writer_new() -> (w: quick_xml::Writer<std::io::Cursor<Vec<u8>>>)
    ensures
        xml_written(w) == Seq::<char>::empty(),
{
    quick_xml::Writer::new(std::io::Cursor::new(Vec::new()))
}

/// Relies on `quick_xml::Writer::write_event` with a `Start` event made
/// by `BytesStart::new`: it appends `<`, the name, `>`. Writing to an
/// in-memory cursor cannot fail.
#[verifier::external_body]
fn xml_write_start(w: &mut quick_xml::Writer<std::io::Cursor<Vec<u8>>>, name: &str)
    ensures
        xml_written(*final(w)) == xml_written(*old(w)) + start_tag(name@),
{
    let _ = w.write_event(quick_xml::events::Event::Start(quick_xml::events::BytesStart::new(
        name,
    )));
}

/// Relies on `quick_xml::Writer::write_event` with a `Text` event made
/// by `BytesText::new`: it appends the text escaped by `quick_xml`'s
/// `escape` (`<`, `>`, `&`, `'`, `"` as entities, `\r` as `&#13;`).
#[verifier::external_body]
fn xml_write_text(w: &mut quick_xml::Writer<std::io::Cursor<Vec<u8>>>, text: &str)
    ensures
        xml_written(*final(w)) == xml_written(*old(w)) + xml_escaped(text@),
{
    let _ = w.write_event(quick_xml::events::Event::Text(quick_xml::events::BytesText::new(text)));
}

/// Relies on `quick_xml::Writer::write_event` with an `End` event made
/// by `BytesEnd::new`: it appends `</`, the name, `>`.
#[verifier::external_body]
fn xml_write_end(w: &mut quick_xml::Writer<std::io::Cursor<Vec<u8>>>, name: &str)
    ensures
        xml_written(*final(w)) == xml_written(*old(w)) + end_tag(name@),
{
    let _ = w.write_event(quick_xml::events::Event::End(quick_xml::events::BytesEnd::new(name)));
}

/// Relies on `quick_xml::Writer::into_inner`, `Cursor::into_inner` and
/// `String::from_utf8`: the buffer holds exactly the UTF-8 encoding of
/// what was written (only valid text and names were handed in).
#[verifier::external_body]
fn xml_writer_finish(w: quick_xml::Writer<std::io::Cursor<Vec<u8>>>) -> (r: String)
    ensures
        r@ == xml_written(w),
{
    String::from_utf8(w.into_inner().into_inner()).unwrap_or_default()
}

fn xml_write_success(w: &mut quick_xml::Writer<std::io::Cursor<Vec<u8>>>, success: bool)
    ensures
        xml_written(*final(w)) == xml_written(*old(w)) + xml_elt(
            "success"@,
            xml_escaped(bool_text(success)),
        ),
{
    xml_write_start(w, "success");
    if success {
        xml_write_text(w, "true");
    } else {
        xml_write_text(w, "false");
    }
    xml_write_end(w, "success");
    proof {
        assert(xml_written(*w) =~= xml_written(*old(w)) + xml_elt(
            "success"@,
            xml_escaped(bool_text(success)),
        ));
    }
}

fn xml_write_field(w: &mut quick_xml::Writer<std::io::Cursor<Vec<u8>>>, key: &str, value: &str)
    ensures
        xml_written(*final(w)) == xml_written(*old(w)) + xml_elt(
            "field"@,
            xml_elt("key"@, xml_escaped(key@)) + xml_elt("value"@, xml_escaped(value@)),
        ),
{
    xml_write_start(w, "field");
    xml_write_start(w, "key");
    xml_write_text(w, key);
    xml_write_end(w, "key");
    xml_write_start(w, "value");
    xml_write_text(w, value);
    xml_write_end(w, "value");
    xml_write_end(w, "field");
    proof {
        let key_elt = xml_elt("key"@, xml_escaped(key@));
        let value_elt = xml_elt("value"@, xml_escaped(value@));
        assert(xml_written(*w) =~= xml_written(*old(w)) + start_tag("field"@) + key_elt + value_elt
            + end_tag("field"@));
        assert(xml_written(*w) =~= xml_written(*old(w)) + xml_elt("field"@, key_elt + value_elt));
    }
}

/// Render a scalar-read result as an XML `<response>` document:
/// `<success>` always, `<result>` and `<error>` only when present, text
/// content escaped.
#[verifier::rlimit(60)]
pub fn format_redis_response_xml(response: &RedisResponse) -> (r: String)
    ensures
        r@ == xml_of_redis_response(*response),
{
    let mut w = xml_writer_new();
    xml_write_start(&mut w, "response");
    xml_write_success(&mut w, response.success);
    if let Some(result) = &response.result {
        xml_write_start(&mut w, "result");
        xml_write_text(&mut w, result.as_str());
        xml_write_end(&mut w, "result");
    }
    if let Some(error) = &response.error {
        xml_write_start(&mut w, "error");
        xml_write_text(&mut w, error.as_str());
        xml_write_end(&mut w, "error");
    }
    xml_write_end(&mut w, "response");
    let r = xml_writer_finish(w);
    proof {
        let content = xml_elt("success"@, xml_escaped(bool_text(response.success))) + xml_opt_elt(
            "result"@,
            response.result,
        ) + xml_opt_elt("error"@, response.error);
        assert(r@ =~= start_tag("response"@) + content + end_tag("response"@));
        assert(r@ == xml_of_redis_response(*response));
    }
    r
}

/// Render a hash-field-read result as an XML `<response>` document, with
/// the payload element named `<value>`.
#[verifier::rlimit(60)]
pub fn format_hash_field_response_xml(response: &HashFieldResponse) -> (r: String)
    ensures
        r@ == xml_of_hash_field_response(*response),
{
    let mut w = xml_writer_new();
    xml_write_start(&mut w, "response");
    xml_write_success(&mut w, response.success);
    if let Some(value) = &response.value {
        xml_write_start(&mut w, "value");
        xml_write_text(&mut w, value.as_str());
        xml_write_end(&mut w, "value");
    }
    if let Some(error) = &response.error {
        xml_write_start(&mut w, "error");
        xml_write_text(&mut w, error.as_str());
        xml_write_end(&mut w, "error");
    }
    xml_write_end(&mut w, "response");
    let r = xml_writer_finish(w);
    proof {
        let content = xml_elt("success"@, xml_escaped(bool_text(response.success))) + xml_opt_elt(
            "value"@,
            response.value,
        ) + xml_opt_elt("error"@, response.error);
        assert(r@ =~= start_tag("response"@) + content + end_tag("response"@));
        assert(r@ == xml_of_hash_field_response(*response));
    }
    r
}

/// Render a full-hash-read result as an XML `<response>` document: one
/// `<field>` element per listed key-value pair inside `<fields>`, which
/// is present (possibly empty) exactly when the listing is.
#[verifier::rlimit(60)]
pub fn format_hash_all_response_xml(response: &HashAllResponse) -> (r: String)
    ensures
        r@ == xml_of_hash_all_response(*response),
{
    let mut w = xml_writer_new();
    xml_write_start(&mut w, "response");
    xml_write_success(&mut w, response.success);
    if let Some(fields) = &response.fields {
        xml_write_start(&mut w, "fields");
        let ghost pre = xml_written(w);
        let mut i: usize = 0;
        proof {
            assert(fields@.take(0) =~= Seq::<(String, String)>::empty());
            assert(xml_written(w) =~= pre + xml_fields(fields@.take(0)));
        }
        while i < fields.len()
            invariant
                i <= fields@.len(),
                xml_written(w) == pre + xml_fields(fields@.take(i as int)),
            decreases fields@.len() - i,
        {
            let kv = &fields[i];
            xml_write_field(&mut w, kv.0.as_str(), kv.1.as_str());
            proof {
                let taken = fields@.take(i + 1);
                assert(taken.drop_last() =~= fields@.take(i as int));
                assert(taken.last() == fields@[i as int]);
                assert(xml_written(w) =~= pre + xml_fields(taken));
            }
            i = i + 1;
        }
        proof {
            assert(fields@.take(fields@.len() as int) =~= fields@);
        }
        xml_write_end(&mut w, "fields");
    }
    if let Some(error) = &response.error {
        xml_write_start(&mut w, "error");
        xml_write_text(&mut w, error.as_str());
        xml_write_end(&mut w, "error");
    }
    xml_write_end(&mut w, "response");
    let r = xml_writer_finish(w);
    proof {
        let content = xml_elt("success"@, xml_escaped(bool_text(response.success))) + (
        match &response.fields {
            Option::Some(f) => xml_elt("fields"@, xml_fields(f@)),
            Option::None => Seq::empty(),
        }) + xml_opt_elt("error"@, response.error);
        assert(r@ =~= start_tag("response"@) + content + end_tag("response"@));
        assert(r@ == xml_of_hash_all_response(*response));
    }
    r
}

} // verus!
