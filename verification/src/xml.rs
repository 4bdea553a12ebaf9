//! Reading and writing XML, as far as the component stream needs it.
//!
//! All reading is done by `quick-xml`. This module asks it for one thing at
//! a time: what the bytes begin with, the name of the tag they begin with,
//! and the value of an attribute of that tag. What is made of the answers
//! is decided elsewhere.

use vstd::prelude::*;
use quick_xml::errors::SyntaxError;
use quick_xml::events::Event;
use quick_xml::{Error, Reader};
use std::borrow::Cow;
use crate::text::text_of;

verus! {

/// What a sequence of bytes begins with, as the reader sees it. `len` is
/// the reader's position after the piece, counted from where it began to
/// read. A byte-order mark at the very beginning is passed over by the
/// reader and is not counted; for bytes that begin with none, `len` is the
/// number of bytes that the piece takes.
#[derive(Clone, Copy, Debug, PartialEq, Eq, Structural)]
pub enum XmlToken {
    /// An opening tag.
    Start { len: usize },
    /// A tag that opens and closes an element at once.
    Empty { len: usize },
    /// A closing tag.
    End { len: usize },
    /// Text, a declaration, a comment or another piece that is no tag.
    Other { len: usize },
    /// Nothing: the reader found no more bytes.
    Eof,
    /// `<!` that is followed neither by the beginning of a comment, of a
    /// CDATA section or of a document type: by another byte, or by none.
    BadBang,
    /// Any other error of the reader, with its position then. The reader
    /// stands at the end of the bytes where they ended within a piece, and
    /// behind the piece where the piece was there but is no XML.
    Failed { len: usize },
}

/// The most bytes that are handed to the reader at once. Its count of the
/// `<` in a document type does not reach beyond that.
pub const READ_LIMIT: usize = 2147483647;

/// What `bytes` begin with, as `quick-xml` reads them.
pub uninterp spec fn xml_token(bytes: Seq<u8>) -> XmlToken;

/// The name of the tag that `bytes` begin with, as `quick-xml` reads it;
/// `None` where they begin with no opening tag or the name is no UTF-8.
pub uninterp spec fn xml_name(bytes: Seq<u8>) -> Option<Seq<char>>;

/// The value of the attribute `name` of the tag that `bytes` begin with, as
/// `quick-xml` reads it, with its entities resolved; `None` where they begin
/// with no opening tag, the tag has no such attribute, or its attributes
/// cannot be read.
pub uninterp spec fn xml_attribute(bytes: Seq<u8>, name: Seq<char>) -> Option<Seq<char>>;

/// The first event that `quick_xml::Reader::read_event` reads from `bytes`,
/// by its kind, with `Reader::buffer_position` after it. A closing tag is
/// read though nothing was opened. The syntax error `InvalidBangMarkup`
/// comes back as `BadBang`, every other error as `Failed`.
///
/// The result is a function of the bytes alone; no more is claimed of it.
/// The reader is given no more than `READ_LIMIT` bytes: beyond that its
/// count of the `<` in a document type can overflow.
#[verifier::external_body]
pub(crate) fn read_token(bytes: &[u8]) -> (token: XmlToken)
    requires
        bytes@.len() <= READ_LIMIT,
    ensures
        token == xml_token(bytes@),
{
    let mut reader = Reader::from_reader(bytes);
    reader.config_mut().allow_unmatched_ends = true;
    let event = reader.read_event();
    let len = reader.buffer_position() as usize;
    match event {
        Ok(Event::Start(_)) => XmlToken::Start { len },
        Ok(Event::Empty(_)) => XmlToken::Empty { len },
        Ok(Event::End(_)) => XmlToken::End { len },
        Ok(Event::Eof) => XmlToken::Eof,
        Ok(_) => XmlToken::Other { len },
        Err(Error::Syntax(SyntaxError::InvalidBangMarkup)) => XmlToken::BadBang,
        Err(_) => XmlToken::Failed { len },
    }
}

/// The name of the opening tag that `quick_xml::Reader::read_event` reads
/// first from `bytes`, from `BytesStart::name`, as text.
///
/// The result is a function of the bytes alone; no more is claimed of it.
/// The reader is given no more than `READ_LIMIT` bytes, as in `read_token`.
#[verifier::external_body]
pub(crate) fn read_name(bytes: &[u8]) -> (name: Option<String>)
    requires
        bytes@.len() <= READ_LIMIT,
    ensures
        text_of(name) == xml_name(bytes@),
{
    match Reader::from_reader(bytes).read_event() {
        Ok(Event::Start(tag)) | Ok(Event::Empty(tag)) => {
            std::str::from_utf8(tag.name().as_ref()).ok().map(str::to_owned)
        },
        _ => None,
    }
}

/// The value of the attribute `name` of the opening tag that
/// `quick_xml::Reader::read_event` reads first from `bytes`, from
/// `BytesStart::try_get_attribute` and `Attribute::unescape_value`.
///
/// The result is a function of the bytes and the name alone; no more is
/// claimed of it. The reader is given no more than `READ_LIMIT` bytes, as
/// in `read_token`.
#[verifier::external_body]
pub(crate) fn read_attribute(bytes: &[u8], name: &str) -> (value: Option<String>)
    requires
        bytes@.len() <= READ_LIMIT,
    ensures
        text_of(value) == xml_attribute(bytes@, name@),
{
    match Reader::from_reader(bytes).read_event() {
        Ok(Event::Start(tag)) | Ok(Event::Empty(tag)) => match tag.try_get_attribute(name) {
            Ok(Some(attribute)) => attribute.unescape_value().ok().map(Cow::into_owned),
            _ => None,
        },
        _ => None,
    }
}

/// What stands for a character in XML text and attribute values.
pub open spec fn escaped_char(c: char) -> Seq<char> {
    if c == '<' {
        "&lt;"@
    } else if c == '>' {
        "&gt;"@
    } else if c == '&' {
        "&amp;"@
    } else if c == '\'' {
        "&apos;"@
    } else if c == '"' {
        "&quot;"@
    } else {
        seq![c]
    }
}

/// A text with each of the five special characters of XML replaced by its
/// entity.
pub open spec fn escaped(text: Seq<char>) -> Seq<char>
    decreases text.len(),
{
    if text.len() == 0 {
        Seq::empty()
    } else {
        escaped(text.drop_last()) + escaped_char(text.last())
    }
}

/// Replaces each of the five special characters of XML in `text` by its
/// entity, so that the text can stand in an attribute value or between two
/// tags.
pub fn escape(text: &str) -> (safe: String)
    ensures
        safe@ == escaped(text@),
{
    let len = text.unicode_len();
    let mut safe = String::new();
    let mut i: usize = 0;
    while i < len
        invariant
            i <= len,
            len == text@.len(),
            safe@ == escaped(text@.take(i as int)),
        decreases len - i,
    {
        let c = text.get_char(i);
        proof {
            assert(text@.take(i + 1).drop_last() =~= text@.take(i as int));
            assert(text@.take(i + 1).last() == c);
        }
        if c == '<' {
            safe.append("&lt;");
        } else if c == '>' {
            safe.append("&gt;");
        } else if c == '&' {
            safe.append("&amp;");
        } else if c == '\'' {
            safe.append("&apos;");
        } else if c == '"' {
            safe.append("&quot;");
        } else {
            safe.append(text.substring_char(i, i + 1));
            assert(text@.subrange(i as int, i + 1) =~= seq![c]);
        }
        i += 1;
    }
    assert(text@.take(len as int) =~= text@);
    safe
}

} // verus!
