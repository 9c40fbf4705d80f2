//! Reading XML feed documents event by event with quick-xml.
//!
//! A document is read through `XmlDocument`, which remembers the bytes it was
//! opened on and how many events have been read. quick-xml's events depend on
//! those bytes alone, so the event read at each position is named as a
//! function of the bytes and the position.
use vstd::prelude::*;

use quick_xml::events::{BytesStart, BytesText, Event};
use quick_xml::Reader;

verus! {

#[verifier::external_type_specification]
#[verifier::external_body]
#[verifier::reject_recursive_types(R)]
pub struct ExXmlReader<R>(Reader<R>);

#[verifier::external_type_specification]
#[verifier::external_body]
pub struct ExXmlStart<'a>(BytesStart<'a>);

#[verifier::external_type_specification]
#[verifier::external_body]
pub struct ExXmlText<'a>(BytesText<'a>);

/// One event of an XML document, as plain values. The name and attributes
/// of a start tag, and the text of a text event, are read separately.
#[derive(Debug)]
pub enum XmlEvent {
    /// A start tag `<tag ...>`.
    Start,
    /// A self-closing tag `<tag ... />`.
    Empty,
    /// An end tag, with its raw qualified name.
    End(Vec<u8>),
    /// Character data.
    Text,
    /// The raw bytes of a `<![CDATA[...]]>` section.
    CData(Vec<u8>),
    /// Any other markup: declarations, comments, processing instructions.
    Other,
    /// The end of the document.
    Eof,
    /// The document is not well-formed; the reader's message.
    Error(String),
}

/// An event as a mathematical value.
pub enum XmlEventView {
    Start,
    Empty,
    End(Seq<u8>),
    Text,
    CData(Seq<u8>),
    Other,
    Eof,
    Error(Seq<char>),
}

impl View for XmlEvent {
    type V = XmlEventView;

    open spec fn view(&self) -> XmlEventView {
        match self {
            XmlEvent::Start => XmlEventView::Start,
            XmlEvent::Empty => XmlEventView::Empty,
            XmlEvent::End(n) => XmlEventView::End(n@),
            XmlEvent::Text => XmlEventView::Text,
            XmlEvent::CData(b) => XmlEventView::CData(b@),
            XmlEvent::Other => XmlEventView::Other,
            XmlEvent::Eof => XmlEventView::Eof,
            XmlEvent::Error(m) => XmlEventView::Error(m@),
        }
    }
}

/// One attribute of a start tag: its raw key and its unescaped value (or the
/// unescaping error's message), or the message of a malformed attribute.
#[derive(Debug)]
pub enum XmlAttribute {
    Valid(Vec<u8>, Result<String, String>),
    Invalid(String),
}

/// An attribute as a mathematical value.
pub enum XmlAttributeView {
    Valid(Seq<u8>, Result<Seq<char>, Seq<char>>),
    Invalid(Seq<char>),
}

impl View for XmlAttribute {
    type V = XmlAttributeView;

    open spec fn view(&self) -> XmlAttributeView {
        match self {
            XmlAttribute::Valid(k, Ok(v)) => XmlAttributeView::Valid(k@, Ok(v@)),
            XmlAttribute::Valid(k, Err(e)) => XmlAttributeView::Valid(k@, Err(e@)),
            XmlAttribute::Invalid(m) => XmlAttributeView::Invalid(m@),
        }
    }
}

pub open spec fn attribute_views(attributes: Seq<XmlAttribute>) -> Seq<XmlAttributeView> {
    attributes.map_values(|a: XmlAttribute| a@)
}

/// The event that `Reader::read_event` gives at `position` (counting from 0)
/// for a reader made by `Reader::from_reader` on `body` with `trim_text(true)`.
pub uninterp spec fn xml_event_at(body: Seq<u8>, position: nat) -> XmlEventView;

/// The raw qualified name (`BytesStart::name`) of the start or empty tag read
/// at `position` from `body`.
pub uninterp spec fn xml_start_name_at(body: Seq<u8>, position: nat) -> Seq<u8>;

/// What `BytesText::unescape` gives for the text event read at `position`
/// from `body`: the unescaped text, or the error's message.
pub uninterp spec fn xml_text_at(body: Seq<u8>, position: nat) -> Result<Seq<char>, Seq<char>>;

/// The attributes, in document order and without duplicate checks, of the
/// start or empty tag read at `position` from `body`, as `BytesStart::attributes`
/// gives them, each value unescaped by `Attribute::unescape_value`.
pub uninterp spec fn xml_attributes_at(body: Seq<u8>, position: nat) -> Seq<XmlAttributeView>;

/// The text `String::from_utf8_lossy` makes of bytes.
pub uninterp spec fn utf8_lossy(bytes: Seq<u8>) -> Seq<char>;

/// An XML document being read: the bytes it was opened on, and how many
/// events have been read from it so far.
pub struct XmlDocument<'a> {
    reader: Reader<&'a [u8]>,
    last_start: Option<BytesStart<'a>>,
    last_text: Option<BytesText<'a>>,
    body: Ghost<Seq<u8>>,
    read: Ghost<nat>,
}

impl<'a> View for XmlDocument<'a> {
    type V = (Seq<u8>, nat);

    closed spec fn view(&self) -> (Seq<u8>, nat) {
        (self.body@, self.read@)
    }
}

/// Calls `quick_xml::Reader::from_reader` on a byte slice and then
/// `Reader::trim_text(true)`, so that text events are trimmed and blank ones
/// are skipped.
#[verifier::external_body]
fn xml_reader<'a>(body: &'a [u8]) -> Reader<&'a [u8]> {
    let mut reader = Reader::from_reader(body);
    reader.trim_text(true);
    reader
}

/// Opens a document on `body`; no event has been read yet.
pub fn open_xml<'a>(body: &'a [u8]) -> (d: XmlDocument<'a>)
    ensures
        d@ == (body@, 0nat),
{
    XmlDocument { reader: xml_reader(body), last_start: None, last_text: None, body: Ghost(body@), read: Ghost(0) }
}

/// Calls `Reader::read_event` and gives the event as plain values: its kind,
/// the raw name of an end tag (`BytesEnd::name`), the bytes of a CDATA
/// section, or the error's message. A start tag or text is kept for the
/// calls that read it. The contract names the event by the document's bytes
/// and the number of events read before it.
#[verifier::external_body]
pub(crate) fn xml_next_event<'a>(doc: &mut XmlDocument<'a>) -> (e: XmlEvent)
    ensures
        final(doc)@ == (old(doc)@.0, old(doc)@.1 + 1),
        e@ == xml_event_at(old(doc)@.0, old(doc)@.1),
{
    match doc.reader.read_event() {
        Ok(Event::Start(element)) => { doc.last_start = Some(element); XmlEvent::Start },
        Ok(Event::Empty(element)) => { doc.last_start = Some(element); XmlEvent::Empty },
        Ok(Event::End(element)) => XmlEvent::End(element.name().as_ref().to_vec()),
        Ok(Event::Text(text)) => { doc.last_text = Some(text); XmlEvent::Text },
        Ok(Event::CData(text)) => XmlEvent::CData(text.into_inner().into_owned()),
        Ok(Event::Eof) => XmlEvent::Eof,
        Ok(_) => XmlEvent::Other,
        Err(error) => XmlEvent::Error(error.to_string()),
    }
}

/// Calls `BytesStart::name` on the tag just read; the contract names the
/// raw name by the document's bytes and the tag's position.
#[verifier::external_body]
pub(crate) fn xml_last_name<'a>(doc: &XmlDocument<'a>) -> (name: Vec<u8>)
    requires
        doc@.1 > 0,
        xml_event_at(doc@.0, (doc@.1 - 1) as nat) is Start || xml_event_at(doc@.0, (doc@.1 - 1) as nat) is Empty,
    ensures
        name@ == xml_start_name_at(doc@.0, (doc@.1 - 1) as nat),
{
    match &doc.last_start {
        Some(element) => element.name().as_ref().to_vec(),
        None => Vec::new(),
    }
}

/// Calls `BytesText::unescape` on the text just read; the contract names the
/// result by the document's bytes and the text's position.
#[verifier::external_body]
pub(crate) fn xml_last_text<'a>(doc: &XmlDocument<'a>) -> (t: Result<String, String>)
    requires
        doc@.1 > 0,
        xml_event_at(doc@.0, (doc@.1 - 1) as nat) is Text,
    ensures
        match t {
            Ok(text) => xml_text_at(doc@.0, (doc@.1 - 1) as nat) == Ok::<Seq<char>, Seq<char>>(text@),
            Err(message) => xml_text_at(doc@.0, (doc@.1 - 1) as nat) == Err::<Seq<char>, Seq<char>>(message@),
        },
{
    match &doc.last_text {
        Some(text) => match text.unescape() {
            Ok(value) => Ok(value.into_owned()),
            Err(error) => Err(error.to_string()),
        },
        None => Ok(String::new()),
    }
}

/// Calls `BytesStart::attributes` with duplicate checks off on the tag just
/// read, and `Attribute::unescape_value` on each attribute, in document
/// order. The contract names the attributes by the document's bytes and the
/// tag's position.
#[verifier::external_body]
pub(crate) fn xml_last_attributes<'a>(doc: &XmlDocument<'a>) -> (a: Vec<XmlAttribute>)
    requires
        doc@.1 > 0,
        xml_event_at(doc@.0, (doc@.1 - 1) as nat) is Start || xml_event_at(doc@.0, (doc@.1 - 1) as nat) is Empty,
    ensures
        attribute_views(a@) == xml_attributes_at(doc@.0, (doc@.1 - 1) as nat),
{
    match &doc.last_start {
        Some(element) => element
            .attributes()
            .with_checks(false)
            .map(|attribute| match attribute {
                Ok(a) => XmlAttribute::Valid(a.key.as_ref().to_vec(), a.unescape_value().map(|v| v.into_owned()).map_err(|e| e.to_string())),
                Err(error) => XmlAttribute::Invalid(error.to_string()),
            })
            .collect(),
        None => Vec::new(),
    }
}

/// Calls `String::from_utf8_lossy`; the contract names its result, which
/// for valid UTF-8 is the text those bytes encode.
#[verifier::external_body]
pub(crate) fn lossy_utf8(bytes: &[u8]) -> (s: String)
    ensures
        s@ == utf8_lossy(bytes@),
        vstd::utf8::valid_utf8(bytes@) ==> vstd::utf8::encode_utf8(s@) == bytes@,
{
    String::from_utf8_lossy(bytes).into_owned()
}

} // verus!
