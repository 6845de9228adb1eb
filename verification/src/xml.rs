//! XML event stream. quick_xml does the lexing behind a small trusted layer
//! whose contracts name the lexed stream of the input bytes (`lexed_events`);
//! everything downstream works on the plain `XmlEvent` values built here and
//! is specified against that stream.

use vstd::prelude::*;

verus! {

// ─────────────────────────────────────────────────────────────────────────────
// Plain event model
// ─────────────────────────────────────────────────────────────────────────────

pub struct AttrV {
    pub key: Seq<char>,
    pub value: Seq<char>,
}

/// One attribute of an XML tag, with its raw (unexpanded) value.
#[derive(Debug, PartialEq)]
pub struct Attr {
    pub key: String,
    pub value: String,
}

impl DeepView for Attr {
    type V = AttrV;

    open spec fn deep_view(&self) -> AttrV {
        AttrV { key: self.key@, value: self.value@ }
    }
}

pub enum XmlEventV {
    Open { tag: Seq<char>, attrs: Seq<AttrV> },
    Empty { tag: Seq<char>, attrs: Seq<AttrV> },
    Close { tag: Seq<char> },
    Text { content: Seq<char> },
    Fault { offset: u64, message: Seq<char> },
}

/// One XML event: tags carry their local name (namespace prefixes stripped)
/// and their attributes; a malformed stream ends in a single `Fault`.
#[derive(Debug, PartialEq)]
pub enum XmlEvent {
    Open { tag: String, attrs: Vec<Attr> },
    Empty { tag: String, attrs: Vec<Attr> },
    Close { tag: String },
    Text { content: String },
    Fault { offset: u64, message: String },
}

impl DeepView for XmlEvent {
    type V = XmlEventV;

    open spec fn deep_view(&self) -> XmlEventV {
        match self {
            XmlEvent::Open { tag, attrs } => XmlEventV::Open {
                tag: tag@,
                attrs: attrs.deep_view(),
            },
            XmlEvent::Empty { tag, attrs } => XmlEventV::Empty {
                tag: tag@,
                attrs: attrs.deep_view(),
            },
            XmlEvent::Close { tag } => XmlEventV::Close { tag: tag@ },
            XmlEvent::Text { content } => XmlEventV::Text { content: content@ },
            XmlEvent::Fault { offset, message } => XmlEventV::Fault {
                offset: *offset,
                message: message@,
            },
        }
    }
}

// ─────────────────────────────────────────────────────────────────────────────
// Trusted layer over quick_xml
// ─────────────────────────────────────────────────────────────────────────────

#[verifier::external_type_specification]
#[verifier::external_body]
#[verifier::reject_recursive_types(R)]
pub struct ExReader<R>(quick_xml::reader::Reader<R>);

#[verifier::external_type_specification]
#[verifier::external_body]
pub struct ExBytesStart<'a>(quick_xml::events::BytesStart<'a>);

#[verifier::external_type_specification]
#[verifier::external_body]
pub struct ExBytesEnd<'a>(quick_xml::events::BytesEnd<'a>);

#[verifier::external_type_specification]
#[verifier::external_body]
pub struct ExBytesText<'a>(quick_xml::events::BytesText<'a>);

#[verifier::external_type_specification]
#[verifier::external_body]
pub struct ExAttributes<'a>(quick_xml::events::attributes::Attributes<'a>);

#[verifier::external_type_specification]
#[verifier::external_body]
pub struct ExAttribute<'a>(quick_xml::events::attributes::Attribute<'a>);

#[verifier::external_type_specification]
#[verifier::external_body]
pub struct ExAttrError(quick_xml::events::attributes::AttrError);

#[verifier::external_type_specification]
#[verifier::external_body]
pub struct ExBytesRef<'a>(quick_xml::events::BytesRef<'a>);

/// The event stream quick_xml lexes from the given bytes, as delivered here:
/// local tag names with their attributes, text and general references as
/// they stand in the source, comments, declarations, processing
/// instructions and CDATA left out, ended by the first lexing fault if
/// there is one. Lexing a slice is a function of the bytes alone, so the
/// stream has a name.
pub uninterp spec fn lexed_events(raw: Seq<u8>) -> Seq<XmlEventV>;

/// The part of `lexed_events` a reader has not delivered yet.
pub uninterp spec fn reader_rest(r: quick_xml::reader::Reader<&[u8]>) -> Seq<XmlEventV>;

/// The reader's remaining lexing steps; each event the reader hands out
/// consumes input, so this falls with every step and bounds the loop below.
pub uninterp spec fn reader_fuel(r: quick_xml::reader::Reader<&[u8]>) -> nat;

/// The local name of an opening or empty tag, prefix stripped.
pub uninterp spec fn start_tag(e: quick_xml::events::BytesStart) -> Seq<char>;

/// The tag's well-formed attributes in order: full key, raw value.
pub uninterp spec fn start_attrs(e: quick_xml::events::BytesStart) -> Seq<AttrV>;

/// The local name of a closing tag, prefix stripped.
pub uninterp spec fn end_tag(e: quick_xml::events::BytesEnd) -> Seq<char>;

/// The content of a text event as it stands in the source.
pub uninterp spec fn text_content(t: quick_xml::events::BytesText) -> Seq<char>;

/// The source span of a general reference, ampersand and semicolon included.
pub uninterp spec fn ref_text(e: quick_xml::events::BytesRef) -> Seq<char>;

/// The well-formed attributes an attribute iterator has not delivered yet.
pub uninterp spec fn attrs_rest(it: quick_xml::events::attributes::Attributes) -> Seq<AttrV>;

/// The attribute iterator's remaining steps (malformed attributes take a
/// step without delivering anything).
pub uninterp spec fn attrs_fuel(it: quick_xml::events::attributes::Attributes) -> nat;

/// One step of the lexer, with the borrowed payloads still in quick_xml's
/// types; `Ref` is a general reference inside text, kept as it stands in
/// the source; `Skip` covers comments, declarations, processing
/// instructions and CDATA, which this parser ignores.
enum RawEvent<'a> {
    Open(quick_xml::events::BytesStart<'a>),
    Empty(quick_xml::events::BytesStart<'a>),
    Close(quick_xml::events::BytesEnd<'a>),
    Text(quick_xml::events::BytesText<'a>),
    Ref(quick_xml::events::BytesRef<'a>),
    Skip,
    Eof,
    Fault(u64, String),
}

/// Relies on quick_xml::reader::Reader::from_reader: a fresh reader over the
/// bytes, whose stream is exactly what the bytes lex to.
#[verifier::external_body]
fn reader_from<'a>(raw: &'a [u8]) -> (r: quick_xml::reader::Reader<&'a [u8]>)
    ensures
        reader_rest(r) == lexed_events(raw@),
{
    quick_xml::reader::Reader::from_reader(raw)
}

/// Relies on quick_xml::reader::Reader::read_event: the next event of the
/// stream. A delivered event is the head of the reader's remaining stream
/// and leaves the tail; a skipped event leaves the stream as it was; end of
/// input comes exactly when the stream is exhausted; a lexing error is the
/// stream's single remaining element, with the byte offset reached. Every
/// step before end of input consumes input, so the fuel falls.
#[verifier::external_body]
fn next_raw_event<'a>(r: &mut quick_xml::reader::Reader<&'a [u8]>) -> (ev: RawEvent<'a>)
    ensures
        match ev {
            RawEvent::Open(e) => reader_rest(*old(r)).len() > 0 && reader_rest(*old(r))[0]
                == (XmlEventV::Open { tag: start_tag(e), attrs: start_attrs(e) }) && reader_rest(
                *final(r),
            ) == reader_rest(*old(r)).drop_first() && reader_fuel(*final(r)) < reader_fuel(
                *old(r),
            ),
            RawEvent::Empty(e) => reader_rest(*old(r)).len() > 0 && reader_rest(*old(r))[0]
                == (XmlEventV::Empty { tag: start_tag(e), attrs: start_attrs(e) }) && reader_rest(
                *final(r),
            ) == reader_rest(*old(r)).drop_first() && reader_fuel(*final(r)) < reader_fuel(
                *old(r),
            ),
            RawEvent::Close(e) => reader_rest(*old(r)).len() > 0 && reader_rest(*old(r))[0]
                == (XmlEventV::Close { tag: end_tag(e) }) && reader_rest(*final(r)) == reader_rest(
                *old(r),
            ).drop_first() && reader_fuel(*final(r)) < reader_fuel(*old(r)),
            RawEvent::Text(t) => reader_rest(*old(r)).len() > 0 && reader_rest(*old(r))[0]
                == (XmlEventV::Text { content: text_content(t) }) && reader_rest(*final(r))
                == reader_rest(*old(r)).drop_first() && reader_fuel(*final(r)) < reader_fuel(
                *old(r),
            ),
            RawEvent::Ref(e) => reader_rest(*old(r)).len() > 0 && reader_rest(*old(r))[0]
                == (XmlEventV::Text { content: ref_text(e) }) && reader_rest(*final(r))
                == reader_rest(*old(r)).drop_first() && reader_fuel(*final(r)) < reader_fuel(
                *old(r),
            ),
            RawEvent::Skip => reader_rest(*final(r)) == reader_rest(*old(r)) && reader_fuel(
                *final(r),
            ) < reader_fuel(*old(r)),
            RawEvent::Eof => reader_rest(*old(r)).len() == 0 && reader_rest(*final(r))
                == reader_rest(*old(r)),
            RawEvent::Fault(offset, message) => reader_rest(*old(r)) == seq![
                XmlEventV::Fault { offset, message: message@ },
            ],
        },
{
    match r.read_event() {
        Ok(quick_xml::events::Event::Start(e)) => RawEvent::Open(e),
        Ok(quick_xml::events::Event::Empty(e)) => RawEvent::Empty(e),
        Ok(quick_xml::events::Event::End(e)) => RawEvent::Close(e),
        Ok(quick_xml::events::Event::Text(t)) => RawEvent::Text(t),
        Ok(quick_xml::events::Event::GeneralRef(e)) => RawEvent::Ref(e),
        Ok(quick_xml::events::Event::Eof) => RawEvent::Eof,
        Ok(_) => RawEvent::Skip,
        Err(e) => RawEvent::Fault(r.buffer_position(), e.to_string()),
    }
}

/// Relies on quick_xml::events::BytesStart::local_name: the tag name with any
/// namespace prefix stripped.
#[verifier::external_body]
fn start_tag_of(e: &quick_xml::events::BytesStart) -> (r: String)
    ensures
        r@ == start_tag(*e),
{
    e.local_name().as_ref().to_string()
}

/// Relies on quick_xml::events::BytesEnd::local_name: the closing tag name
/// with any namespace prefix stripped.
#[verifier::external_body]
fn end_tag_of(e: &quick_xml::events::BytesEnd) -> (r: String)
    ensures
        r@ == end_tag(*e),
{
    e.local_name().as_ref().to_string()
}

/// Relies on quick_xml::events::BytesText::into_inner: the text content as it
/// stands in the source.
#[verifier::external_body]
fn text_content_of(t: quick_xml::events::BytesText) -> (r: String)
    ensures
        r@ == text_content(t),
{
    t.into_inner().into_owned()
}

/// Relies on quick_xml::events::BytesRef::into_inner: the referenced name,
/// around which the source span is rebuilt, ampersand and semicolon
/// included — the reference as it stands in the source.
#[verifier::external_body]
fn ref_text_of(e: quick_xml::events::BytesRef) -> (r: String)
    ensures
        r@ == ref_text(e),
{
    let mut s = String::from("&");
    s.push_str(&e.into_inner());
    s.push(';');
    s
}

/// Relies on quick_xml::events::BytesStart::attributes: an iterator that
/// will deliver exactly the tag's well-formed attributes, in order.
#[verifier::external_body]
fn attributes_of<'s>(e: &'s quick_xml::events::BytesStart<'s>) -> (it: quick_xml::events::attributes::Attributes<'s>)
    ensures
        attrs_rest(it) == start_attrs(*e),
{
    e.attributes()
}

/// Relies on quick_xml::events::attributes::Attributes::next: the next
/// attribute, converted to plain strings (the full key, the raw value). A
/// delivered attribute is the head of the iterator's remaining list; a
/// malformed one (`Some(None)`) delivers nothing; `None` comes exactly when
/// the list is exhausted. Every step consumes tag text, so the fuel falls.
#[verifier::external_body]
fn next_attr(it: &mut quick_xml::events::attributes::Attributes) -> (r: Option<Option<Attr>>)
    ensures
        match r {
            None => attrs_rest(*old(it)).len() == 0 && attrs_rest(*final(it)) == attrs_rest(
                *old(it),
            ),
            Some(None) => attrs_rest(*final(it)) == attrs_rest(*old(it)) && attrs_fuel(*final(it))
                < attrs_fuel(*old(it)),
            Some(Some(a)) => attrs_rest(*old(it)).len() > 0 && a.deep_view() == attrs_rest(
                *old(it),
            )[0] && attrs_rest(*final(it)) == attrs_rest(*old(it)).drop_first() && attrs_fuel(
                *final(it),
            ) < attrs_fuel(*old(it)),
        },
{
    match it.next() {
        None => None,
        Some(Err(_)) => Some(None),
        Some(Ok(a)) => Some(Some(Attr {
            key: a.key.as_ref().to_string(),
            value: a.value.into_owned(),
        })),
    }
}

// ─────────────────────────────────────────────────────────────────────────────
// Verified event collection
// ─────────────────────────────────────────────────────────────────────────────

/// Drains the attribute iterator of a tag into plain pairs, skipping
/// malformed attributes as the original reader does.
fn collect_attrs(e: &quick_xml::events::BytesStart) -> (out: Vec<Attr>)
    ensures
        out.deep_view() == start_attrs(*e),
{
    let mut it = attributes_of(e);
    let mut out: Vec<Attr> = Vec::new();
    proof {
        assert(out.deep_view() + attrs_rest(it) =~= start_attrs(*e));
    }
    loop
        invariant
            start_attrs(*e) == out.deep_view() + attrs_rest(it),
        decreases attrs_fuel(it),
    {
        match next_attr(&mut it) {
            None => {
                proof {
                    assert(out.deep_view() + attrs_rest(it) =~= out.deep_view());
                }
                return out;
            },
            Some(None) => {},
            Some(Some(a)) => {
                let ghost av = a.deep_view();
                crate::model::push_dv(&mut out, a);
                proof {
                    assert(out.deep_view() + attrs_rest(it) =~= start_attrs(*e));
                }
            },
        }
    }
}

/// Runs the lexer over the whole input: the result is exactly the lexed
/// event stream of the bytes. Only the last event can be a `Fault`; lexing
/// stops there.
pub fn tokenize(raw: &[u8]) -> (events: Vec<XmlEvent>)
    ensures
        events.deep_view() == lexed_events(raw@),
        forall|i: int|
            0 <= i < events.deep_view().len() - 1 ==> !(events.deep_view()[i] is Fault),
{
    let mut reader = reader_from(raw);
    let mut out: Vec<XmlEvent> = Vec::new();
    proof {
        assert(out.deep_view() + reader_rest(reader) =~= lexed_events(raw@));
    }
    loop
        invariant
            lexed_events(raw@) == out.deep_view() + reader_rest(reader),
            forall|i: int| 0 <= i < out.deep_view().len() ==> !(out.deep_view()[i] is Fault),
        decreases reader_fuel(reader),
    {
        let ghost rest0 = reader_rest(reader);
        match next_raw_event(&mut reader) {
            RawEvent::Open(e) => {
                let tag = start_tag_of(&e);
                let attrs = collect_attrs(&e);
                crate::model::push_dv(&mut out, XmlEvent::Open { tag, attrs });
                proof {
                    assert(out.deep_view() + reader_rest(reader) =~= lexed_events(raw@));
                }
            },
            RawEvent::Empty(e) => {
                let tag = start_tag_of(&e);
                let attrs = collect_attrs(&e);
                crate::model::push_dv(&mut out, XmlEvent::Empty { tag, attrs });
                proof {
                    assert(out.deep_view() + reader_rest(reader) =~= lexed_events(raw@));
                }
            },
            RawEvent::Close(e) => {
                let tag = end_tag_of(&e);
                crate::model::push_dv(&mut out, XmlEvent::Close { tag });
                proof {
                    assert(out.deep_view() + reader_rest(reader) =~= lexed_events(raw@));
                }
            },
            RawEvent::Text(t) => {
                let content = text_content_of(t);
                crate::model::push_dv(&mut out, XmlEvent::Text { content });
                proof {
                    assert(out.deep_view() + reader_rest(reader) =~= lexed_events(raw@));
                }
            },
            RawEvent::Ref(e) => {
                let content = ref_text_of(e);
                crate::model::push_dv(&mut out, XmlEvent::Text { content });
                proof {
                    assert(out.deep_view() + reader_rest(reader) =~= lexed_events(raw@));
                }
            },
            RawEvent::Skip => {},
            RawEvent::Eof => {
                proof {
                    assert(out.deep_view() + reader_rest(reader) =~= out.deep_view());
                }
                return out;
            },
            RawEvent::Fault(offset, message) => {
                crate::model::push_dv(&mut out, XmlEvent::Fault { offset, message });
                proof {
                    assert(out.deep_view() =~= lexed_events(raw@));
                }
                return out;
            },
        }
    }
}

} // verus!
