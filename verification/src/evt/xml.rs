//! Event XML read token by token with quick-xml.
//!
//! The reader itself stays in quick-xml. What it yields is handed to the
//! library as plain bytes ([`XmlStep`]), and the attribute lists of tags as
//! plain key and value bytes ([`XmlAttr`]).

use vstd::prelude::*;
use vstd::utf8::{decode_utf8, encode_utf8};

verus! {

#[verifier::external_type_specification]
#[verifier::external_body]
#[verifier::reject_recursive_types(R)]
pub struct ExXmlReader<R>(quick_xml::Reader<R>);

/// One token of an XML text, as plain bytes.
pub enum XmlStep {
    /// An opening tag: the bytes between `<` and `>`, and the length of the
    /// tag name at their start.
    Start { content: Vec<u8>, name_len: usize },
    /// A self-closing tag, laid out as [`XmlStep::Start`].
    Empty { content: Vec<u8>, name_len: usize },
    /// A closing tag and its name.
    End { name: Vec<u8> },
    /// Character data between tags, still escaped.
    Text { raw: Vec<u8> },
    /// The end of the text.
    Eof,
    /// The reader reported malformed XML.
    Failed,
    /// Anything else: comments, declarations, CDATA and the like.
    Other,
}

/// The plain contents of an [`XmlStep`].
pub enum XmlToken {
    Start(Seq<u8>, nat),
    Empty(Seq<u8>, nat),
    End(Seq<u8>),
    Text(Seq<u8>),
    Eof,
    Failed,
    Other,
}

impl View for XmlStep {
    type V = XmlToken;

    open spec fn view(&self) -> XmlToken {
        match self {
            XmlStep::Start { content, name_len } => XmlToken::Start(content@, *name_len as nat),
            XmlStep::Empty { content, name_len } => XmlToken::Empty(content@, *name_len as nat),
            XmlStep::End { name } => XmlToken::End(name@),
            XmlStep::Text { raw } => XmlToken::Text(raw@),
            XmlStep::Eof => XmlToken::Eof,
            XmlStep::Failed => XmlToken::Failed,
            XmlStep::Other => XmlToken::Other,
        }
    }
}

/// A tag's name lies within its content.
pub open spec fn token_well_formed(t: XmlToken) -> bool {
    match t {
        XmlToken::Start(c, n) => n <= c.len(),
        XmlToken::Empty(c, n) => n <= c.len(),
        _ => true,
    }
}

/// One attribute of a tag: its key and its raw (still escaped) value.
pub struct XmlAttr {
    pub key: Vec<u8>,
    pub value: Vec<u8>,
}

/// Attribute lists as plain bytes; `None` stands for a malformed attribute.
pub open spec fn attrs_view(v: Seq<Option<XmlAttr>>) -> Seq<Option<(Seq<u8>, Seq<u8>)>> {
    v.map_values(
        |a: Option<XmlAttr>|
            match a {
                Some(x) => Some((x.key@, x.value@)),
                None => None,
            },
    )
}

/// The token that the `index`-th read of a text-trimming quick-xml reader
/// made over `text` yields.
pub uninterp spec fn xml_token_at(text: Seq<char>, index: nat) -> XmlToken;

/// The attributes that quick-xml's attribute iterator yields, in order, over
/// the content of a tag whose name is `name_len` bytes long.
pub uninterp spec fn xml_tag_attributes(content: Seq<char>, name_len: nat) -> Seq<
    Option<(Seq<u8>, Seq<u8>)>,
>;

/// `Reader::from_str`: a reader over the text.
#[verifier::external_body]
fn reader_from_str<'a>(xml: &'a str) -> quick_xml::Reader<&'a [u8]> {
    quick_xml::Reader::from_str(xml)
}

/// `Config::trim_text(true)` on the reader's `config_mut()`: whitespace
/// around character data is dropped, and blank character data is skipped.
#[verifier::external_body]
fn enable_trim_text<'a>(reader: &mut quick_xml::Reader<&'a [u8]>) {
    reader.config_mut().trim_text(true);
}

/// A quick-xml reader over a text, with the text it reads and the number of
/// tokens it has handed out so far. Only [`XmlCursor::new`] makes one and only
/// [`read_step`] advances it, so the reader always stands where those two say.
pub struct XmlCursor<'a> {
    reader: quick_xml::Reader<&'a [u8]>,
    text: Ghost<Seq<char>>,
    index: Ghost<nat>,
}

impl<'a> XmlCursor<'a> {
    /// The text being read.
    pub closed spec fn text(&self) -> Seq<char> {
        self.text@
    }

    /// How many tokens have been read.
    pub closed spec fn index(&self) -> nat {
        self.index@
    }

    /// A text-trimming reader at the start of `xml`.
    pub fn new(xml: &'a str) -> (r: Self)
        ensures
            r.text() == xml@,
            r.index() == 0,
    {
        let mut reader = reader_from_str(xml);
        enable_trim_text(&mut reader);
        XmlCursor { reader, text: Ghost(xml@), index: Ghost(0) }
    }
}

/// `Reader::read_event`: the next token, with each event's bytes copied out
/// (`BytesStart` and `BytesText` dereference to the raw bytes, and a start
/// tag's name is the first `name().len()` of them).
#[verifier::external_body]
pub fn read_step<'a>(cur: &mut XmlCursor<'a>) -> (r: XmlStep)
    ensures
        r@ == xml_token_at(old(cur).text(), old(cur).index()),
        token_well_formed(r@),
        final(cur).text() == old(cur).text(),
        final(cur).index() == old(cur).index() + 1,
{
    match cur.reader.read_event() {
        Ok(quick_xml::events::Event::Start(e)) => XmlStep::Start {
            content: e.to_vec(),
            name_len: e.name().as_ref().len(),
        },
        Ok(quick_xml::events::Event::Empty(e)) => XmlStep::Empty {
            content: e.to_vec(),
            name_len: e.name().as_ref().len(),
        },
        Ok(quick_xml::events::Event::End(e)) => XmlStep::End { name: e.name().as_ref().to_vec() },
        Ok(quick_xml::events::Event::Text(e)) => XmlStep::Text { raw: e.to_vec() },
        Ok(quick_xml::events::Event::Eof) => XmlStep::Eof,
        Ok(_) => XmlStep::Other,
        Err(_) => XmlStep::Failed,
    }
}

/// `Attributes::new`: the attributes of a tag's content after its name, in
/// order, each malformed one as `None`.
#[verifier::external_body]
pub fn tag_attributes(content: &str, name_len: usize) -> (r: Vec<Option<XmlAttr>>)
    requires
        name_len <= encode_utf8(content@).len(),
    ensures
        attrs_view(r@) == xml_tag_attributes(content@, name_len as nat),
{
    let mut out = Vec::new();
    for a in quick_xml::events::attributes::Attributes::new(content, name_len) {
        out.push(match a {
            Ok(a) => Some(XmlAttr { key: a.key.as_ref().to_vec(), value: a.value.to_vec() }),
            Err(_) => None,
        });
    }
    out
}

} // verus!
