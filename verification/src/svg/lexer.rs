//! The tokenizer: `xml`'s pull reader behind a small trusted surface.
//!
//! Nothing here is proved. The contracts say of the reader what its source
//! and documentation show, over three names: what a document tokenizes to,
//! what a reader has still to yield, and the doctype text that a reader
//! reports.

use vstd::prelude::*;
use xml::attribute::OwnedAttribute;
use xml::name::OwnedName;
use xml::reader::EventReader;
use xml::reader::ParserConfig;
use xml::reader::XmlEvent::{
    CData, Characters, Comment, EndDocument, EndElement, StartDocument, StartElement, Whitespace,
};

use super::event::{Event, EventView, RawAttribute};
use super::node::text_view;

verus! {

/// One pull on the tokenizer: the event it yields, or none where it fails,
/// and the doctype text it reports once the pull is made. The event is as
/// pulled: a start tag in it carries no doctype text yet.
pub struct Step {
    pub event: Option<EventView>,
    pub doctype: Option<Seq<char>>,
}

impl Step {
    /// Whether the tokenizer yields nothing new after this step: it has
    /// failed, or the document has ended.
    pub open spec fn is_last(self) -> bool {
        self.event is None || self.event == Some(EventView::EndDocument)
    }

    /// The event of this step with the doctype text reported at it, or none
    /// where the tokenizer failed.
    pub open spec fn observed(self) -> Option<EventView> {
        match self.event {
            Some(event) => Some(event.reporting(self.doctype)),
            None => None,
        }
    }
}

/// The steps of the tokenizer on a document: what `EventReader::next` gives
/// pull by pull on a fresh reader over `input`, up to and including the
/// first step that is last.
pub uninterp spec fn tokenized(input: Seq<u8>) -> Seq<Step>;

/// The steps that a reader has still to make.
pub uninterp spec fn pending(lexer: Lexer) -> Seq<Step>;

/// The doctype text that a reader reports at present: what
/// `EventReader::doctype` gives.
pub uninterp spec fn reported_doctype(lexer: Lexer) -> Option<Seq<char>>;

/// A sequence of steps that ends, and ends with a last step.
pub open spec fn closed(steps: Seq<Step>) -> bool {
    steps.len() > 0 && steps.last().is_last()
}

/// A sequence of steps that begins as a document does: the start of the
/// document is its first event, and comes once.
pub open spec fn headed(steps: Seq<Step>) -> bool {
    forall|i: int|
        0 <= i < steps.len() ==> ((#[trigger] steps[i]).event matches Some(event) ==> (event
            is StartDocument <==> i == 0))
}

/// What a pull gave, as a step's event.
pub open spec fn drawn(pulled: Result<Event, xml::reader::Error>) -> Option<EventView> {
    match pulled {
        Ok(event) => Some(event@),
        Err(_) => None,
    }
}

/// A pull reader over a document held in memory.
#[verifier::external_body]
pub struct Lexer<'a> {
    reader: EventReader<&'a [u8]>,
}

#[verifier::external_type_specification]
#[verifier::external_body]
pub struct ExReaderError(xml::reader::Error);

impl<'a> Lexer<'a> {
    /// `ParserConfig::create_reader`, with comments and white space at the
    /// root level kept, and the end of the input taken as the end of the
    /// document. The reader has the document's steps before it. They end,
    /// since `EventReader::next` ends the stream with `EndDocument` or an
    /// error once the input is used up; and `StartDocument` "is always
    /// emitted before any other event", also where the document declares
    /// nothing.
    #[verifier::external_body]
    pub(crate) fn open(input: &'a [u8]) -> (lexer: Lexer<'a>)
        ensures
            pending(lexer) == tokenized(input@),
            closed(pending(lexer)),
            headed(pending(lexer)),
    {
        Lexer {
            reader: ParserConfig::new()
                .ignore_comments(false)
                .ignore_end_of_stream(false)
                .ignore_root_level_whitespace(false)
                .ignore_invalid_encoding_declarations(false)
                .create_reader(input),
        }
    }

    /// `EventReader::next`, its event moved into an [`Event`] field by field:
    /// a version as its literal, a name as its local name, the bindings in
    /// the order of their prefixes, a start tag without doctype text, which
    /// the reader reports apart, and any other event as its description.
    /// While steps are pending the pull makes the first of them: it gives
    /// that step's event, and the reader then reports that step's doctype
    /// text.
    #[verifier::external_body]
    pub(crate) fn pull(&mut self) -> (pulled: Result<Event, xml::reader::Error>)
        ensures
            pending(*old(self)).len() > 0 ==> {
                &&& drawn(pulled) == pending(*old(self))[0].event
                &&& pending(*final(self)) == pending(*old(self)).skip(1)
                &&& reported_doctype(*final(self)) == pending(*old(self))[0].doctype
            },
    {
        Ok(match self.reader.next()? {
            StartDocument { version, encoding, .. } => Event::StartDocument { version: version.to_string(), encoding },
            EndDocument => Event::EndDocument,
            StartElement { name, attributes, namespace } => Event::StartElement {
                name: name.local_name,
                attributes: attributes.into_iter().map(|OwnedAttribute { name: OwnedName { local_name, namespace, prefix }, value }|
                    RawAttribute { local_name, namespace, prefix, value }).collect(),
                bindings: Vec::from_iter(namespace.0),
                doctype: None },
            EndElement { name } => Event::EndElement { name: name.local_name },
            CData(text) => Event::CData(text),
            Comment(text) => Event::Comment(text),
            Characters(text) => Event::Characters(text),
            Whitespace(text) => Event::Whitespace(text),
            other => Event::Ignored(format!("{other:?}")) })
    }

    /// `EventReader::doctype`: the doctype text that the reader reports at
    /// present.
    #[verifier::external_body]
    pub(crate) fn doctype(&self) -> (text: Option<String>)
        ensures
            text_view(text) == reported_doctype(*self),
    {
        self.reader.doctype().map(str::to_owned)
    }
}

} // verus!
