//! The emitter: `xml`'s event writer over a buffer in memory, behind a small
//! trusted surface.
//!
//! Nothing here is proved. The contracts say of the writer what its source
//! shows, over three names: what a writer has taken so far, whether it takes
//! one more piece of markup, and the text that it holds in the end.

use std::borrow::Cow;

use vstd::prelude::*;
use xml::attribute::Attribute;
use xml::common::XmlVersion;
use xml::name::Name;
use xml::namespace::Namespace;
use xml::writer::{EventWriter, XmlEvent};

use super::markup::{Markup, MarkupView, PieceView};
use super::node::Version;

verus! {

/// The pieces that a writer has taken, in order.
pub uninterp spec fn composed(writer: EventWriter<Vec<u8>>) -> Seq<PieceView>;

/// Whether a writer that has taken `pieces` takes `markup` next: whether
/// `EventWriter::write` gives `Ok` for it.
pub uninterp spec fn accepts(pieces: Seq<PieceView>, markup: MarkupView) -> bool;

/// The text that a writer holds once it has taken `pieces`: what
/// `EventWriter::into_inner` gives.
pub uninterp spec fn rendering(pieces: Seq<PieceView>) -> Seq<u8>;

#[verifier::external_type_specification]
#[verifier::external_body]
#[verifier::reject_recursive_types(W)]
pub struct ExEventWriter<W>(EventWriter<W>);

#[verifier::external_type_specification]
#[verifier::external_body]
pub struct ExWriterError(xml::writer::Error);

/// `EventWriter::new` over an empty buffer: a writer with the default
/// configuration, which has taken nothing.
#[verifier::external_body]
pub(crate) fn open() -> (writer: EventWriter<Vec<u8>>)
    ensures
        composed(writer) == Seq::<PieceView>::empty(),
{
    EventWriter::new(Vec::new())
}

/// `EventWriter::write`, on the event that stands for `markup`: an element's
/// name is local, an attribute's name has the parts given, no namespace
/// binding is handed over. Whether the writer takes the markup depends on
/// what it has taken before; once taken, the markup is the last piece.
#[verifier::external_body]
pub(crate) fn emit(writer: &mut EventWriter<Vec<u8>>, markup: &Markup) -> (outcome: Result<
    (),
    xml::writer::Error,
>)
    ensures
        outcome is Ok <==> accepts(composed(*old(writer)), markup@),
        outcome is Ok ==> composed(*final(writer)) == composed(*old(writer)).push(
            PieceView::Markup(markup@),
        ),
{
    writer.write(match *markup {
        Markup::StartDocument(version) => XmlEvent::StartDocument {
            version: match version { Version::Version10 => XmlVersion::Version10, Version::Version11 => XmlVersion::Version11 },
            encoding: None, standalone: None },
        Markup::StartElement { name, ref attributes } => XmlEvent::StartElement {
            name: Name::local(name),
            attributes: attributes.iter().map(|a| Attribute {
                name: Name { local_name: a.local_name, namespace: a.namespace, prefix: a.prefix },
                value: a.value }).collect(),
            namespace: Cow::Owned(Namespace::empty()) },
        Markup::EndElement => XmlEvent::EndElement { name: None },
        Markup::Comment(text) => XmlEvent::Comment(text),
        Markup::CData(text) => XmlEvent::CData(text),
        Markup::Characters(text) => XmlEvent::Characters(text) })
}

/// `EventWriter::inner_mut`, and the text appended to the buffer behind the
/// writer's back: the text is the last piece, and the writer is as before
/// otherwise.
#[verifier::external_body]
pub(crate) fn append_verbatim(writer: &mut EventWriter<Vec<u8>>, text: &str)
    ensures
        composed(*final(writer)) == composed(*old(writer)).push(PieceView::Verbatim(text@)),
{
    writer.inner_mut().extend_from_slice(text.as_bytes())
}

/// `EventWriter::into_inner`: the buffer, with the text of all that the
/// writer has taken.
#[verifier::external_body]
pub(crate) fn close(writer: EventWriter<Vec<u8>>) -> (text: Vec<u8>)
    ensures
        text@ == rendering(composed(writer)),
{
    writer.into_inner()
}

} // verus!
