//! Markup: what the writer is handed for the nodes of a document.

use vstd::prelude::*;

use super::event::RawAttributeView;
use super::node::Version;

verus! {

/// An attribute as the writer takes it: the parts of its qualified name,
/// and its value.
#[derive(Clone, Copy, Debug, PartialEq, Eq)]
pub struct QualifiedAttribute<'a> {
    pub local_name: &'a str,
    pub namespace: Option<&'a str>,
    pub prefix: Option<&'a str>,
    pub value: &'a str,
}

/// The model of an optional string slice.
pub open spec fn slice_view(text: Option<&str>) -> Option<Seq<char>> {
    match text {
        Some(text) => Some(text@),
        None => None,
    }
}

impl View for QualifiedAttribute<'_> {
    type V = RawAttributeView;

    open spec fn view(&self) -> RawAttributeView {
        RawAttributeView {
            local_name: self.local_name@,
            namespace: slice_view(self.namespace),
            prefix: slice_view(self.prefix),
            value: self.value@,
        }
    }
}

/// The models of a sequence of qualified attributes, in order.
pub open spec fn qualified_views(attributes: Seq<QualifiedAttribute>) -> Seq<RawAttributeView> {
    attributes.map_values(|attribute: QualifiedAttribute| attribute@)
}

/// One piece of markup for the writer.
#[derive(Clone, Debug, PartialEq, Eq)]
pub enum Markup<'a> {
    /// The XML declaration, with the version; the encoding is the writer's.
    StartDocument(Version),
    /// A start tag, with its attributes in order.
    StartElement { name: &'a str, attributes: Vec<QualifiedAttribute<'a>> },
    /// The end tag of the element that is open.
    EndElement,
    /// A comment.
    Comment(&'a str),
    /// A `CDATA` section.
    CData(&'a str),
    /// Character data.
    Characters(&'a str),
}

/// The model of a [`Markup`].
pub enum MarkupView {
    StartDocument(Version),
    StartElement { name: Seq<char>, attributes: Seq<RawAttributeView> },
    EndElement,
    Comment(Seq<char>),
    CData(Seq<char>),
    Characters(Seq<char>),
}

impl View for Markup<'_> {
    type V = MarkupView;

    open spec fn view(&self) -> MarkupView {
        match *self {
            Markup::StartDocument(version) => MarkupView::StartDocument(version),
            Markup::StartElement { name, attributes } => MarkupView::StartElement {
                name: name@,
                attributes: qualified_views(attributes@),
            },
            Markup::EndElement => MarkupView::EndElement,
            Markup::Comment(text) => MarkupView::Comment(text@),
            Markup::CData(text) => MarkupView::CData(text@),
            Markup::Characters(text) => MarkupView::Characters(text@),
        }
    }
}

/// One piece of a written document: text that goes out as it is, or markup
/// that the writer renders.
pub enum PieceView {
    Verbatim(Seq<char>),
    Markup(MarkupView),
}

} // verus!
