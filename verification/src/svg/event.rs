//! Lexical events: what a tokenizer reports of a document, as plain values.

use vstd::prelude::*;

use super::node::text_view;

verus! {

/// An attribute as a tokenizer reports it: the local name, the namespace URI
/// and the prefix of its qualified name, where it has them, and its value.
#[derive(Clone, Debug, PartialEq, Eq)]
pub struct RawAttribute {
    pub local_name: String,
    pub namespace: Option<String>,
    pub prefix: Option<String>,
    pub value: String,
}

/// The model of a [`RawAttribute`].
pub struct RawAttributeView {
    pub local_name: Seq<char>,
    pub namespace: Option<Seq<char>>,
    pub prefix: Option<Seq<char>>,
    pub value: Seq<char>,
}

impl View for RawAttribute {
    type V = RawAttributeView;

    open spec fn view(&self) -> RawAttributeView {
        RawAttributeView {
            local_name: self.local_name@,
            namespace: text_view(self.namespace),
            prefix: text_view(self.prefix),
            value: self.value@,
        }
    }
}

/// The models of a sequence of raw attributes, in order.
pub open spec fn raw_attribute_views(attributes: Seq<RawAttribute>) -> Seq<RawAttributeView> {
    attributes.map_values(|attribute: RawAttribute| attribute@)
}

/// The models of a sequence of namespace bindings, in order: each is a
/// prefix and the URI it is bound to.
pub open spec fn binding_views(bindings: Seq<(String, String)>) -> Seq<(Seq<char>, Seq<char>)> {
    bindings.map_values(|binding: (String, String)| (binding.0@, binding.1@))
}

/// One lexical event of a document.
#[derive(Clone, Debug, PartialEq, Eq)]
pub enum Event {
    /// The start of the document, with the declared version as a literal.
    StartDocument { version: String, encoding: String },
    /// The end of the document.
    EndDocument,
    /// A start tag: its local name, its attributes in source order, the
    /// namespace bindings in force at the tag, and the doctype text that the
    /// tokenizer reports at this point, if it reports any.
    StartElement {
        name: String,
        attributes: Vec<RawAttribute>,
        bindings: Vec<(String, String)>,
        doctype: Option<String>,
    },
    /// An end tag.
    EndElement { name: String },
    /// A `CDATA` section.
    CData(String),
    /// A comment.
    Comment(String),
    /// Character data.
    Characters(String),
    /// Character data made of white space only.
    Whitespace(String),
    /// Anything else; the text describes it for diagnostics.
    Ignored(String),
}

/// The model of an [`Event`].
pub enum EventView {
    StartDocument { version: Seq<char>, encoding: Seq<char> },
    EndDocument,
    StartElement {
        name: Seq<char>,
        attributes: Seq<RawAttributeView>,
        bindings: Seq<(Seq<char>, Seq<char>)>,
        doctype: Option<Seq<char>>,
    },
    EndElement { name: Seq<char> },
    CData(Seq<char>),
    Comment(Seq<char>),
    Characters(Seq<char>),
    Whitespace(Seq<char>),
    Ignored(Seq<char>),
}

impl View for Event {
    type V = EventView;

    open spec fn view(&self) -> EventView {
        match *self {
            Event::StartDocument { version, encoding } => EventView::StartDocument {
                version: version@,
                encoding: encoding@,
            },
            Event::EndDocument => EventView::EndDocument,
            Event::StartElement { name, attributes, bindings, doctype } => EventView::StartElement {
                name: name@,
                attributes: raw_attribute_views(attributes@),
                bindings: binding_views(bindings@),
                doctype: text_view(doctype),
            },
            Event::EndElement { name } => EventView::EndElement { name: name@ },
            Event::CData(text) => EventView::CData(text@),
            Event::Comment(text) => EventView::Comment(text@),
            Event::Characters(text) => EventView::Characters(text@),
            Event::Whitespace(text) => EventView::Whitespace(text@),
            Event::Ignored(text) => EventView::Ignored(text@),
        }
    }
}

/// The models of a sequence of events, in order.
pub open spec fn event_views(events: Seq<Event>) -> Seq<EventView> {
    events.map_values(|event: Event| event@)
}

impl EventView {
    /// The event with `doctype` as the doctype text reported at it: only a
    /// start tag carries one.
    pub open spec fn reporting(self, doctype: Option<Seq<char>>) -> EventView {
        match self {
            EventView::StartElement { name, attributes, bindings, .. } => EventView::StartElement {
                name,
                attributes,
                bindings,
                doctype,
            },
            _ => self,
        }
    }
}

} // verus!
