//! What reading hands on to writing: the markup written for a document that
//! was read is the markup that the tokenizer reported.

use vstd::prelude::*;

use super::markup::{MarkupView, PieceView};
use super::event::{EventView, RawAttributeView};
use super::node::{NodeView, Version};
use super::parser::{assembled, at_end, converted, Assembly};
use super::writer::{pieces, qualified_all};

verus! {

impl RawAttributeView {
    /// Whether the attribute is qualified as a tokenizer qualifies: a prefix
    /// comes with the namespace that it is bound to.
    pub open spec fn well_qualified(self) -> bool {
        self.prefix is Some ==> self.namespace is Some
    }
}

impl EventView {
    /// The markup that writes the event back: none for the end of the
    /// document, for an event that has no node, and for a declaration of
    /// another version than `1.0` and `1.1`.
    pub open spec fn echoed(self) -> Option<MarkupView> {
        match self {
            EventView::StartDocument { version, .. } => match Version::parse(version) {
                Some(version) => Some(MarkupView::StartDocument(version)),
                None => None,
            },
            EventView::StartElement { name, attributes, .. } => Some(
                MarkupView::StartElement { name, attributes },
            ),
            EventView::EndElement { .. } => Some(MarkupView::EndElement),
            EventView::CData(text) => Some(MarkupView::CData(text)),
            EventView::Comment(text) => Some(MarkupView::Comment(text)),
            EventView::Characters(text) => Some(MarkupView::Characters(text)),
            EventView::Whitespace(text) => Some(MarkupView::Characters(text)),
            EventView::EndDocument => None,
            EventView::Ignored(_) => None,
        }
    }

    /// Whether the event is read without anything added: it is no start tag,
    /// or a start tag of an element not named `svg`, at which no doctype
    /// text is reported, with attributes that are well qualified.
    pub open spec fn read_plainly(self) -> bool {
        match self {
            EventView::StartElement { name, attributes, doctype, .. } => {
                &&& name != "svg"@
                &&& doctype is None
                &&& forall|i: int|
                    0 <= i < attributes.len() ==> (#[trigger] attributes[i]).well_qualified()
            },
            _ => true,
        }
    }
}

/// The pieces that write a sequence of events back, up to the end of the
/// document.
pub open spec fn echo(events: Seq<EventView>) -> Seq<PieceView>
    decreases events.len(),
{
    if at_end(events) {
        Seq::empty()
    } else {
        match events[0].echoed() {
            Some(markup) => seq![PieceView::Markup(markup)] + echo(events.skip(1)),
            None => echo(events.skip(1)),
        }
    }
}

/// An attribute that is well qualified is written as it was reported.
pub proof fn lemma_attribute_written_as_reported(raw: RawAttributeView)
    requires
        raw.well_qualified(),
    ensures
        raw.attribute().qualified() == raw,
{
}

/// Attributes that are well qualified are written as they were reported, in
/// the order in which they were reported.
pub proof fn lemma_attributes_written_as_reported(attributes: Seq<RawAttributeView>)
    requires
        forall|i: int| 0 <= i < attributes.len() ==> (#[trigger] attributes[i]).well_qualified(),
    ensures
        qualified_all(converted(attributes)) == attributes,
{
    assert forall|i: int| 0 <= i < attributes.len() implies qualified_all(converted(attributes))[i]
        == attributes[i] by {
        lemma_attribute_written_as_reported(attributes[i]);
    }
    assert(qualified_all(converted(attributes)) =~= attributes);
}

proof fn lemma_resumed_echoes(state: Assembly, events: Seq<EventView>)
    requires
        state.resumed(events) is Ok,
        forall|i: int| 0 <= i < events.len() ==> (#[trigger] events[i]).read_plainly(),
    ensures
        pieces(state.resumed(events)->Ok_0) == pieces(state.nodes) + echo(events),
    decreases events.len(),
{
    if at_end(events) {
        assert(pieces(state.nodes) + Seq::<PieceView>::empty() == pieces(state.nodes));
    } else {
        let event = events[0];
        let rest = events.skip(1);
        let next = state.after(event)->Ok_0;
        assert(event.read_plainly());
        assert forall|i: int| 0 <= i < rest.len() implies (#[trigger] rest[i]).read_plainly() by {
            assert(rest[i] == events[i + 1]);
        }
        lemma_resumed_echoes(next, rest);
        match event {
            EventView::StartElement { name, attributes, bindings, doctype } => {
                lemma_attributes_written_as_reported(attributes);
            },
            _ => {},
        }
        match event.echoed() {
            Some(markup) => {
                assert(next.nodes == state.nodes.push(next.nodes.last()));
                assert(next.nodes.last().piece() == PieceView::Markup(markup));
                assert(pieces(next.nodes) == pieces(state.nodes).push(PieceView::Markup(markup)));
                assert(pieces(state.nodes).push(PieceView::Markup(markup)) + echo(rest) == pieces(
                    state.nodes,
                ) + (seq![PieceView::Markup(markup)] + echo(rest)));
            },
            None => {
                assert(next.nodes == state.nodes);
            },
        }
    }
}

/// A document that is read plainly is written as it was reported: the
/// pieces written for its nodes are the markup of its events, in order.
pub proof fn lemma_written_as_reported(events: Seq<EventView>)
    requires
        assembled(events) is Ok,
        forall|i: int| 0 <= i < events.len() ==> (#[trigger] events[i]).read_plainly(),
    ensures
        pieces(assembled(events)->Ok_0) == echo(events),
{
    lemma_resumed_echoes(Assembly::start(), events);
    assert(pieces(Seq::<NodeView>::empty()) =~= Seq::<PieceView>::empty());
    assert(Seq::<PieceView>::empty() + echo(events) == echo(events));
}

} // verus!
