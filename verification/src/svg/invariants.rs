//! What holds of every document that is read: one declaration in front, one
//! doctype at most, and as many attributes as its start tags give.

use vstd::prelude::*;

use super::event::{EventView, RawAttributeView};
use super::lexer::{headed, Step};
use super::node::{ElementType, ElementView, NodeView, Version};
use super::parser::{assembled, at_end, lexed, opening_attributes, Assembly};

verus! {

/// Whether the declaration leads `nodes`: it is the first of them, and no
/// other is a declaration.
pub open spec fn declaration_leads(nodes: Seq<NodeView>) -> bool {
    &&& nodes.len() > 0
    &&& forall|i: int| 0 <= i < nodes.len() ==> ((#[trigger] nodes[i]) is Declaration <==> i == 0)
}

/// Whether the start of the document leads `events`: it is the first of
/// them, and no other is a start of the document.
pub open spec fn start_leads(events: Seq<EventView>) -> bool {
    &&& events.len() > 0
    &&& forall|i: int|
        0 <= i < events.len() ==> ((#[trigger] events[i]) is StartDocument <==> i == 0)
}

proof fn lemma_resumed_adds_no_declaration(state: Assembly, events: Seq<EventView>)
    requires
        state.resumed(events) is Ok,
        declaration_leads(state.nodes),
        forall|i: int| 0 <= i < events.len() ==> !((#[trigger] events[i]) is StartDocument),
    ensures
        declaration_leads(state.resumed(events)->Ok_0),
    decreases events.len(),
{
    if !at_end(events) {
        let rest = events.skip(1);
        let next = state.after(events[0])->Ok_0;
        assert(!(events[0] is StartDocument));
        assert forall|i: int| 0 <= i < rest.len() implies !((#[trigger] rest[i])
            is StartDocument) by {
            assert(rest[i] == events[i + 1]);
        }
        lemma_resumed_adds_no_declaration(next, rest);
    }
}

/// Where the start of the document leads the events, the declaration leads
/// the nodes: a document has one declaration, in front of all else.
pub proof fn lemma_declaration_leads(events: Seq<EventView>)
    requires
        assembled(events) is Ok,
        start_leads(events),
    ensures
        declaration_leads(assembled(events)->Ok_0),
{
    let rest = events.skip(1);
    let next = Assembly::start().after(events[0])->Ok_0;
    assert(events[0] is StartDocument);
    assert forall|i: int| 0 <= i < rest.len() implies !((#[trigger] rest[i])
        is StartDocument) by {
        assert(rest[i] == events[i + 1]);
    }
    lemma_resumed_adds_no_declaration(next, rest);
}

proof fn lemma_lexed_steps(steps: Seq<Step>)
    requires
        lexed(steps) is Some,
    ensures
        lexed(steps)->Some_0.len() <= steps.len(),
        steps.len() > 0 ==> lexed(steps)->Some_0.len() > 0,
        forall|i: int|
            0 <= i < lexed(steps)->Some_0.len() ==> steps[i].observed() == Some(
                #[trigger] lexed(steps)->Some_0[i],
            ),
    decreases steps.len(),
{
    if steps.len() > 0 {
        let event = steps[0].observed()->Some_0;
        if !(event is EndDocument) {
            let rest = steps.skip(1);
            lemma_lexed_steps(rest);
            assert forall|i: int| 0 <= i < lexed(steps)->Some_0.len() implies steps[i].observed()
                == Some(#[trigger] lexed(steps)->Some_0[i]) by {
                if i > 0 {
                    assert(rest[i - 1] == steps[i]);
                    assert(lexed(steps)->Some_0[i] == lexed(rest)->Some_0[i - 1]);
                }
            }
        }
    }
}

/// Where the start of the document leads the steps of the tokenizer, it leads
/// the events that they give.
pub proof fn lemma_lexed_leads(steps: Seq<Step>)
    requires
        lexed(steps) is Some,
        steps.len() > 0,
        headed(steps),
    ensures
        start_leads(lexed(steps)->Some_0),
{
    lemma_lexed_steps(steps);
    let events = lexed(steps)->Some_0;
    assert forall|i: int| 0 <= i < events.len() implies ((#[trigger] events[i]) is StartDocument
        <==> i == 0) by {
        assert(steps[i].observed() == Some(events[i]));
        assert(steps[i].event is Some);
    }
}

/// Whether only opening markers carry attributes among `nodes`: every
/// closing marker is bare.
pub open spec fn closings_bare(nodes: Seq<NodeView>) -> bool {
    forall|i: int|
        0 <= i < nodes.len() ==> ((#[trigger] nodes[i]) matches NodeView::Element(element)
            ==> element.kind == ElementType::Close ==> element.attributes.len() == 0)
}

proof fn lemma_resumed_closings_bare(state: Assembly, events: Seq<EventView>)
    requires
        state.resumed(events) is Ok,
        closings_bare(state.nodes),
    ensures
        closings_bare(state.resumed(events)->Ok_0),
    decreases events.len(),
{
    if !at_end(events) {
        lemma_resumed_closings_bare(state.after(events[0])->Ok_0, events.skip(1));
    }
}

/// Attributes stand on opening markers only: every closing marker of a
/// document is bare.
pub proof fn lemma_closings_bare(events: Seq<EventView>)
    requires
        assembled(events) is Ok,
    ensures
        closings_bare(assembled(events)->Ok_0),
{
    lemma_resumed_closings_bare(Assembly::start(), events);
}

/// The attributes of a start tag keep their order: the marker has them one
/// for one, in front of any declaration.
pub proof fn lemma_attributes_in_order(
    name: Seq<char>,
    attributes: Seq<RawAttributeView>,
    bindings: Seq<(Seq<char>, Seq<char>)>,
    i: int,
)
    requires
        0 <= i < attributes.len(),
    ensures
        i < opening_attributes(name, attributes, bindings).len(),
        opening_attributes(name, attributes, bindings)[i] == attributes[i].attribute(),
{
}

/// How many doctype nodes there are among `nodes`.
pub open spec fn doctype_total(nodes: Seq<NodeView>) -> nat
    decreases nodes.len(),
{
    if nodes.len() == 0 {
        0
    } else if nodes.last() is Doctype {
        doctype_total(nodes.drop_last()) + 1
    } else {
        doctype_total(nodes.drop_last())
    }
}

/// How many attributes the elements among `nodes` have, all together.
pub open spec fn attribute_total(nodes: Seq<NodeView>) -> nat
    decreases nodes.len(),
{
    if nodes.len() == 0 {
        0
    } else {
        attribute_total(nodes.drop_last()) + match nodes.last() {
            NodeView::Element(element) => element.attributes.len(),
            _ => 0,
        }
    }
}

impl EventView {
    /// Whether the event is a start tag at which doctype text is reported.
    pub open spec fn reports_doctype(self) -> bool {
        self matches EventView::StartElement { doctype: Some(_), .. }
    }

    /// Whether the event is a start tag of an element named `svg`.
    pub open spec fn opens_svg(self) -> bool {
        self matches EventView::StartElement { name, .. } && name == "svg"@
    }

    /// How many attributes the tokenizer reports at the event.
    pub open spec fn reported_attributes(self) -> nat {
        match self {
            EventView::StartElement { attributes, .. } => attributes.len(),
            _ => 0,
        }
    }

    /// How many attributes the event's marker has.
    pub open spec fn marker_attributes(self) -> nat {
        match self {
            EventView::StartElement { name, attributes, bindings, .. } => opening_attributes(
                name,
                attributes,
                bindings,
            ).len(),
            _ => 0,
        }
    }
}

/// Whether some event up to the end of the document meets `test`.
pub open spec fn some_event(events: Seq<EventView>, test: spec_fn(EventView) -> bool) -> bool
    decreases events.len(),
{
    if at_end(events) {
        false
    } else {
        test(events[0]) || some_event(events.skip(1), test)
    }
}

/// The sum of `measure` over the events up to the end of the document.
pub open spec fn sum_events(events: Seq<EventView>, measure: spec_fn(EventView) -> nat) -> nat
    decreases events.len(),
{
    if at_end(events) {
        0
    } else {
        measure(events[0]) + sum_events(events.skip(1), measure)
    }
}

proof fn lemma_totals_push(nodes: Seq<NodeView>, node: NodeView)
    ensures
        doctype_total(nodes.push(node)) == doctype_total(nodes) + if node is Doctype {
            1nat
        } else {
            0nat
        },
        attribute_total(nodes.push(node)) == attribute_total(nodes) + match node {
            NodeView::Element(element) => element.attributes.len(),
            _ => 0,
        },
{
    assert(nodes.push(node).drop_last() == nodes);
}

proof fn lemma_resumed_totals(state: Assembly, events: Seq<EventView>)
    requires
        state.resumed(events) is Ok,
    ensures
        doctype_total(state.resumed(events)->Ok_0) == doctype_total(state.nodes) + if
            !state.doctype_captured && some_event(
            events,
            |event: EventView| event.reports_doctype(),
        ) {
            1nat
        } else {
            0nat
        },
        attribute_total(state.resumed(events)->Ok_0) == attribute_total(state.nodes) + sum_events(
            events,
            |event: EventView| event.marker_attributes(),
        ),
    decreases events.len(),
{
    if !at_end(events) {
        let event = events[0];
        let next = state.after(event)->Ok_0;
        lemma_resumed_totals(next, events.skip(1));
        match event {
            EventView::StartElement { name, attributes, bindings, doctype } => {
                let marker = NodeView::Element(
                    ElementView {
                        name,
                        attributes: opening_attributes(name, attributes, bindings),
                        kind: ElementType::Open,
                    },
                );
                if doctype is Some && !state.doctype_captured {
                    lemma_totals_push(state.nodes, NodeView::Doctype(doctype->Some_0));
                    lemma_totals_push(state.nodes.push(NodeView::Doctype(doctype->Some_0)), marker);
                } else {
                    lemma_totals_push(state.nodes, marker);
                }
            },
            EventView::StartDocument { version, encoding } => {
                lemma_totals_push(
                    state.nodes,
                    NodeView::Declaration { version: Version::parse(version)->Some_0, encoding },
                );
            },
            EventView::EndElement { name } => {
                lemma_totals_push(
                    state.nodes,
                    NodeView::Element(
                        ElementView { name, attributes: Seq::empty(), kind: ElementType::Close },
                    ),
                );
            },
            EventView::Comment(text) => {
                lemma_totals_push(state.nodes, NodeView::Comment(text));
            },
            EventView::CData(text) => {
                lemma_totals_push(state.nodes, NodeView::CData(text));
            },
            EventView::Characters(text) => {
                lemma_totals_push(state.nodes, NodeView::Characters(text));
            },
            EventView::Whitespace(text) => {
                lemma_totals_push(state.nodes, NodeView::Characters(text));
            },
            EventView::EndDocument => {},
            EventView::Ignored(_) => {},
        }
    }
}

/// The doctype is captured once: a document has one doctype node if doctype
/// text is reported at some start tag, however many report it, and none
/// otherwise.
pub proof fn lemma_doctype_captured_once(events: Seq<EventView>)
    requires
        assembled(events) is Ok,
    ensures
        doctype_total(assembled(events)->Ok_0) == if some_event(
            events,
            |event: EventView| event.reports_doctype(),
        ) {
            1nat
        } else {
            0nat
        },
{
    lemma_resumed_totals(Assembly::start(), events);
}

proof fn lemma_some_start_reports(events: Seq<EventView>)
    requires
        some_event(events, |event: EventView| event is StartElement),
        forall|i: int|
            0 <= i < events.len() && events[i] is StartElement ==> events[i].reports_doctype(),
    ensures
        some_event(events, |event: EventView| event.reports_doctype()),
    decreases events.len(),
{
    if !(events[0] is StartElement) {
        let rest = events.skip(1);
        assert forall|i: int|
            0 <= i < rest.len() && rest[i] is StartElement implies rest[i].reports_doctype() by {
            assert(rest[i] == events[i + 1]);
        }
        lemma_some_start_reports(rest);
    }
}

/// Where the tokenizer reports doctype text at every start tag, a document
/// with a start tag has exactly one doctype node.
pub proof fn lemma_doctype_once_when_always_reported(events: Seq<EventView>)
    requires
        assembled(events) is Ok,
        some_event(events, |event: EventView| event is StartElement),
        forall|i: int|
            0 <= i < events.len() && events[i] is StartElement ==> events[i].reports_doctype(),
    ensures
        doctype_total(assembled(events)->Ok_0) == 1,
{
    lemma_some_start_reports(events);
    lemma_doctype_captured_once(events);
}

/// Every marker has the attributes of its start tag, and an element named
/// `svg` the declarations of its bindings besides: the attributes of a
/// document are as many as those of its markers.
pub proof fn lemma_attributes_counted(events: Seq<EventView>)
    requires
        assembled(events) is Ok,
    ensures
        attribute_total(assembled(events)->Ok_0) == sum_events(
            events,
            |event: EventView| event.marker_attributes(),
        ),
{
    lemma_resumed_totals(Assembly::start(), events);
}

proof fn lemma_sum_without_svg(events: Seq<EventView>)
    requires
        !some_event(events, |event: EventView| event.opens_svg()),
    ensures
        sum_events(events, |event: EventView| event.marker_attributes()) == sum_events(
            events,
            |event: EventView| event.reported_attributes(),
        ),
    decreases events.len(),
{
    if !at_end(events) {
        lemma_sum_without_svg(events.skip(1));
        assert(!events[0].opens_svg());
    }
}

/// Attributes are preserved in number: where no element is named `svg`, a
/// document has as many attributes as the tokenizer reports.
pub proof fn lemma_attributes_preserved(events: Seq<EventView>)
    requires
        assembled(events) is Ok,
        !some_event(events, |event: EventView| event.opens_svg()),
    ensures
        attribute_total(assembled(events)->Ok_0) == sum_events(
            events,
            |event: EventView| event.reported_attributes(),
        ),
{
    lemma_attributes_counted(events);
    lemma_sum_without_svg(events);
}

} // verus!
