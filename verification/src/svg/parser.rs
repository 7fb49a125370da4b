//! The reader adapter: from lexical events to the nodes of a document.

use vstd::prelude::*;

use super::error::{ParseError, ParseFault};
use super::event::{
    binding_views, event_views, raw_attribute_views, Event, EventView, RawAttribute,
    RawAttributeView,
};
use super::invariants::{
    declaration_leads, lemma_declaration_leads, lemma_lexed_leads, start_leads,
};
use super::lexer::{closed, pending, tokenized, Lexer, Step};
use super::node::{
    attribute_views, node_views, Attribute, AttributeView, Element, ElementType, ElementView,
    Node, NodeView, Version,
};

verus! {

/// The key under which a namespace binding is declared: `xmlns` for the
/// default namespace, whose prefix is empty, and the prefix otherwise.
pub open spec fn declaration_key(prefix: Seq<char>) -> Seq<char> {
    if prefix.len() == 0 {
        "xmlns"@
    } else {
        prefix
    }
}

/// The declarations that stand for a sequence of namespace bindings: one for
/// each binding but that of the prefix `xmlns`, in order.
pub open spec fn declared(bindings: Seq<(Seq<char>, Seq<char>)>) -> Seq<AttributeView>
    decreases bindings.len(),
{
    if bindings.len() == 0 {
        Seq::empty()
    } else if bindings.last().0 == "xmlns"@ {
        declared(bindings.drop_last())
    } else {
        declared(bindings.drop_last()).push(
            AttributeView::Declaration {
                key: declaration_key(bindings.last().0),
                value: bindings.last().1,
            },
        )
    }
}

/// The attributes that stand for a sequence of raw attributes, in order.
pub open spec fn converted(attributes: Seq<RawAttributeView>) -> Seq<AttributeView> {
    attributes.map_values(|raw: RawAttributeView| raw.attribute())
}

/// The attributes of the opening marker for a start tag: its own, and for an
/// element named `svg`, at the root or below it, the declarations of the
/// bindings in force.
pub open spec fn opening_attributes(
    name: Seq<char>,
    attributes: Seq<RawAttributeView>,
    bindings: Seq<(Seq<char>, Seq<char>)>,
) -> Seq<AttributeView> {
    if name == "svg"@ {
        converted(attributes) + declared(bindings)
    } else {
        converted(attributes)
    }
}

/// Whether `events` hold no event up to the end of the document: they are
/// used up, or the end of the document comes first.
pub open spec fn at_end(events: Seq<EventView>) -> bool {
    events.len() == 0 || events[0] is EndDocument
}

/// What has been assembled of a document: its nodes so far, and whether the
/// doctype has been captured.
pub struct Assembly {
    pub nodes: Seq<NodeView>,
    pub doctype_captured: bool,
}

impl Assembly {
    /// The assembly before any event.
    pub open spec fn start() -> Assembly {
        Assembly { nodes: Seq::empty(), doctype_captured: false }
    }

    /// The assembly with one more node.
    pub open spec fn with(self, node: NodeView) -> Assembly {
        Assembly { nodes: self.nodes.push(node), doctype_captured: self.doctype_captured }
    }

    /// The assembly once `event` is taken in. A declared version outside
    /// `1.0` and `1.1` is the one failure. The doctype text of a start tag
    /// becomes a node in front of the tag's marker if none was captured yet.
    pub open spec fn after(self, event: EventView) -> Result<Assembly, ParseFault> {
        match event {
            EventView::StartDocument { version, encoding } => match Version::parse(version) {
                Some(version) => Ok(self.with(NodeView::Declaration { version, encoding })),
                None => Err(ParseFault::InvalidVersion(version)),
            },
            EventView::StartElement { name, attributes, bindings, doctype } => {
                let marker = NodeView::Element(
                    ElementView {
                        name,
                        attributes: opening_attributes(name, attributes, bindings),
                        kind: ElementType::Open,
                    },
                );
                match doctype {
                    Some(text) if !self.doctype_captured => Ok(
                        Assembly {
                            nodes: self.nodes.push(NodeView::Doctype(text)).push(marker),
                            doctype_captured: true,
                        },
                    ),
                    _ => Ok(self.with(marker)),
                }
            },
            EventView::EndElement { name } => Ok(
                self.with(
                    NodeView::Element(
                        ElementView { name, attributes: Seq::empty(), kind: ElementType::Close },
                    ),
                ),
            ),
            EventView::Comment(text) => Ok(self.with(NodeView::Comment(text))),
            EventView::CData(text) => Ok(self.with(NodeView::CData(text))),
            EventView::Characters(text) => Ok(self.with(NodeView::Characters(text))),
            EventView::Whitespace(text) => Ok(self.with(NodeView::Characters(text))),
            EventView::EndDocument => Ok(self),
            EventView::Ignored(_) => Ok(self),
        }
    }

    /// The nodes of the document once `events` are taken in, in order, up to
    /// the end of the document: what follows it is left aside.
    pub open spec fn resumed(self, events: Seq<EventView>) -> Result<Seq<NodeView>, ParseFault>
        decreases events.len(),
    {
        if at_end(events) {
            Ok(self.nodes)
        } else {
            match self.after(events[0]) {
                Ok(next) => next.resumed(events.skip(1)),
                Err(fault) => Err(fault),
            }
        }
    }
}

/// The nodes that a sequence of events assembles to.
pub open spec fn assembled(events: Seq<EventView>) -> Result<Seq<NodeView>, ParseFault> {
    Assembly::start().resumed(events)
}

/// The events that a sequence of tokenizer steps gives, each start tag with
/// the doctype text reported at it, up to and including the end of the
/// document; none where the tokenizer fails before that.
pub open spec fn lexed(steps: Seq<Step>) -> Option<Seq<EventView>>
    decreases steps.len(),
{
    if steps.len() == 0 {
        Some(Seq::empty())
    } else {
        match steps[0].observed() {
            None => None,
            Some(event) => if event is EndDocument {
                Some(seq![event])
            } else {
                match lexed(steps.skip(1)) {
                    Some(rest) => Some(seq![event] + rest),
                    None => None,
                }
            },
        }
    }
}

/// What reading a document gives: the nodes assembled from its events, or
/// the failure of the tokenizer or of the assembly.
pub open spec fn parsed(input: Seq<u8>) -> Result<Seq<NodeView>, ParseFault> {
    match lexed(tokenized(input)) {
        Some(events) => assembled(events),
        None => Err(ParseFault::Malformed),
    }
}

/// The model of the outcome of an assembly.
pub open spec fn outcome_view(outcome: Result<Vec<Node>, ParseError>) -> Result<
    Seq<NodeView>,
    ParseFault,
> {
    match outcome {
        Ok(nodes) => Ok(node_views(nodes@)),
        Err(error) => Err(error@),
    }
}

/// An assembly under way.
struct Assembler {
    nodes: Vec<Node>,
    doctype_captured: bool,
}

impl View for Assembler {
    type V = Assembly;

    closed spec fn view(&self) -> Assembly {
        Assembly { nodes: node_views(self.nodes@), doctype_captured: self.doctype_captured }
    }
}

fn declarations(bindings: Vec<(String, String)>) -> (attributes: Vec<Attribute>)
    ensures
        attribute_views(attributes@) == declared(binding_views(bindings@)),
{
    let meta = String::from_str("xmlns");
    let mut attributes: Vec<Attribute> = Vec::new();
    for binding in iter: bindings
        invariant
            iter.seq() == bindings@,
            meta@ == "xmlns"@,
            attribute_views(attributes@) == declared(binding_views(bindings@.take(iter.index()))),
    {
        proof {
            let done = bindings@.take(iter.index());
            let next = bindings@.take(iter.index() + 1);
            assert(binding_views(next).drop_last() == binding_views(done));
            assert(binding_views(next).last() == (binding.0@, binding.1@));
        }
        let (prefix, uri) = binding;
        if prefix != meta {
            let key = if prefix.as_str().is_empty() {
                String::from_str("xmlns")
            } else {
                prefix
            };
            attributes.push(Attribute::Declaration { key, value: uri });
        }
    }
    proof {
        assert(bindings@.take(bindings@.len() as int) == bindings@);
    }
    attributes
}

fn opening(name: &String, attributes: Vec<RawAttribute>, bindings: Vec<(String, String)>) -> (own:
    Vec<Attribute>)
    ensures
        attribute_views(own@) == opening_attributes(
            name@,
            raw_attribute_views(attributes@),
            binding_views(bindings@),
        ),
{
    let mut own: Vec<Attribute> = Vec::new();
    for raw in iter: attributes
        invariant
            iter.seq() == attributes@,
            attribute_views(own@) == converted(
                raw_attribute_views(attributes@.take(iter.index())),
            ),
    {
        let ghost done = attributes@.take(iter.index());
        let attribute = Attribute::from(raw);
        own.push(attribute);
        proof {
            assert(attribute@ == raw@.attribute());
            assert(attributes@.take(iter.index() + 1) == done.push(raw));
            assert(raw_attribute_views(done.push(raw)) == raw_attribute_views(done).push(raw@));
            assert(converted(raw_attribute_views(done).push(raw@)) == converted(
                raw_attribute_views(done),
            ).push(raw@.attribute()));
        }
    }
    proof {
        assert(attributes@.take(attributes@.len() as int) == attributes@);
    }
    if *name == String::from_str("svg") {
        let mut synthetic = declarations(bindings);
        let ghost before = own@;
        let ghost added = synthetic@;
        own.append(&mut synthetic);
        proof {
            assert(attribute_views(before + added) == attribute_views(before) + attribute_views(
                added,
            ));
        }
    }
    own
}

impl Assembler {
    fn new() -> (assembler: Assembler)
        ensures
            assembler@ == Assembly::start(),
    {
        let assembler = Assembler { nodes: Vec::new(), doctype_captured: false };
        assert(node_views(assembler.nodes@) == Seq::<NodeView>::empty());
        assembler
    }

    fn push(&mut self, node: Node)
        ensures
            final(self)@ == old(self)@.with(node@),
    {
        self.nodes.push(node);
        assert(node_views(self.nodes@) == node_views(old(self).nodes@).push(node@));
    }

    fn finish(self) -> (nodes: Vec<Node>)
        ensures
            node_views(nodes@) == self@.nodes,
    {
        self.nodes
    }

    fn absorb(&mut self, event: Event) -> (outcome: Result<(), ParseError>)
        ensures
            match old(self)@.after(event@) {
                Ok(next) => outcome is Ok && final(self)@ == next,
                Err(fault) => outcome matches Err(error) && error@ == fault,
            },
    {
        match event {
            Event::StartDocument { version, encoding } => {
                let version = match Version::from_str(version.as_str()) {
                    Ok(version) => version,
                    Err(error) => {
                        return Err(error);
                    },
                };
                self.push(Node::Declaration { version, encoding });
            },
            Event::StartElement { name, attributes, bindings, doctype } => {
                let attributes = opening(&name, attributes, bindings);
                match doctype {
                    Some(text) => {
                        if !self.doctype_captured {
                            self.push(Node::Doctype(text));
                            self.doctype_captured = true;
                        }
                    },
                    None => {},
                }
                self.push(Node::Element(Element { name, attributes, kind: ElementType::Open }));
            },
            Event::EndElement { name } => {
                let closing = Element { name, attributes: Vec::new(), kind: ElementType::Close };
                assert(attribute_views(closing.attributes@) == Seq::<AttributeView>::empty());
                self.push(Node::Element(closing));
            },
            Event::Comment(text) => {
                self.push(Node::Comment(text));
            },
            Event::CData(text) => {
                self.push(Node::CData(text));
            },
            Event::Characters(text) => {
                self.push(Node::Characters(text));
            },
            Event::Whitespace(text) => {
                self.push(Node::Characters(text));
            },
            Event::EndDocument => {},
            Event::Ignored(_) => {},
        }
        Ok(())
    }
}

/// The reader adapter.
#[derive(Debug)]
pub struct Parser;

impl Parser {
    /// Tokenizes a document: its events in order, up to and including the end
    /// of the document. A start tag carries the doctype text that the
    /// tokenizer reports at it. Fails where the tokenizer does.
    pub fn lex(input: &[u8]) -> (outcome: Result<Vec<Event>, ParseError>)
        ensures
            match lexed(tokenized(input@)) {
                Some(events) => outcome matches Ok(found) && event_views(found@) == events,
                None => outcome matches Err(ParseError::Malformed { .. }),
            },
            outcome matches Ok(found) ==> start_leads(event_views(found@)),
    {
        let mut lexer = Lexer::open(input);
        proof {
            if lexed(tokenized(input@)) is Some {
                lemma_lexed_leads(tokenized(input@));
            }
        }
        let mut events: Vec<Event> = Vec::new();
        loop
            invariant
                closed(pending(lexer)),
                lexed(tokenized(input@)) matches Some(all) ==> start_leads(all),
                lexed(tokenized(input@)) == match lexed(pending(lexer)) {
                    Some(rest) => Some(event_views(events@) + rest),
                    None => None,
                },
            decreases pending(lexer).len(),
        {
            let ghost steps = pending(lexer);
            let ghost found = event_views(events@);
            let event = match lexer.pull() {
                Ok(Event::StartElement { name, attributes, bindings, .. }) => {
                    let doctype = lexer.doctype();
                    Event::StartElement { name, attributes, bindings, doctype }
                },
                Ok(event) => event,
                Err(error) => {
                    return Err(ParseError::Malformed { message: error.to_string() });
                },
            };
            assert(Some(event@) == steps[0].observed());
            let last = matches!(event, Event::EndDocument);
            events.push(event);
            proof {
                assert(event_views(events@) == found.push(event@));
                if !last {
                    assert(steps.skip(1).last() == steps.last());
                    match lexed(steps.skip(1)) {
                        Some(rest) => {
                            assert(found + (seq![event@] + rest) == found.push(event@) + rest);
                        },
                        None => {},
                    }
                } else {
                    assert(found + seq![event@] == found.push(event@));
                    assert(found.push(event@) + Seq::empty() == found.push(event@));
                }
            }
            if last {
                return Ok(events);
            }
        }
    }

    /// Assembles the nodes of a document from its events, taken in order up
    /// to the end of the document.
    pub fn assemble(events: Vec<Event>) -> (outcome: Result<Vec<Node>, ParseError>)
        ensures
            outcome_view(outcome) == assembled(event_views(events@)),
    {
        let mut assembler = Assembler::new();
        assert(event_views(events@).skip(0) == event_views(events@));
        for event in iter: events
            invariant
                iter.seq() == events@,
                assembled(event_views(events@)) == assembler@.resumed(
                    event_views(events@).skip(iter.index()),
                ),
        {
            let ghost rest = event_views(events@).skip(iter.index());
            assert(rest[0] == event@);
            assert(rest.skip(1) == event_views(events@).skip(iter.index() + 1));
            if matches!(event, Event::EndDocument) {
                return Ok(assembler.finish());
            }
            match assembler.absorb(event) {
                Ok(()) => {},
                Err(error) => {
                    return Err(error);
                },
            }
        }
        Ok(assembler.finish())
    }

    /// Reads a document into its nodes. The document is tokenized whole, then
    /// assembled: no node is given where either fails.
    pub fn read(input: &[u8]) -> (outcome: Result<Vec<Node>, ParseError>)
        ensures
            outcome_view(outcome) == parsed(input@),
            outcome matches Ok(nodes) ==> declaration_leads(node_views(nodes@)),
    {
        match Parser::lex(input) {
            Ok(events) => {
                proof {
                    if assembled(event_views(events@)) is Ok {
                        lemma_declaration_leads(event_views(events@));
                    }
                }
                Parser::assemble(events)
            },
            Err(error) => Err(error),
        }
    }
}

} // verus!
