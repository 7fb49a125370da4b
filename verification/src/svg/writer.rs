//! The writer adapter: from the nodes of a document to its text.

use vstd::prelude::*;

use super::emitter::{accepts, append_verbatim, close, composed, emit, open, rendering};
use super::error::{NodeKind, WriteError, WriteFault};
use super::event::RawAttributeView;
use super::markup::{
    qualified_views, slice_view, Markup, MarkupView, PieceView, QualifiedAttribute,
};
use super::node::{
    attribute_views, node_views, text_view, Attribute, AttributeView, ElementType, Node,
    NodeView,
};

verus! {

impl AttributeView {
    /// The attribute as the writer takes it: a namespaced attribute with its
    /// namespace and prefix, any other by its key alone.
    pub open spec fn qualified(self) -> RawAttributeView {
        match self {
            AttributeView::Local { key, value } => RawAttributeView {
                local_name: key,
                namespace: None,
                prefix: None,
                value,
            },
            AttributeView::Namespaced { key, value, namespace, prefix } => RawAttributeView {
                local_name: key,
                namespace: Some(namespace),
                prefix,
                value,
            },
            AttributeView::Declaration { key, value } => RawAttributeView {
                local_name: key,
                namespace: None,
                prefix: None,
                value,
            },
        }
    }
}

/// The attributes of a tag as the writer takes them, in order.
pub open spec fn qualified_all(attributes: Seq<AttributeView>) -> Seq<RawAttributeView> {
    attributes.map_values(|attribute: AttributeView| attribute.qualified())
}

impl NodeView {
    /// The kind of the node.
    pub open spec fn kind(self) -> NodeKind {
        match self {
            NodeView::Declaration { .. } => NodeKind::Declaration,
            NodeView::Doctype(_) => NodeKind::Doctype,
            NodeView::Element(element) => match element.kind {
                ElementType::Open => NodeKind::StartElement,
                ElementType::Close => NodeKind::EndElement,
            },
            NodeView::CData(_) => NodeKind::CData,
            NodeView::Comment(_) => NodeKind::Comment,
            NodeView::Characters(_) => NodeKind::Characters,
        }
    }

    /// The piece that is written for the node. The doctype goes out as it
    /// is. A declaration gives its version, an opening marker its name and
    /// attributes; a closing marker closes the element that is open.
    pub open spec fn piece(self) -> PieceView {
        match self {
            NodeView::Declaration { version, .. } => PieceView::Markup(
                MarkupView::StartDocument(version),
            ),
            NodeView::Doctype(text) => PieceView::Verbatim(text),
            NodeView::Element(element) => match element.kind {
                ElementType::Open => PieceView::Markup(
                    MarkupView::StartElement {
                        name: element.name,
                        attributes: qualified_all(element.attributes),
                    },
                ),
                ElementType::Close => PieceView::Markup(MarkupView::EndElement),
            },
            NodeView::CData(text) => PieceView::Markup(MarkupView::CData(text)),
            NodeView::Comment(text) => PieceView::Markup(MarkupView::Comment(text)),
            NodeView::Characters(text) => PieceView::Markup(MarkupView::Characters(text)),
        }
    }
}

/// The pieces that are written for a sequence of nodes, in order.
pub open spec fn pieces(nodes: Seq<NodeView>) -> Seq<PieceView> {
    nodes.map_values(|node: NodeView| node.piece())
}

/// Whether the writer takes the piece at `position` once it has taken those
/// before it: verbatim text always, markup where the writer accepts it.
pub open spec fn takes(pieces: Seq<PieceView>, position: int) -> bool {
    match pieces[position] {
        PieceView::Verbatim(_) => true,
        PieceView::Markup(markup) => accepts(pieces.take(position), markup),
    }
}

/// The position of the first piece that the writer does not take, among the
/// first `count`.
pub open spec fn first_refused(pieces: Seq<PieceView>, count: int) -> Option<int>
    decreases count,
{
    if count <= 0 {
        None
    } else {
        match first_refused(pieces, count - 1) {
            Some(position) => Some(position),
            None => if takes(pieces, count - 1) {
                None
            } else {
                Some(count - 1)
            },
        }
    }
}

/// What writing a sequence of nodes gives: the text of all their pieces, or
/// the first node whose piece the writer does not take.
pub open spec fn written(nodes: Seq<NodeView>) -> Result<Seq<u8>, WriteFault> {
    match first_refused(pieces(nodes), nodes.len() as int) {
        Some(position) => Err(WriteFault { kind: nodes[position].kind(), position }),
        None => Ok(rendering(pieces(nodes))),
    }
}

/// The model of the outcome of a write.
pub open spec fn write_view(outcome: Result<Vec<u8>, WriteError>) -> Result<Seq<u8>, WriteFault> {
    match outcome {
        Ok(text) => Ok(text@),
        Err(error) => Err(error@),
    }
}

/// The first piece refused is refused, and every piece before it is taken;
/// where none is refused, all are taken.
pub proof fn lemma_first_refused_is_first(pieces: Seq<PieceView>, count: int)
    ensures
        match first_refused(pieces, count) {
            Some(position) => {
                &&& 0 <= position < count
                &&& !takes(pieces, position)
                &&& forall|earlier: int| 0 <= earlier < position ==> takes(pieces, earlier)
            },
            None => forall|earlier: int| 0 <= earlier < count ==> takes(pieces, earlier),
        },
    decreases count,
{
    if count > 0 {
        lemma_first_refused_is_first(pieces, count - 1);
    }
}

/// A refusal among the first pieces is a refusal among more of them.
proof fn lemma_first_refused_stays(pieces: Seq<PieceView>, count: int, more: int)
    requires
        count <= more,
        first_refused(pieces, count) is Some,
    ensures
        first_refused(pieces, more) == first_refused(pieces, count),
    decreases more - count,
{
    if count < more {
        lemma_first_refused_stays(pieces, count, more - 1);
    }
}

fn borrowed(text: &Option<String>) -> (slice: Option<&str>)
    ensures
        slice_view(slice) == text_view(*text),
{
    match text {
        Some(text) => Some(text.as_str()),
        None => None,
    }
}

/// The writer adapter.
pub struct Writer;

impl Writer {
    /// The attribute as the writer takes it.
    pub fn qualified(attribute: &Attribute) -> (qualified: QualifiedAttribute<'_>)
        ensures
            qualified@ == attribute@.qualified(),
    {
        match attribute {
            Attribute::Local { key, value } => QualifiedAttribute {
                local_name: key.as_str(),
                namespace: None,
                prefix: None,
                value: value.as_str(),
            },
            Attribute::Namespaced { key, value, namespace, prefix } => QualifiedAttribute {
                local_name: key.as_str(),
                namespace: Some(namespace.as_str()),
                prefix: borrowed(prefix),
                value: value.as_str(),
            },
            Attribute::Declaration { key, value } => QualifiedAttribute {
                local_name: key.as_str(),
                namespace: None,
                prefix: None,
                value: value.as_str(),
            },
        }
    }

    /// The markup that is written for a node, or none for the doctype, whose
    /// text goes out as it is.
    pub fn markup(node: &Node) -> (markup: Option<Markup<'_>>)
        ensures
            match node@.piece() {
                PieceView::Verbatim(_) => markup is None,
                PieceView::Markup(view) => markup matches Some(markup) && markup@ == view,
            },
    {
        match node {
            Node::Declaration { version, .. } => Some(Markup::StartDocument(*version)),
            Node::Doctype(_) => None,
            Node::Element(element) => match element.kind {
                ElementType::Open => {
                    let mut attributes: Vec<QualifiedAttribute<'_>> = Vec::new();
                    let mut i: usize = 0;
                    while i < element.attributes.len()
                        invariant
                            i <= element.attributes.len(),
                            qualified_views(attributes@) == qualified_all(
                                attribute_views(element.attributes@.take(i as int)),
                            ),
                        decreases element.attributes.len() - i,
                    {
                        let ghost done = element.attributes@.take(i as int);
                        let ghost before = attributes@;
                        let qualified = Writer::qualified(&element.attributes[i]);
                        attributes.push(qualified);
                        proof {
                            let next = element.attributes@[i as int];
                            assert(element.attributes@.take(i + 1) == done.push(next));
                            assert(attribute_views(done.push(next)) == attribute_views(done).push(
                                next@,
                            ));
                            assert(qualified_all(attribute_views(done).push(next@))
                                == qualified_all(attribute_views(done)).push(next@.qualified()));
                            assert(qualified_views(before.push(qualified)) == qualified_views(
                                before,
                            ).push(qualified@));
                        }
                        i += 1;
                    }
                    proof {
                        assert(element.attributes@.take(i as int) == element.attributes@);
                    }
                    Some(Markup::StartElement { name: element.name.as_str(), attributes })
                },
                ElementType::Close => Some(Markup::EndElement),
            },
            Node::CData(text) => Some(Markup::CData(text.as_str())),
            Node::Comment(text) => Some(Markup::Comment(text.as_str())),
            Node::Characters(text) => Some(Markup::Characters(text.as_str())),
        }
    }

    /// Writes a document: the text of its nodes, in order. The write stops at
    /// the first node that the writer does not take, and names it.
    pub fn write(nodes: &Vec<Node>) -> (outcome: Result<Vec<u8>, WriteError>)
        ensures
            write_view(outcome) == written(node_views(nodes@)),
    {
        let ghost all = pieces(node_views(nodes@));
        let mut writer = open();
        let mut i: usize = 0;
        while i < nodes.len()
            invariant
                i <= nodes.len(),
                all == pieces(node_views(nodes@)),
                composed(writer) == all.take(i as int),
                first_refused(all, i as int) is None,
            decreases nodes.len() - i,
        {
            let node = &nodes[i];
            assert(all[i as int] == node@.piece());
            assert(all.take(i + 1) == all.take(i as int).push(all[i as int]));
            match Writer::markup(node) {
                Some(markup) => {
                    match emit(&mut writer, &markup) {
                        Ok(()) => {},
                        Err(error) => {
                            proof {
                                lemma_first_refused_stays(all, i + 1, nodes.len() as int);
                            }
                            return Err(
                                WriteError {
                                    kind: node.kind(),
                                    position: i,
                                    cause: error.to_string(),
                                },
                            );
                        },
                    }
                },
                None => {
                    match node {
                        Node::Doctype(text) => {
                            append_verbatim(&mut writer, text.as_str());
                        },
                        _ => {},
                    }
                },
            }
            i += 1;
        }
        proof {
            assert(all.take(i as int) == all);
            assert(node_views(nodes@).len() == nodes@.len());
        }
        Ok(close(writer))
    }
}

} // verus!
