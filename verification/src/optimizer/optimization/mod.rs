//! The built-in optimizations. Each drops the nodes of one kind and keeps
//! every other node, in order.

use vstd::prelude::*;

pub use self::remove_comments::{RemoveComments, RemoveCommentsOptimization};
pub use self::remove_doctype::{RemoveDoctype, RemoveDoctypeOptimization};
use crate::svg::node::Node;

pub mod remove_comments;
pub mod remove_doctype;

verus! {

/// The kinds of optimization.
#[derive(Copy, Clone, Debug, PartialEq, Eq, Hash, Structural)]
pub enum Kind {
    /// Drops every comment.
    RemoveComments,
    /// Drops the doctype.
    RemoveDoctype,
}

impl Kind {
    /// Whether an optimization of this kind drops `node`.
    pub open spec fn drops(self, node: Node) -> bool {
        match self {
            Kind::RemoveComments => node is Comment,
            Kind::RemoveDoctype => node is Doctype,
        }
    }
}

/// Whether `node` survives optimizations of the given kinds: none of them
/// drops it.
pub open spec fn survives(node: Node, kinds: Set<Kind>) -> bool {
    forall|kind: Kind| kinds.contains(kind) ==> !#[trigger] kind.drops(node)
}

/// The test that [`kept`] filters by.
pub open spec fn survivor(kinds: Set<Kind>) -> spec_fn(Node) -> bool {
    |node: Node| survives(node, kinds)
}

/// The nodes that optimizations of the given kinds keep: those that survive
/// all of them, in their order.
pub open spec fn kept(nodes: Seq<Node>, kinds: Set<Kind>) -> Seq<Node> {
    nodes.filter(survivor(kinds))
}

/// A node survives two sets of optimizations taken together exactly when it
/// survives each.
pub proof fn lemma_survives_union(node: Node, first: Set<Kind>, second: Set<Kind>)
    ensures
        survives(node, first.union(second)) <==> survives(node, first) && survives(node, second),
{
    if survives(node, first) && survives(node, second) {
        assert forall|kind: Kind| first.union(second).contains(kind) implies !#[trigger] kind.drops(
            node,
        ) by {}
    }
    if survives(node, first.union(second)) {
        assert forall|kind: Kind| first.contains(kind) implies !#[trigger] kind.drops(node) by {
            assert(first.union(second).contains(kind));
        }
        assert forall|kind: Kind| second.contains(kind) implies !#[trigger] kind.drops(node) by {
            assert(first.union(second).contains(kind));
        }
    }
}

/// With no optimization registered every node is kept: the document is
/// unchanged.
pub proof fn lemma_kept_by_none(nodes: Seq<Node>)
    ensures
        kept(nodes, Set::empty()) == nodes,
    decreases nodes.len(),
{
    reveal(Seq::filter);
    if nodes.len() > 0 {
        lemma_kept_by_none(nodes.drop_last());
        assert(survives(nodes.last(), Set::empty()));
        assert(nodes.drop_last().push(nodes.last()) == nodes);
    }
}

/// Applying one set of optimizations and then another keeps what applying
/// all of them at once keeps.
pub proof fn lemma_kept_in_turn(nodes: Seq<Node>, first: Set<Kind>, second: Set<Kind>)
    ensures
        kept(kept(nodes, first), second) == kept(nodes, first.union(second)),
    decreases nodes.len(),
{
    reveal(Seq::filter);
    if nodes.len() > 0 {
        let front = nodes.drop_last();
        let last = nodes.last();
        lemma_kept_in_turn(front, first, second);
        lemma_survives_union(last, first, second);
        if survives(last, first) {
            kept(front, first).lemma_filter_push(last, survivor(second));
        }
    }
}

/// Optimizations commute: applied in either order, two sets of
/// optimizations keep the same nodes.
pub proof fn lemma_kept_commutes(nodes: Seq<Node>, first: Set<Kind>, second: Set<Kind>)
    ensures
        kept(kept(nodes, first), second) == kept(kept(nodes, second), first),
{
    lemma_kept_in_turn(nodes, first, second);
    lemma_kept_in_turn(nodes, second, first);
    assert(first.union(second) == second.union(first));
}

/// Optimizations are idempotent: applied a second time, they change nothing.
pub proof fn lemma_kept_idempotent(nodes: Seq<Node>, kinds: Set<Kind>)
    ensures
        kept(kept(nodes, kinds), kinds) == kept(nodes, kinds),
{
    lemma_kept_in_turn(nodes, kinds, kinds);
    assert(kinds.union(kinds) == kinds);
}

/// What is kept holds no node that a registered optimization drops: no
/// comment once comments are removed, no doctype once the doctype is.
pub proof fn lemma_kept_holds_no_dropped(nodes: Seq<Node>, kinds: Set<Kind>, kind: Kind, i: int)
    requires
        kinds.contains(kind),
        0 <= i < kept(nodes, kinds).len(),
    ensures
        !kind.drops(kept(nodes, kinds)[i]),
{
    nodes.lemma_filter_pred(survivor(kinds), i);
}

/// Of one node, what is kept is the node if it survives, and nothing
/// otherwise.
pub proof fn lemma_kept_of_one(node: Node, kinds: Set<Kind>)
    ensures
        kept(seq![node], kinds) == if survives(node, kinds) {
            seq![node]
        } else {
            Seq::empty()
        },
{
    reveal_with_fuel(Seq::filter, 2);
    assert(seq![node].drop_last() == Seq::<Node>::empty());
    assert(Seq::<Node>::empty().push(node) == seq![node]);
}

/// The order of the document is kept: what is kept of two parts of a
/// document, one after the other, is what is kept of the first, then what is
/// kept of the second.
pub proof fn lemma_kept_of_parts(first: Seq<Node>, second: Seq<Node>, kinds: Set<Kind>)
    ensures
        kept(first + second, kinds) == kept(first, kinds) + kept(second, kinds),
{
    Seq::filter_distributes_over_add(first, second, survivor(kinds));
}

/// What is kept is a part of the document: every node that survives is
/// kept, and what is kept was there.
pub proof fn lemma_kept_is_part(nodes: Seq<Node>, kinds: Set<Kind>)
    ensures
        kept(nodes, kinds).len() <= nodes.len(),
        forall|i: int|
            0 <= i < nodes.len() && survives(nodes[i], kinds) ==> #[trigger] kept(
                nodes,
                kinds,
            ).contains(nodes[i]),
        forall|i: int|
            0 <= i < kept(nodes, kinds).len() ==> nodes.contains(#[trigger] kept(nodes, kinds)[i]),
{
    nodes.lemma_filter_len(survivor(kinds));
    assert forall|i: int| 0 <= i < nodes.len() && survives(nodes[i], kinds) implies #[trigger] kept(
        nodes,
        kinds,
    ).contains(nodes[i]) by {
        nodes.lemma_filter_contains(survivor(kinds), i);
    }
    assert forall|i: int| 0 <= i < kept(nodes, kinds).len() implies nodes.contains(
        #[trigger] kept(nodes, kinds)[i],
    ) by {
        nodes.lemma_filter_contains_rev(survivor(kinds), kept(nodes, kinds)[i]);
    }
}

/// An optimization that could not be applied.
#[derive(Clone, Debug, PartialEq, Eq)]
pub struct OptimizeError {
    pub reason: String,
}

/// Keeps the nodes that survive the optimizations selected by the two flags.
pub(crate) fn retain(nodes: Vec<Node>, comments: bool, doctype: bool) -> (left: Vec<Node>)
    ensures
        left@ == kept(nodes@, selection(comments, doctype)),
{
    let ghost kinds = selection(comments, doctype);
    let mut left: Vec<Node> = Vec::new();
    assert(nodes@.take(0).filter(survivor(kinds)) == Seq::<Node>::empty()) by {
        reveal(Seq::filter);
    }
    for node in iter: nodes
        invariant
            iter.seq() == nodes@,
            kinds == selection(comments, doctype),
            left@ == kept(nodes@.take(iter.index()), kinds),
    {
        let dropped = match node {
            Node::Comment(_) => comments,
            Node::Doctype(_) => doctype,
            _ => false,
        };
        proof {
            let done = nodes@.take(iter.index());
            assert(nodes@.take(iter.index() + 1) == done.push(node));
            done.lemma_filter_push(node, survivor(kinds));
            lemma_survives_selection(node, comments, doctype);
        }
        if !dropped {
            left.push(node);
        }
    }
    assert(nodes@.take(nodes@.len() as int) == nodes@);
    left
}

/// The kinds that two flags select.
pub open spec fn selection(comments: bool, doctype: bool) -> Set<Kind> {
    Set::new(
        |kind: Kind|
            match kind {
                Kind::RemoveComments => comments,
                Kind::RemoveDoctype => doctype,
            },
    )
}

proof fn lemma_survives_selection(node: Node, comments: bool, doctype: bool)
    ensures
        survives(node, selection(comments, doctype)) <==> !(comments && node is Comment) && !(
        doctype && node is Doctype),
{
    let kinds = selection(comments, doctype);
    if !(comments && node is Comment) && !(doctype && node is Doctype) {
        assert forall|kind: Kind| kinds.contains(kind) implies !#[trigger] kind.drops(node) by {}
    } else if comments && node is Comment {
        assert(kinds.contains(Kind::RemoveComments) && Kind::RemoveComments.drops(node));
    } else {
        assert(kinds.contains(Kind::RemoveDoctype) && Kind::RemoveDoctype.drops(node));
    }
}

} // verus!
