//! Removal of the doctype.

use vstd::prelude::*;

use super::{
    kept, lemma_kept_holds_no_dropped, retain, selection, Kind, OptimizeError,
};
use crate::svg::node::Node;
use crate::svg::Svg;

verus! {

/// Removes the doctype of a document, in place.
#[derive(Debug, Default, Hash, Eq, PartialEq)]
pub struct RemoveDoctypeOptimization;

impl RemoveDoctypeOptimization {
    /// Drops every doctype node of `svg` and keeps its other nodes in order.
    /// Never fails.
    pub fn apply(&self, svg: &mut Svg) -> (outcome: Result<(), OptimizeError>)
        ensures
            outcome is Ok,
            final(svg).0@ == kept(old(svg).0@, set![Kind::RemoveDoctype]),
            forall|i: int|
                0 <= i < final(svg).0@.len() ==> !(#[trigger] final(svg).0@[i] is Doctype),
    {
        let mut nodes: Vec<Node> = Vec::new();
        std::mem::swap(&mut svg.0, &mut nodes);
        assert(selection(false, true) == set![Kind::RemoveDoctype]);
        svg.0 = retain(nodes, false, true);
        proof {
            let kinds = set![Kind::RemoveDoctype];
            assert forall|i: int| 0 <= i < svg.0@.len() implies !(#[trigger] svg.0@[i]
                is Doctype) by {
                lemma_kept_holds_no_dropped(old(svg).0@, kinds, Kind::RemoveDoctype, i);
            }
        }
        Ok(())
    }
}

/// Removes the doctype of a sequence of nodes.
pub struct RemoveDoctype;

impl RemoveDoctype {
    /// The nodes without any doctype node, in order. Never fails.
    pub fn apply(nodes: Vec<Node>) -> (outcome: Result<Vec<Node>, OptimizeError>)
        ensures
            outcome matches Ok(left) && left@ == kept(nodes@, set![Kind::RemoveDoctype]),
            outcome matches Ok(left) ==> forall|i: int|
                0 <= i < left@.len() ==> !(#[trigger] left@[i] is Doctype),
    {
        assert(selection(false, true) == set![Kind::RemoveDoctype]);
        let left = retain(nodes, false, true);
        proof {
            let kinds = set![Kind::RemoveDoctype];
            assert forall|i: int| 0 <= i < left@.len() implies !(#[trigger] left@[i]
                is Doctype) by {
                lemma_kept_holds_no_dropped(nodes@, kinds, Kind::RemoveDoctype, i);
            }
        }
        Ok(left)
    }
}

} // verus!
