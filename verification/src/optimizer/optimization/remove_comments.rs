//! Removal of comments.

use vstd::prelude::*;

use super::{
    kept, lemma_kept_holds_no_dropped, retain, selection, Kind, OptimizeError,
};
use crate::svg::node::Node;
use crate::svg::Svg;

verus! {

/// Removes every comment of a document, in place.
#[derive(Debug, Default, Hash, Eq, PartialEq)]
pub struct RemoveCommentsOptimization;

impl RemoveCommentsOptimization {
    /// Drops the comments of `svg` and keeps its other nodes in order. Never
    /// fails.
    pub fn apply(&self, svg: &mut Svg) -> (outcome: Result<(), OptimizeError>)
        ensures
            outcome is Ok,
            final(svg).0@ == kept(old(svg).0@, set![Kind::RemoveComments]),
            forall|i: int|
                0 <= i < final(svg).0@.len() ==> !(#[trigger] final(svg).0@[i] is Comment),
    {
        let mut nodes: Vec<Node> = Vec::new();
        std::mem::swap(&mut svg.0, &mut nodes);
        assert(selection(true, false) == set![Kind::RemoveComments]);
        svg.0 = retain(nodes, true, false);
        proof {
            let kinds = set![Kind::RemoveComments];
            assert forall|i: int| 0 <= i < svg.0@.len() implies !(#[trigger] svg.0@[i]
                is Comment) by {
                lemma_kept_holds_no_dropped(old(svg).0@, kinds, Kind::RemoveComments, i);
            }
        }
        Ok(())
    }
}

/// Removes every comment of a sequence of nodes.
pub struct RemoveComments;

impl RemoveComments {
    /// The nodes without the comments, in order. Never fails.
    pub fn apply(nodes: Vec<Node>) -> (outcome: Result<Vec<Node>, OptimizeError>)
        ensures
            outcome matches Ok(left) && left@ == kept(nodes@, set![Kind::RemoveComments]),
            outcome matches Ok(left) ==> forall|i: int|
                0 <= i < left@.len() ==> !(#[trigger] left@[i] is Comment),
    {
        assert(selection(true, false) == set![Kind::RemoveComments]);
        let left = retain(nodes, true, false);
        proof {
            let kinds = set![Kind::RemoveComments];
            assert forall|i: int| 0 <= i < left@.len() implies !(#[trigger] left@[i]
                is Comment) by {
                lemma_kept_holds_no_dropped(nodes@, kinds, Kind::RemoveComments, i);
            }
        }
        Ok(left)
    }
}

} // verus!
