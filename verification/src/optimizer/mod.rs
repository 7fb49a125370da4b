//! The optimization engine: at most one optimization of each kind, each
//! applied once.

use vstd::prelude::*;

use self::optimization::{
    kept, lemma_kept_by_none, lemma_kept_in_turn, Kind, OptimizeError,
    RemoveCommentsOptimization, RemoveDoctypeOptimization,
};
use crate::svg::Svg;

pub mod optimization;

verus! {

/// An optimization to register with an [`Optimizer`].
#[derive(Debug, Hash, Eq, PartialEq)]
pub enum Optimization {
    /// Remove all comments from the document.
    RemoveComments(RemoveCommentsOptimization),
    /// Remove the doctype declaration from the document.
    RemoveDoctype(RemoveDoctypeOptimization),
}

impl Optimization {
    /// The kind of the optimization.
    pub open spec fn kind(self) -> Kind {
        match self {
            Optimization::RemoveComments(_) => Kind::RemoveComments,
            Optimization::RemoveDoctype(_) => Kind::RemoveDoctype,
        }
    }
}

/// The registered optimizations: for each kind, the one registered first.
pub struct Optimizer {
    remove_comments: Option<RemoveCommentsOptimization>,
    remove_doctype: Option<RemoveDoctypeOptimization>,
}

impl View for Optimizer {
    type V = Set<Kind>;

    /// The kinds that are registered.
    closed spec fn view(&self) -> Set<Kind> {
        Set::new(
            |kind: Kind|
                match kind {
                    Kind::RemoveComments => self.remove_comments is Some,
                    Kind::RemoveDoctype => self.remove_doctype is Some,
                },
        )
    }
}

impl Default for Optimizer {
    fn default() -> (optimizer: Optimizer)
        ensures
            optimizer@ == Set::<Kind>::empty(),
    {
        Optimizer::new()
    }
}

impl Optimizer {
    /// An optimizer with nothing registered.
    pub fn new() -> (optimizer: Optimizer)
        ensures
            optimizer@ == Set::<Kind>::empty(),
    {
        let optimizer = Optimizer { remove_comments: None, remove_doctype: None };
        assert(optimizer@ == Set::<Kind>::empty());
        optimizer
    }

    /// Registers an optimization. Where one of its kind is registered
    /// already, nothing changes.
    pub fn append(&mut self, optimization: Optimization)
        ensures
            final(self)@ == old(self)@.insert(optimization.kind()),
    {
        match optimization {
            Optimization::RemoveComments(optimization) => {
                if self.remove_comments.is_none() {
                    self.remove_comments = Some(optimization);
                }
            },
            Optimization::RemoveDoctype(optimization) => {
                if self.remove_doctype.is_none() {
                    self.remove_doctype = Some(optimization);
                }
            },
        }
        assert(self@ == old(self)@.insert(optimization.kind()));
    }

    /// Applies every registered optimization once: the nodes that survive
    /// all of them stay, in order. The built-in optimizations never fail.
    pub fn apply(&self, svg: &mut Svg) -> (outcome: Result<(), OptimizeError>)
        ensures
            outcome is Ok,
            final(svg).0@ == kept(old(svg).0@, self@),
    {
        let ghost comments: Set<Kind> = if self.remove_comments is Some {
            set![Kind::RemoveComments]
        } else {
            Set::empty()
        };
        let ghost doctype: Set<Kind> = if self.remove_doctype is Some {
            set![Kind::RemoveDoctype]
        } else {
            Set::empty()
        };
        match &self.remove_comments {
            Some(optimization) => {
                optimization.apply(svg)?;
            },
            None => {
                proof {
                    lemma_kept_by_none(svg.0@);
                }
            },
        }
        let ghost halfway = svg.0@;
        match &self.remove_doctype {
            Some(optimization) => {
                optimization.apply(svg)?;
            },
            None => {
                proof {
                    lemma_kept_by_none(svg.0@);
                }
            },
        }
        proof {
            assert(halfway == kept(old(svg).0@, comments));
            assert(svg.0@ == kept(halfway, doctype));
            lemma_kept_in_turn(old(svg).0@, comments, doctype);
            assert(comments.union(doctype) == self@);
        }
        Ok(())
    }
}

} // verus!
