//! Structural optimizer for SVG documents: a document is read into a flat
//! sequence of nodes, filtered by the registered optimizations and written
//! back as XML text.

use vstd::prelude::*;

use crate::optimizer::optimization::{kept, Kind, OptimizeError};
use crate::optimizer::{Optimization, Optimizer};
use crate::svg::error::{ParseError, WriteError};
use crate::svg::node::node_views;
use crate::svg::invariants::declaration_leads;
use crate::svg::parser::parsed;
use crate::svg::writer::{write_view, written};
use crate::svg::Svg;

pub mod optimizer;
pub mod svg;

verus! {

/// A document together with the optimizations to apply to it.
pub struct SvgOptimizer {
    pub optimizer: Optimizer,
    pub svg: Svg,
}

impl SvgOptimizer {
    /// Puts a document and an optimizer together.
    pub fn new(svg: Svg, optimizer: Optimizer) -> (both: SvgOptimizer)
        ensures
            both.svg == svg,
            both.optimizer == optimizer,
    {
        SvgOptimizer { optimizer, svg }
    }

    /// Reads a document from its text, with no optimization registered.
    pub fn read(input: &[u8]) -> (outcome: Result<SvgOptimizer, ParseError>)
        ensures
            match parsed(input@) {
                Ok(nodes) => outcome matches Ok(both) && node_views(both.svg.0@) == nodes
                    && both.optimizer@ == Set::<Kind>::empty(),
                Err(fault) => outcome matches Err(error) && error@ == fault,
            },
            outcome matches Ok(both) ==> declaration_leads(node_views(both.svg.0@)),
    {
        match Svg::read(input) {
            Ok(svg) => Ok(SvgOptimizer::new(svg, Optimizer::default())),
            Err(error) => Err(error),
        }
    }

    /// Writes the document to its text.
    pub fn write(&self) -> (outcome: Result<Vec<u8>, WriteError>)
        ensures
            write_view(outcome) == written(node_views(self.svg.0@)),
    {
        self.svg.write()
    }

    /// Applies the registered optimizations to the document.
    pub fn optimize(&mut self) -> (outcome: Result<(), OptimizeError>)
        ensures
            outcome is Ok,
            final(self).svg.0@ == kept(old(self).svg.0@, old(self).optimizer@),
            final(self).optimizer == old(self).optimizer,
    {
        self.optimizer.apply(&mut self.svg)
    }

    /// Registers an optimization, to be applied when the document is
    /// optimized.
    pub fn add_optimization(&mut self, optimization: Optimization)
        ensures
            final(self).optimizer@ == old(self).optimizer@.insert(optimization.kind()),
            final(self).svg == old(self).svg,
    {
        self.optimizer.append(optimization);
    }
}

} // verus!
