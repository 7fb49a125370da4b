//! The document model and the adapters that read and write it.

use vstd::prelude::*;

use self::error::{ParseError, ParseFault, WriteError};
use self::node::{node_views, Node, NodeView};
use self::invariants::declaration_leads;
use self::parser::{parsed, Parser};
use self::writer::{write_view, written, Writer};

pub mod emitter;
pub mod error;
pub mod event;
pub mod invariants;
pub mod lexer;
pub mod markup;
pub mod node;
pub mod parser;
pub mod round_trip;
pub mod writer;

verus! {

/// A document: its nodes, in document order.
#[derive(Debug, PartialEq, Eq)]
pub struct Svg(pub Vec<Node>);

/// The model of the outcome of reading a document.
pub open spec fn read_view(outcome: Result<Svg, ParseError>) -> Result<Seq<NodeView>, ParseFault> {
    match outcome {
        Ok(svg) => Ok(node_views(svg.0@)),
        Err(error) => Err(error@),
    }
}

impl Svg {
    /// Reads a document from its text. No document is given unless the whole
    /// text could be read.
    pub fn read(input: &[u8]) -> (outcome: Result<Svg, ParseError>)
        ensures
            read_view(outcome) == parsed(input@),
            outcome matches Ok(svg) ==> declaration_leads(node_views(svg.0@)),
    {
        match Parser::read(input) {
            Ok(nodes) => Ok(Svg(nodes)),
            Err(error) => Err(error),
        }
    }

    /// Writes the document to its text.
    pub fn write(&self) -> (outcome: Result<Vec<u8>, WriteError>)
        ensures
            write_view(outcome) == written(node_views(self.0@)),
    {
        Writer::write(&self.0)
    }

    /// The nodes of the document.
    #[inline]
    pub fn nodes(&self) -> (nodes: &Vec<Node>)
        ensures
            nodes == &self.0,
    {
        &self.0
    }
}

} // verus!
