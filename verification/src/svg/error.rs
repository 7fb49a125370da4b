//! Errors of the reading and writing adapters.

use vstd::prelude::*;

verus! {

/// Why a document could not be read.
#[derive(Clone, Debug, PartialEq, Eq)]
pub enum ParseError {
    /// The tokenizer rejected the input; `message` is its own description,
    /// position included.
    Malformed { message: String },
    /// The document declares an XML version other than `1.0` and `1.1`.
    InvalidVersion { literal: String },
}

/// The model of a [`ParseError`]: the tokenizer's wording is left out.
pub enum ParseFault {
    Malformed,
    InvalidVersion(Seq<char>),
}

impl View for ParseError {
    type V = ParseFault;

    open spec fn view(&self) -> ParseFault {
        match *self {
            ParseError::Malformed { .. } => ParseFault::Malformed,
            ParseError::InvalidVersion { literal } => ParseFault::InvalidVersion(literal@),
        }
    }
}

impl ParseError {
    /// A one-line description of the error.
    pub fn to_string(&self) -> (text: String)
        ensures
            self matches ParseError::Malformed { message } ==> text@ == message@,
            self matches ParseError::InvalidVersion { literal } ==> text@
                == "Invalid XML version: "@ + literal@,
    {
        match self {
            ParseError::Malformed { message } => message.clone(),
            ParseError::InvalidVersion { literal } => {
                let mut text = String::from_str("Invalid XML version: ");
                text.append(literal.as_str());
                text
            },
        }
    }
}

/// The kinds of node, as a write error names them.
#[derive(Copy, Clone, Debug, PartialEq, Eq, Hash, Structural)]
pub enum NodeKind {
    Declaration,
    Doctype,
    StartElement,
    EndElement,
    CData,
    Comment,
    Characters,
}

impl NodeKind {
    /// What the kind is called in a message.
    pub open spec fn label(self) -> Seq<char> {
        match self {
            NodeKind::Declaration => "Start Document"@,
            NodeKind::Doctype => "Doctype"@,
            NodeKind::StartElement => "Start Element"@,
            NodeKind::EndElement => "End Element"@,
            NodeKind::CData => "CDATA"@,
            NodeKind::Comment => "comment"@,
            NodeKind::Characters => "characters"@,
        }
    }

    /// What the kind is called in a message.
    pub fn as_str(&self) -> (label: &'static str)
        ensures
            label@ == self.label(),
    {
        match self {
            NodeKind::Declaration => "Start Document",
            NodeKind::Doctype => "Doctype",
            NodeKind::StartElement => "Start Element",
            NodeKind::EndElement => "End Element",
            NodeKind::CData => "CDATA",
            NodeKind::Comment => "comment",
            NodeKind::Characters => "characters",
        }
    }
}

/// Why a document could not be written: the writer did not take the node at
/// `position`, which is of kind `kind`; `cause` is the writer's own
/// description.
#[derive(Clone, Debug, PartialEq, Eq)]
pub struct WriteError {
    pub kind: NodeKind,
    pub position: usize,
    pub cause: String,
}

/// The model of a [`WriteError`]: the writer's wording is left out.
pub struct WriteFault {
    pub kind: NodeKind,
    pub position: int,
}

impl View for WriteError {
    type V = WriteFault;

    open spec fn view(&self) -> WriteFault {
        WriteFault { kind: self.kind, position: self.position as int }
    }
}

impl WriteError {
    /// A one-line description of the error: which kind of node failed, and
    /// the writer's description.
    pub fn to_string(&self) -> (text: String)
        ensures
            text@ == "Failed to write SVG "@ + self.kind.label() + ": "@ + self.cause@,
    {
        let mut text = String::from_str("Failed to write SVG ");
        text.append(self.kind.as_str());
        text.append(": ");
        text.append(self.cause.as_str());
        text
    }
}

} // verus!
