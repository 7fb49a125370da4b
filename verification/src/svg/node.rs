//! Nodes, elements and attributes of an SVG document.
//!
//! A document is a flat, ordered sequence of [`Node`]s: an element contributes
//! an opening and a closing marker, and nesting is implicit in their order.

use vstd::prelude::*;

use super::error::{NodeKind, ParseError};
use super::event::{RawAttribute, RawAttributeView};

verus! {

/// The XML version a document declares.
#[derive(Copy, Clone, PartialEq, Eq, PartialOrd, Ord, Debug, Structural)]
pub enum Version {
    /// XML version 1.0.
    Version10,
    /// XML version 1.1.
    Version11,
}

impl Version {
    /// The literal that stands for this version in a declaration.
    pub open spec fn literal(self) -> Seq<char> {
        match self {
            Version::Version10 => "1.0"@,
            Version::Version11 => "1.1"@,
        }
    }

    /// The version a literal stands for, if any.
    pub open spec fn parse(literal: Seq<char>) -> Option<Version> {
        if literal == "1.0"@ {
            Some(Version::Version10)
        } else if literal == "1.1"@ {
            Some(Version::Version11)
        } else {
            None
        }
    }

    /// Reads a version from its literal; any literal but `1.0` and `1.1` is
    /// rejected.
    pub fn from_str(s: &str) -> (result: Result<Version, ParseError>)
        ensures
            match Version::parse(s@) {
                Some(version) => result == Ok::<Version, ParseError>(version),
                None => result matches Err(ParseError::InvalidVersion { literal }) && literal@
                    == s@,
            },
    {
        let given = s.to_owned();
        if given == String::from_str("1.0") {
            Ok(Version::Version10)
        } else if given == String::from_str("1.1") {
            Ok(Version::Version11)
        } else {
            Err(ParseError::InvalidVersion { literal: given })
        }
    }

    /// The literal of this version.
    pub fn as_str(&self) -> (literal: &'static str)
        ensures
            literal@ == self.literal(),
    {
        match self {
            Version::Version10 => "1.0",
            Version::Version11 => "1.1",
        }
    }

    /// The literal of this version, owned.
    pub fn to_string(&self) -> (literal: String)
        ensures
            literal@ == self.literal(),
    {
        String::from_str(self.as_str())
    }
}

/// The literal of a version reads back as that version.
pub proof fn lemma_version_literal_parses(version: Version)
    ensures
        Version::parse(version.literal()) == Some(version),
{
    reveal_strlit("1.0");
    reveal_strlit("1.1");
    assert("1.0"@[2] != "1.1"@[2]);
}

/// An attribute of an element.
#[derive(Clone, Debug, PartialEq, Eq)]
pub enum Attribute {
    /// A plain attribute, such as `fill="#000000"`.
    Local { key: String, value: String },
    /// An attribute qualified by a namespace, such as `xml:space="preserve"`:
    /// `key` is `space`, `prefix` is `xml` and `namespace` is the URI that
    /// the prefix is bound to.
    Namespaced { key: String, value: String, namespace: String, prefix: Option<String> },
    /// A namespace declaration, carried as an attribute of the root element.
    Declaration { key: String, value: String },
}

/// The model of an [`Attribute`].
pub enum AttributeView {
    Local { key: Seq<char>, value: Seq<char> },
    Namespaced {
        key: Seq<char>,
        value: Seq<char>,
        namespace: Seq<char>,
        prefix: Option<Seq<char>>,
    },
    Declaration { key: Seq<char>, value: Seq<char> },
}

/// The model of an optional string.
pub open spec fn text_view(text: Option<String>) -> Option<Seq<char>> {
    match text {
        Some(text) => Some(text@),
        None => None,
    }
}

impl View for Attribute {
    type V = AttributeView;

    open spec fn view(&self) -> AttributeView {
        match *self {
            Attribute::Local { key, value } => AttributeView::Local { key: key@, value: value@ },
            Attribute::Namespaced { key, value, namespace, prefix } => AttributeView::Namespaced {
                key: key@,
                value: value@,
                namespace: namespace@,
                prefix: text_view(prefix),
            },
            Attribute::Declaration { key, value } => AttributeView::Declaration {
                key: key@,
                value: value@,
            },
        }
    }
}

impl AttributeView {
    /// The name under which the attribute is known: a namespaced attribute
    /// carries its prefix, a namespace declaration the prefix `xmlns`.
    pub open spec fn qualified_key(self) -> Seq<char> {
        match self {
            AttributeView::Local { key, .. } => key,
            AttributeView::Namespaced { key, prefix, .. } => match prefix {
                Some(prefix) => prefix + ":"@ + key,
                None => key,
            },
            AttributeView::Declaration { key, .. } => "xmlns:"@ + key,
        }
    }

    /// The attribute's value.
    pub open spec fn value(self) -> Seq<char> {
        match self {
            AttributeView::Local { value, .. } => value,
            AttributeView::Namespaced { value, .. } => value,
            AttributeView::Declaration { value, .. } => value,
        }
    }

    /// The name in front of `=` when the attribute is rendered.
    pub open spec fn rendered_name(self) -> Seq<char> {
        match self {
            AttributeView::Local { key, .. } => key,
            AttributeView::Namespaced { key, prefix, .. } => match prefix {
                Some(prefix) => prefix + ":"@ + key,
                None => key,
            },
            AttributeView::Declaration { key, .. } => key,
        }
    }

    /// The attribute as text: its name, `=`, and its value between double
    /// quotes. The value is not escaped.
    pub open spec fn rendered(self) -> Seq<char> {
        self.rendered_name() + "=\""@ + self.value() + "\""@
    }
}

impl Attribute {
    /// The name under which the attribute is known.
    pub fn key(&self) -> (name: String)
        ensures
            name@ == self@.qualified_key(),
    {
        match self {
            Attribute::Local { key, .. } => key.clone(),
            Attribute::Namespaced { key, prefix, .. } => match prefix {
                Some(prefix) => {
                    let mut name = prefix.clone();
                    name.append(":");
                    name.append(key.as_str());
                    name
                },
                None => key.clone(),
            },
            Attribute::Declaration { key, .. } => {
                let mut name = String::from_str("xmlns:");
                name.append(key.as_str());
                name
            },
        }
    }

    /// The attribute's value.
    pub fn value(&self) -> (value: &str)
        ensures
            value@ == self@.value(),
    {
        match self {
            Attribute::Local { value, .. } => value.as_str(),
            Attribute::Namespaced { value, .. } => value.as_str(),
            Attribute::Declaration { value, .. } => value.as_str(),
        }
    }

    /// Renders the attribute as it stands in a tag.
    pub fn to_string(&self) -> (text: String)
        ensures
            text@ == self@.rendered(),
    {
        let mut text = match self {
            Attribute::Local { key, .. } => key.clone(),
            Attribute::Namespaced { key, prefix, .. } => match prefix {
                Some(prefix) => {
                    let mut name = prefix.clone();
                    name.append(":");
                    name.append(key.as_str());
                    name
                },
                None => key.clone(),
            },
            Attribute::Declaration { key, .. } => key.clone(),
        };
        text.append("=\"");
        text.append(self.value());
        text.append("\"");
        text
    }
}

impl RawAttributeView {
    /// The attribute that stands for a raw attribute: namespaced where the
    /// tokenizer reports a namespace for it, plain otherwise.
    pub open spec fn attribute(self) -> AttributeView {
        match self.namespace {
            Some(namespace) => AttributeView::Namespaced {
                key: self.local_name,
                value: self.value,
                namespace,
                prefix: self.prefix,
            },
            None => AttributeView::Local { key: self.local_name, value: self.value },
        }
    }
}

impl From<RawAttribute> for Attribute {
    fn from(raw: RawAttribute) -> (attribute: Attribute)
    {
        match raw.namespace {
            Some(namespace) => Attribute::Namespaced {
                key: raw.local_name,
                value: raw.value,
                namespace,
                prefix: raw.prefix,
            },
            None => Attribute::Local { key: raw.local_name, value: raw.value },
        }
    }
}

impl vstd::std_specs::convert::FromSpecImpl<RawAttribute> for Attribute {
    open spec fn obeys_from_spec() -> bool {
        true
    }

    open spec fn from_spec(raw: RawAttribute) -> Attribute {
        match raw.namespace {
            Some(namespace) => Attribute::Namespaced {
                key: raw.local_name,
                value: raw.value,
                namespace,
                prefix: raw.prefix,
            },
            None => Attribute::Local { key: raw.local_name, value: raw.value },
        }
    }
}

/// Whether an element marker opens or closes its element.
#[derive(Copy, Clone, Debug, PartialEq, Eq, Structural)]
pub enum ElementType {
    Open,
    Close,
}

/// One marker of an element: its opening tag, with the attributes, or its
/// closing tag, without any.
#[derive(Clone, Debug, PartialEq, Eq)]
pub struct Element {
    pub name: String,
    pub attributes: Vec<Attribute>,
    pub kind: ElementType,
}

/// The model of an [`Element`].
pub struct ElementView {
    pub name: Seq<char>,
    pub attributes: Seq<AttributeView>,
    pub kind: ElementType,
}

/// The models of a sequence of attributes, in order.
pub open spec fn attribute_views(attributes: Seq<Attribute>) -> Seq<AttributeView> {
    attributes.map_values(|attribute: Attribute| attribute@)
}

impl View for Element {
    type V = ElementView;

    open spec fn view(&self) -> ElementView {
        ElementView {
            name: self.name@,
            attributes: attribute_views(self.attributes@),
            kind: self.kind,
        }
    }
}

/// One unit of a document, in document order.
#[derive(Debug, PartialEq, Eq)]
pub enum Node {
    /// The XML declaration.
    Declaration { version: Version, encoding: String },
    /// The `<!DOCTYPE ...>` declaration, verbatim.
    Doctype(String),
    /// An opening or closing element marker.
    Element(Element),
    /// A `CDATA` section.
    CData(String),
    /// A comment.
    Comment(String),
    /// Character data.
    Characters(String),
}

/// The model of a [`Node`].
pub enum NodeView {
    Declaration { version: Version, encoding: Seq<char> },
    Doctype(Seq<char>),
    Element(ElementView),
    CData(Seq<char>),
    Comment(Seq<char>),
    Characters(Seq<char>),
}

impl View for Node {
    type V = NodeView;

    open spec fn view(&self) -> NodeView {
        match *self {
            Node::Declaration { version, encoding } => NodeView::Declaration {
                version,
                encoding: encoding@,
            },
            Node::Doctype(text) => NodeView::Doctype(text@),
            Node::Element(element) => NodeView::Element(element@),
            Node::CData(text) => NodeView::CData(text@),
            Node::Comment(text) => NodeView::Comment(text@),
            Node::Characters(text) => NodeView::Characters(text@),
        }
    }
}

impl Node {
    /// The kind of the node.
    pub fn kind(&self) -> (kind: NodeKind)
        ensures
            kind == self@.kind(),
    {
        match self {
            Node::Declaration { .. } => NodeKind::Declaration,
            Node::Doctype(_) => NodeKind::Doctype,
            Node::Element(element) => match element.kind {
                ElementType::Open => NodeKind::StartElement,
                ElementType::Close => NodeKind::EndElement,
            },
            Node::CData(_) => NodeKind::CData,
            Node::Comment(_) => NodeKind::Comment,
            Node::Characters(_) => NodeKind::Characters,
        }
    }
}

/// The models of a sequence of nodes, in order.
pub open spec fn node_views(nodes: Seq<Node>) -> Seq<NodeView> {
    nodes.map_values(|node: Node| node@)
}

} // verus!
