use svgo::svg::markup::{Markup, QualifiedAttribute};
use svgo::svg::error::{NodeKind, WriteError};
use svgo::svg::node::{Attribute, Element, ElementType, Node, Version};
use svgo::svg::writer::Writer;
use svgo::svg::Svg;

const JAPAN_GROUP: &[u8] = b"<?xml version=\"1.0\" encoding=\"UTF-8\"?>
<g id=\"japan\">
  <title>Flag of Japan</title>
  <rect x=\"0\" y=\"0\" width=\"900\" height=\"600\" fill=\"#fff\" />
  <circle cx=\"450\" cy=\"300\" r=\"180\" fill=\"#bc002d\" />
  <text xml:space=\"preserve\">  &lt;Nisshoki&gt; &amp; <![CDATA[<Hinomaru>]]>  </text>
</g>";

fn text(value: &str) -> String {
    value.to_string()
}

fn open(name: &str, attributes: Vec<Attribute>) -> Node {
    Node::Element(Element {
        name: text(name),
        attributes,
        kind: ElementType::Open,
    })
}

fn close(name: &str) -> Node {
    Node::Element(Element {
        name: text(name),
        attributes: Vec::new(),
        kind: ElementType::Close,
    })
}

fn declaration(version: Version) -> Node {
    Node::Declaration {
        version,
        encoding: text("UTF-8"),
    }
}

fn written(nodes: Vec<Node>) -> String {
    String::from_utf8(Writer::write(&nodes).unwrap()).unwrap()
}

fn refused(nodes: Vec<Node>) -> WriteError {
    Writer::write(&nodes).unwrap_err()
}

#[test]
fn read_writes_svg() {
    let input_str = String::from_utf8(JAPAN_GROUP.to_vec()).unwrap();

    let svg = Svg::read(JAPAN_GROUP).unwrap();
    let output_bytes: Vec<u8> = svg.write().unwrap();

    let output_str = String::from_utf8(output_bytes).unwrap();

    assert_eq!(input_str, output_str);
}

#[test]
fn write_gives_the_text_of_a_small_document() {
    let nodes = vec![
        declaration(Version::Version10),
        Node::Comment(text(" c ")),
        open(
            "g",
            vec![Attribute::Local {
                key: text("id"),
                value: text("a"),
            }],
        ),
        Node::Characters(text("t")),
        Node::CData(text("d")),
        open("rect", Vec::new()),
        close("rect"),
        close("g"),
    ];
    assert_eq!(
        written(nodes),
        "<?xml version=\"1.0\" encoding=\"UTF-8\"?><!-- c --><g id=\"a\">t<![CDATA[d]]><rect /></g>"
    );
}

#[test]
fn write_of_no_node_is_no_text() {
    assert_eq!(Writer::write(&Vec::new()), Ok(Vec::new()));
    assert_eq!(Svg(Vec::new()).write(), Ok(Vec::new()));
}

#[test]
fn write_declares_the_version_of_the_document() {
    assert_eq!(
        written(vec![declaration(Version::Version11)]),
        "<?xml version=\"1.1\" encoding=\"UTF-8\"?>"
    );
    assert_eq!(
        written(vec![declaration(Version::Version10)]),
        "<?xml version=\"1.0\" encoding=\"UTF-8\"?>"
    );
}

#[test]
fn write_leaves_the_encoding_of_the_document_aside() {
    let nodes = vec![Node::Declaration {
        version: Version::Version10,
        encoding: text("ISO-8859-1"),
    }];
    assert_eq!(written(nodes), "<?xml version=\"1.0\" encoding=\"UTF-8\"?>");
}

#[test]
fn write_puts_the_doctype_out_as_it_is() {
    let doctype = "<!DOCTYPE g [ <!ENTITY x \"a & b < c\"> ]>";
    let nodes = vec![
        declaration(Version::Version10),
        Node::Doctype(text(doctype)),
        open("g", Vec::new()),
        close("g"),
    ];
    assert_eq!(
        written(nodes),
        "<?xml version=\"1.0\" encoding=\"UTF-8\"?><!DOCTYPE g [ <!ENTITY x \"a & b < c\"> ]><g />"
    );
    assert_eq!(written(vec![Node::Doctype(text(doctype))]), doctype);
}

#[test]
fn write_writes_each_kind_of_attribute() {
    let nodes = vec![
        declaration(Version::Version10),
        open(
            "g",
            vec![
                Attribute::Local {
                    key: text("fill"),
                    value: text("red"),
                },
                Attribute::Namespaced {
                    key: text("href"),
                    value: text("#a"),
                    namespace: text("http://www.w3.org/1999/xlink"),
                    prefix: Some(text("xlink")),
                },
                Attribute::Namespaced {
                    key: text("role"),
                    value: text("b"),
                    namespace: text("http://www.w3.org/1999/xlink"),
                    prefix: None,
                },
                Attribute::Declaration {
                    key: text("xmlns"),
                    value: text("http://www.w3.org/2000/svg"),
                },
            ],
        ),
        close("g"),
    ];
    assert_eq!(
        written(nodes),
        "<?xml version=\"1.0\" encoding=\"UTF-8\"?><g fill=\"red\" xlink:href=\"#a\" role=\"b\" xmlns=\"http://www.w3.org/2000/svg\" />"
    );
}

#[test]
fn write_keeps_attributes_in_order() {
    let nodes = vec![
        declaration(Version::Version10),
        open(
            "g",
            vec![
                Attribute::Local {
                    key: text("z"),
                    value: text("1"),
                },
                Attribute::Local {
                    key: text("a"),
                    value: text("2"),
                },
            ],
        ),
        close("g"),
    ];
    assert_eq!(
        written(nodes),
        "<?xml version=\"1.0\" encoding=\"UTF-8\"?><g z=\"1\" a=\"2\" />"
    );
}

#[test]
fn write_closes_the_element_that_is_open() {
    let nodes = vec![
        declaration(Version::Version10),
        open("a", Vec::new()),
        Node::Characters(text("t")),
        close("not the name that was opened"),
    ];
    assert_eq!(
        written(nodes),
        "<?xml version=\"1.0\" encoding=\"UTF-8\"?><a>t</a>"
    );
}

#[test]
fn write_fails_on_a_closing_marker_with_nothing_open() {
    let error = refused(vec![declaration(Version::Version10), close("g")]);
    assert_eq!(error.kind, NodeKind::EndElement);
    assert_eq!(error.position, 1);
    assert_eq!(
        error.to_string(),
        "Failed to write SVG End Element: emitter error: last element name is not available"
    );
}

#[test]
fn write_fails_on_a_second_declaration() {
    let error = refused(vec![
        declaration(Version::Version10),
        Node::Comment(text("c")),
        declaration(Version::Version10),
        open("g", Vec::new()),
    ]);
    assert_eq!(error.kind, NodeKind::Declaration);
    assert_eq!(error.position, 2);
    assert_eq!(
        error.to_string(),
        "Failed to write SVG Start Document: emitter error: document start event has already been emitted"
    );
}

#[test]
fn write_fails_on_a_declaration_after_an_element() {
    let error = refused(vec![
        open("g", Vec::new()),
        close("g"),
        declaration(Version::Version10),
    ]);
    assert_eq!(error.kind, NodeKind::Declaration);
    assert_eq!(error.position, 2);
}

#[test]
fn write_names_the_first_node_that_fails() {
    let error = refused(vec![
        Node::Doctype(text("<!DOCTYPE g>")),
        close("g"),
        close("h"),
        declaration(Version::Version10),
        declaration(Version::Version10),
    ]);
    assert_eq!(error.kind, NodeKind::EndElement);
    assert_eq!(error.position, 1);
}

#[test]
fn markup_of_each_node() {
    assert_eq!(
        Writer::markup(&declaration(Version::Version11)),
        Some(Markup::StartDocument(Version::Version11))
    );
    assert_eq!(Writer::markup(&Node::Doctype(text("<!DOCTYPE g>"))), None);
    assert_eq!(Writer::markup(&close("g")), Some(Markup::EndElement));
    assert_eq!(
        Writer::markup(&Node::Comment(text("c"))),
        Some(Markup::Comment("c"))
    );
    assert_eq!(
        Writer::markup(&Node::CData(text("d"))),
        Some(Markup::CData("d"))
    );
    assert_eq!(
        Writer::markup(&Node::Characters(text("t"))),
        Some(Markup::Characters("t"))
    );
    let node = open(
        "g",
        vec![
            Attribute::Local {
                key: text("fill"),
                value: text("red"),
            },
            Attribute::Declaration {
                key: text("xmlns"),
                value: text("u"),
            },
        ],
    );
    assert_eq!(
        Writer::markup(&node),
        Some(Markup::StartElement {
            name: "g",
            attributes: vec![
                QualifiedAttribute {
                    local_name: "fill",
                    namespace: None,
                    prefix: None,
                    value: "red",
                },
                QualifiedAttribute {
                    local_name: "xmlns",
                    namespace: None,
                    prefix: None,
                    value: "u",
                },
            ],
        })
    );
}

#[test]
fn qualified_of_each_kind_of_attribute() {
    let namespaced = Attribute::Namespaced {
        key: text("href"),
        value: text("#a"),
        namespace: text("http://www.w3.org/1999/xlink"),
        prefix: Some(text("xlink")),
    };
    assert_eq!(
        Writer::qualified(&namespaced),
        QualifiedAttribute {
            local_name: "href",
            namespace: Some("http://www.w3.org/1999/xlink"),
            prefix: Some("xlink"),
            value: "#a",
        }
    );
    let unprefixed = Attribute::Namespaced {
        key: text("href"),
        value: text("#a"),
        namespace: text("http://www.w3.org/1999/xlink"),
        prefix: None,
    };
    assert_eq!(
        Writer::qualified(&unprefixed),
        QualifiedAttribute {
            local_name: "href",
            namespace: Some("http://www.w3.org/1999/xlink"),
            prefix: None,
            value: "#a",
        }
    );
}

#[test]
fn an_svg_element_gains_the_declarations_of_its_bindings() {
    let raw = "<?xml version=\"1.0\" encoding=\"UTF-8\"?><svg xmlns=\"http://www.w3.org/2000/svg\" width=\"1\" />";
    let svg = Svg::read(raw.as_bytes()).unwrap();
    assert_eq!(
        String::from_utf8(svg.write().unwrap()).unwrap(),
        "<?xml version=\"1.0\" encoding=\"UTF-8\"?><svg width=\"1\" xmlns=\"http://www.w3.org/2000/svg\" xml=\"http://www.w3.org/XML/1998/namespace\" />"
    );
}
