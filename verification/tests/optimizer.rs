use std::io::{Cursor, Read, Write};

use svgo::optimizer::optimization::{
    RemoveComments, RemoveCommentsOptimization, RemoveDoctype, RemoveDoctypeOptimization,
};
use svgo::optimizer::{Optimization, Optimizer};
use svgo::svg::node::{Element, ElementType, Node, Version};
use svgo::svg::Svg;
use svgo::SvgOptimizer;

fn open(name: &str) -> Node {
    Node::Element(Element {
        name: name.to_string(),
        attributes: Vec::new(),
        kind: ElementType::Open,
    })
}

fn close(name: &str) -> Node {
    Node::Element(Element {
        name: name.to_string(),
        attributes: Vec::new(),
        kind: ElementType::Close,
    })
}

fn mixed() -> Vec<Node> {
    vec![
        Node::Declaration {
            version: Version::Version10,
            encoding: "UTF-8".to_string(),
        },
        Node::Comment("first".to_string()),
        Node::Doctype("<!DOCTYPE svg>".to_string()),
        open("svg"),
        Node::Comment("second".to_string()),
        Node::Characters("text".to_string()),
        Node::CData("data".to_string()),
        close("svg"),
        Node::Comment("third".to_string()),
    ]
}

fn without_comments() -> Vec<Node> {
    vec![
        Node::Declaration {
            version: Version::Version10,
            encoding: "UTF-8".to_string(),
        },
        Node::Doctype("<!DOCTYPE svg>".to_string()),
        open("svg"),
        Node::Characters("text".to_string()),
        Node::CData("data".to_string()),
        close("svg"),
    ]
}

fn without_doctype() -> Vec<Node> {
    vec![
        Node::Declaration {
            version: Version::Version10,
            encoding: "UTF-8".to_string(),
        },
        Node::Comment("first".to_string()),
        open("svg"),
        Node::Comment("second".to_string()),
        Node::Characters("text".to_string()),
        Node::CData("data".to_string()),
        close("svg"),
        Node::Comment("third".to_string()),
    ]
}

fn without_either() -> Vec<Node> {
    vec![
        Node::Declaration {
            version: Version::Version10,
            encoding: "UTF-8".to_string(),
        },
        open("svg"),
        Node::Characters("text".to_string()),
        Node::CData("data".to_string()),
        close("svg"),
    ]
}

#[test]
fn remove_comments_removes_comments_from_nodes_vector() {
    let mut svg = Svg(vec![
        Node::Comment("This is a comment".to_string()),
        Node::Comment("This is another comment".to_string()),
    ]);

    let optimization = RemoveCommentsOptimization;
    optimization.apply(&mut svg).unwrap();

    assert_eq!(svg.0.len(), 0);
}

#[test]
fn removes_comments_from_svg_string() {
    let raw = r#"<?xml version="1.0" encoding="utf-8"?>
            <!-- Generator: Adobe Illustrator 15.0.0, SVG Export Plug-In . SVG Version: 6.00 Build 0)  -->
            <!DOCTYPE svg PUBLIC "-//W3C//DTD SVG 1.1//EN" "http://www.w3.org/Graphics/SVG/1.1/DTD/svg11.dtd">
            <svg version="1.1" xmlns="http://www.w3.org/2000/svg"
                xmlns:xlink="http://www.w3.org/1999/xlink" x="0px" y="0px"
                width="120px" height="120px" viewBox="0 0 120 120"
                enable-background="new 0 0 120 120" xml:space="preserve"
            >
                <style type="text/css"><![CDATA[
                    svg { fill: red; }
                ]]></style>
                <g>
                    <g>
                        <text>  test  </text>
                    </g>
                </g>
                <g style="color: black" class="unknown-class"></g>
            </svg>
        "#;

    let mut svg = Svg::read(raw.as_bytes()).unwrap();

    let optimization = RemoveCommentsOptimization;
    optimization.apply(&mut svg).unwrap();

    let mut buf = Cursor::new(Vec::new());
    buf.write_all(&svg.write().unwrap()).unwrap();

    let mut out = String::new();
    buf.read_to_string(&mut out).unwrap();

    assert_eq!(out, "");
}

#[test]
fn remove_doctype_removes_comments_from_nodes_vector() {
    let mut svg = Svg(vec![Node::Doctype(String::default())]);

    let optimization = RemoveDoctypeOptimization;
    optimization.apply(&mut svg).unwrap();

    assert_eq!(svg.0.len(), 0);
}

#[test]
fn remove_comments_keeps_the_other_nodes_in_order() {
    let mut svg = Svg(mixed());
    RemoveCommentsOptimization.apply(&mut svg).unwrap();
    assert_eq!(svg.0, without_comments());
}

#[test]
fn remove_doctype_keeps_the_other_nodes_in_order() {
    let mut svg = Svg(mixed());
    RemoveDoctypeOptimization.apply(&mut svg).unwrap();
    assert_eq!(svg.0, without_doctype());
}

#[test]
fn remove_comments_twice_is_remove_comments_once() {
    let mut once = Svg(mixed());
    RemoveCommentsOptimization.apply(&mut once).unwrap();
    let mut twice = Svg(mixed());
    RemoveCommentsOptimization.apply(&mut twice).unwrap();
    RemoveCommentsOptimization.apply(&mut twice).unwrap();
    assert_eq!(once, twice);
    assert!(!twice.0.iter().any(|node| matches!(node, Node::Comment(_))));
}

#[test]
fn remove_doctype_twice_is_remove_doctype_once() {
    let mut once = Svg(mixed());
    RemoveDoctypeOptimization.apply(&mut once).unwrap();
    let mut twice = Svg(mixed());
    RemoveDoctypeOptimization.apply(&mut twice).unwrap();
    RemoveDoctypeOptimization.apply(&mut twice).unwrap();
    assert_eq!(once, twice);
    assert!(!twice.0.iter().any(|node| matches!(node, Node::Doctype(_))));
}

#[test]
fn optimizations_commute() {
    let mut one = Svg(mixed());
    RemoveCommentsOptimization.apply(&mut one).unwrap();
    RemoveDoctypeOptimization.apply(&mut one).unwrap();
    let mut other = Svg(mixed());
    RemoveDoctypeOptimization.apply(&mut other).unwrap();
    RemoveCommentsOptimization.apply(&mut other).unwrap();
    assert_eq!(one, other);
    assert_eq!(one.0, without_either());
}

#[test]
fn optimizer_without_optimizations_changes_nothing() {
    let optimizer = Optimizer::new();
    let mut svg = Svg(mixed());
    optimizer.apply(&mut svg).unwrap();
    assert_eq!(svg.0, mixed());

    let mut svg = Svg(mixed());
    Optimizer::default().apply(&mut svg).unwrap();
    assert_eq!(svg.0, mixed());
}

#[test]
fn optimizer_applies_what_is_registered() {
    let mut optimizer = Optimizer::new();
    optimizer.append(Optimization::RemoveComments(RemoveCommentsOptimization));
    let mut svg = Svg(mixed());
    optimizer.apply(&mut svg).unwrap();
    assert_eq!(svg.0, without_comments());

    let mut optimizer = Optimizer::new();
    optimizer.append(Optimization::RemoveDoctype(RemoveDoctypeOptimization));
    let mut svg = Svg(mixed());
    optimizer.apply(&mut svg).unwrap();
    assert_eq!(svg.0, without_doctype());
}

#[test]
fn optimizer_applies_both_in_either_order_of_registration() {
    let mut optimizer = Optimizer::new();
    optimizer.append(Optimization::RemoveComments(RemoveCommentsOptimization));
    optimizer.append(Optimization::RemoveDoctype(RemoveDoctypeOptimization));
    let mut one = Svg(mixed());
    optimizer.apply(&mut one).unwrap();

    let mut optimizer = Optimizer::new();
    optimizer.append(Optimization::RemoveDoctype(RemoveDoctypeOptimization));
    optimizer.append(Optimization::RemoveComments(RemoveCommentsOptimization));
    let mut other = Svg(mixed());
    optimizer.apply(&mut other).unwrap();

    assert_eq!(one.0, without_either());
    assert_eq!(other.0, without_either());
}

#[test]
fn optimizer_registers_each_kind_once() {
    let mut optimizer = Optimizer::new();
    optimizer.append(Optimization::RemoveComments(RemoveCommentsOptimization));
    optimizer.append(Optimization::RemoveComments(RemoveCommentsOptimization));
    optimizer.append(Optimization::RemoveComments(RemoveCommentsOptimization));
    let mut svg = Svg(mixed());
    optimizer.apply(&mut svg).unwrap();
    assert_eq!(svg.0, without_comments());
}

#[test]
fn optimizer_on_an_empty_document() {
    let mut optimizer = Optimizer::new();
    optimizer.append(Optimization::RemoveComments(RemoveCommentsOptimization));
    optimizer.append(Optimization::RemoveDoctype(RemoveDoctypeOptimization));
    let mut svg = Svg(Vec::new());
    optimizer.apply(&mut svg).unwrap();
    assert_eq!(svg.0, Vec::new());
}

#[test]
fn remove_comments_by_value() {
    assert_eq!(RemoveComments::apply(mixed()), Ok(without_comments()));
    assert_eq!(RemoveComments::apply(Vec::new()), Ok(Vec::new()));
}

#[test]
fn remove_doctype_by_value() {
    assert_eq!(RemoveDoctype::apply(mixed()), Ok(without_doctype()));
    assert_eq!(RemoveDoctype::apply(Vec::new()), Ok(Vec::new()));
}

#[test]
fn comments_are_removed_and_the_rest_is_as_it_was() {
    let raw = "<?xml version=\"1.0\"?><!--hi--><svg><rect/></svg>";
    let mut both = SvgOptimizer::read(raw.as_bytes()).unwrap();
    both.add_optimization(Optimization::RemoveComments(RemoveCommentsOptimization));
    both.optimize().unwrap();

    let nodes = both.svg.nodes();
    assert_eq!(nodes.len(), 5);
    assert!(matches!(
        &nodes[0],
        Node::Declaration {
            version: Version::Version10,
            ..
        }
    ));
    assert!(
        matches!(&nodes[1], Node::Element(element) if element.name == "svg" && element.kind == ElementType::Open)
    );
    assert!(
        matches!(&nodes[2], Node::Element(element) if element.name == "rect" && element.kind == ElementType::Open)
    );
    assert!(
        matches!(&nodes[3], Node::Element(element) if element.name == "rect" && element.kind == ElementType::Close)
    );
    assert!(
        matches!(&nodes[4], Node::Element(element) if element.name == "svg" && element.kind == ElementType::Close)
    );

    let untouched = Svg::read(raw.as_bytes()).unwrap();
    assert_eq!(untouched.nodes().len(), 6);
    assert_eq!(untouched.nodes()[1], Node::Comment("hi".to_string()));
    assert_eq!(untouched.nodes()[2..], nodes[1..]);
}

#[test]
fn pipeline_without_optimizations_changes_nothing() {
    let raw = "<?xml version=\"1.0\"?><!--hi--><!DOCTYPE svg><svg><rect/></svg>";
    let mut both = SvgOptimizer::read(raw.as_bytes()).unwrap();
    both.optimize().unwrap();
    let untouched = Svg::read(raw.as_bytes()).unwrap();
    assert_eq!(both.svg, untouched);
    assert_eq!(both.write().unwrap(), untouched.write().unwrap());
}

#[test]
fn pipeline_removes_comments_and_doctype_from_the_text() {
    let raw = "<?xml version=\"1.0\" encoding=\"UTF-8\"?><!--hi--><!DOCTYPE g><g><rect /></g>";
    let mut both = SvgOptimizer::read(raw.as_bytes()).unwrap();
    assert_eq!(String::from_utf8(both.write().unwrap()).unwrap(), "<?xml version=\"1.0\" encoding=\"UTF-8\"?><!-- hi --><!DOCTYPE g><g><rect /></g>");
    both.add_optimization(Optimization::RemoveComments(RemoveCommentsOptimization));
    both.add_optimization(Optimization::RemoveDoctype(RemoveDoctypeOptimization));
    both.optimize().unwrap();
    assert_eq!(
        String::from_utf8(both.write().unwrap()).unwrap(),
        "<?xml version=\"1.0\" encoding=\"UTF-8\"?><g><rect /></g>"
    );
}

#[test]
fn new_puts_document_and_optimizer_together() {
    let mut optimizer = Optimizer::new();
    optimizer.append(Optimization::RemoveDoctype(RemoveDoctypeOptimization));
    let mut both = SvgOptimizer::new(Svg(mixed()), optimizer);
    assert_eq!(both.svg.0, mixed());
    both.optimize().unwrap();
    assert_eq!(both.svg.0, without_doctype());
}
