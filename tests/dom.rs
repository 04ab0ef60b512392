use saba::dom::{
    get_element_by_id, get_js_content, get_style_content, get_target_element_node, Attribute, Dom,
    Element, ElementKind, Node, NodeKind,
};

fn element(kind: ElementKind, attrs: &[(&str, &str)]) -> NodeKind {
    NodeKind::Element(Element {
        kind,
        attributes: attrs
            .iter()
            .map(|(n, v)| Attribute { name: n.to_string(), value: v.to_string() })
            .collect(),
    })
}

fn node(kind: NodeKind, first_child: Option<usize>, next_sibling: Option<usize>) -> Node {
    Node { kind, first_child, next_sibling }
}

// document > html > (head > style > "css", body > (p#intro > "hi", script > "js", p#other))
fn sample() -> Dom {
    Dom::from_nodes(vec![
        node(NodeKind::Document, Some(1), None),
        node(element(ElementKind::Html, &[]), Some(2), None),
        node(element(ElementKind::Head, &[]), Some(3), Some(5)),
        node(element(ElementKind::Style, &[]), Some(4), None),
        node(NodeKind::Text("p { color: red; }".to_string()), None, None),
        node(element(ElementKind::Body, &[]), Some(6), None),
        node(element(ElementKind::P, &[("class", "x"), ("id", "intro")]), Some(7), Some(8)),
        node(NodeKind::Text("hi".to_string()), None, None),
        node(element(ElementKind::Script, &[]), Some(9), Some(10)),
        node(NodeKind::Text("var a = 1;".to_string()), None, None),
        node(element(ElementKind::P, &[("id", "other")]), None, None),
    ])
    .expect("links point forward")
}

#[test]
fn finds_first_element_of_kind_in_document_order() {
    let dom = sample();
    assert_eq!(get_target_element_node(&dom, Some(0), ElementKind::P), Some(6));
    assert_eq!(get_target_element_node(&dom, Some(0), ElementKind::Script), Some(8));
    assert_eq!(get_target_element_node(&dom, Some(0), ElementKind::A), None);
    assert_eq!(get_target_element_node(&dom, None, ElementKind::P), None);
    assert_eq!(get_target_element_node(&dom, Some(8), ElementKind::P), Some(10));
}

#[test]
fn finds_element_by_id() {
    let dom = sample();
    assert_eq!(get_element_by_id(&dom, Some(0), &"intro".to_string()), Some(6));
    assert_eq!(get_element_by_id(&dom, Some(0), &"other".to_string()), Some(10));
    assert_eq!(get_element_by_id(&dom, Some(0), &"x".to_string()), None);
    assert_eq!(get_element_by_id(&dom, Some(0), &"missing".to_string()), None);
}

#[test]
fn style_and_script_contents() {
    let dom = sample();
    assert_eq!(get_style_content(&dom, 0), "p { color: red; }");
    assert_eq!(get_js_content(&dom, 0), "var a = 1;");
    assert_eq!(get_style_content(&dom, 5), "");
}

#[test]
fn content_is_empty_without_text_child() {
    let dom = Dom::from_nodes(vec![
        node(NodeKind::Document, Some(1), None),
        node(element(ElementKind::Script, &[]), Some(2), None),
        node(element(ElementKind::P, &[]), None, None),
    ])
    .unwrap();
    assert_eq!(get_js_content(&dom, 0), "");
}

#[test]
fn backward_links_are_refused() {
    assert!(Dom::from_nodes(vec![node(NodeKind::Document, Some(0), None)]).is_none());
    assert!(Dom::from_nodes(vec![node(NodeKind::Document, None, Some(3))]).is_none());
}
