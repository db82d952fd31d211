use bevy_uix::asset::Node;
use bevy_uix::chars::{chars_of, ends_with, is_word, joined, same_text, string_of};
use bevy_uix::number::read_number;
use bevy_uix::parser::{
    holds_text, layout_kind, parse, parse_body, parse_children, parse_head,
    parse_common_node_attributes,
};
use bevy_uix::style::{Display, Unit, Val};
use bevy_uix::xml::{XmlAttribute, XmlKind, XmlNode};
use bevy_uix::number::Number;

fn attribute(namespace: Option<&str>, name: &str, value: &str) -> XmlAttribute {
    XmlAttribute {
        namespace: namespace.map(|n| n.to_string()),
        name: name.to_string(),
        value: value.to_string(),
    }
}

fn node(kind: XmlKind, name: &str, attributes: Vec<XmlAttribute>, children: Vec<XmlNode>) -> XmlNode {
    XmlNode { kind, name: name.to_string(), text: None, attributes, children }
}

#[test]
fn attribute_is_the_first_plain_one_of_that_name() {
    let x = node(
        XmlKind::Element,
        "flex",
        vec![
            attribute(Some("urn:n"), "width", "1"),
            attribute(None, "height", "2"),
            attribute(None, "width", "3"),
            attribute(None, "width", "4"),
        ],
        vec![],
    );
    assert_eq!(x.attribute("width"), Some("3"));
    assert_eq!(x.attribute("height"), Some("2"));
    assert_eq!(x.attribute("depth"), None);
    assert!(x.is_named("flex"));
    assert!(!x.is_named("fle"));
}

#[test]
fn element_children_are_counted_and_found() {
    let x = node(
        XmlKind::Element,
        "body",
        vec![],
        vec![
            node(XmlKind::Text, "", vec![], vec![]),
            node(XmlKind::Comment, "", vec![], vec![]),
            node(XmlKind::Element, "flex", vec![], vec![]),
            node(XmlKind::Instruction, "", vec![], vec![]),
            node(XmlKind::Element, "flex", vec![], vec![]),
        ],
    );
    assert_eq!(x.first_element_child(), Some(2));
    assert_eq!(x.count_element_children(), 2);
    let empty = node(XmlKind::Element, "body", vec![], vec![node(XmlKind::Text, "", vec![], vec![])]);
    assert_eq!(empty.first_element_child(), None);
    assert_eq!(empty.count_element_children(), 0);
    assert!(parse_body(&x).is_err());
    assert!(parse_body(&empty).is_err());
}

#[test]
fn head_and_children_apart() {
    let x = node(
        XmlKind::Element,
        "flex",
        vec![attribute(None, "width", "5vw")],
        vec![
            node(XmlKind::Comment, "", vec![], vec![]),
            node(XmlKind::Element, "flex", vec![], vec![]),
        ],
    );
    let head = parse_head(&x).unwrap();
    assert_eq!(head.width, Val::measure(Unit::Vw, Number { text: "5".to_string() }));
    assert!(head.children.is_empty() && head.content.is_none());
    assert!(!holds_text(&x));
    assert_eq!(parse_children(&x.children).unwrap(), vec![Node::default()]);
    let mut fresh = Node::default();
    parse_common_node_attributes(&x, &mut fresh).unwrap();
    assert_eq!(fresh, head);
    assert_eq!(layout_kind("flex"), Some(Display::Flex));
    assert_eq!(layout_kind("grid"), None);
    let t = node(XmlKind::Element, "flex", vec![], vec![node(XmlKind::Element, "t", vec![], vec![])]);
    assert!(holds_text(&t));
}

#[test]
fn comment_first_means_children() {
    let node = parse("<uix><body><flex><!-- c -->text<flex/></flex></body></uix>").unwrap();
    assert!(node.content.is_none());
    assert_eq!(node.children.len(), 1);
}

#[test]
fn entity_text_is_decoded_before_collapsing() {
    let node = parse("<uix><body><flex>a &amp;  b</flex></body></uix>").unwrap();
    match node.content {
        Some(bevy_uix::asset::Content::Text(text)) => assert_eq!(text.text[0].text, "a & b"),
        None => panic!("no content"),
    }
}

#[test]
fn numbers_of_a_parsed_tree_read_as_single_precision() {
    let node = parse(
        "<uix><body><flex grow=\"1.5\" shrink=\".5e1\" basis=\"+3.px\" width=\"inf%\" height=\"-0\"/></body></uix>",
    )
    .unwrap();
    assert_eq!(node.flex_grow.text.parse::<f32>().unwrap(), 1.5f32);
    assert_eq!(node.flex_shrink.text.parse::<f32>().unwrap(), 5.0f32);
    match (&node.flex_basis, &node.width, &node.height) {
        (Val::Px(a), Val::Percent(b), Val::Px(c)) => {
            assert_eq!(a.text.parse::<f32>().unwrap(), 3.0f32);
            assert!(b.text.parse::<f32>().unwrap().is_infinite());
            assert_eq!(c.text.parse::<f32>().unwrap(), 0.0f32);
        }
        other => panic!("unexpected {:?}", other),
    }
}

#[test]
fn character_helpers() {
    let v = chars_of("héllo wörld");
    assert_eq!(v.len(), 11);
    assert_eq!(v[1], 'é');
    assert_eq!(string_of(&v, 6, 11), "wörld");
    assert_eq!(string_of(&v, 3, 3), "");
    assert!(is_word(&v, "héllo wörld"));
    assert!(!is_word(&v, "héllo world"));
    assert!(!is_word(&v, "héllo"));
    assert!(ends_with(&v, "wörld"));
    assert!(ends_with(&v, ""));
    assert!(!ends_with(&v, "héllo"));
    assert!(!ends_with(&chars_of("px"), "1px"));
    assert!(same_text("a", "a") && !same_text("a", "b") && !same_text("a", "ab"));
    assert_eq!(joined("Invalid color: ", "#12"), "Invalid color: #12");
    assert_eq!(read_number(&chars_of("12px"), 2), Some(Number { text: "12".to_string() }));
    assert_eq!(read_number(&chars_of("12px"), 3), None);
    assert_eq!(read_number(&chars_of("12px"), 0), None);
}
