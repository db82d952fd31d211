use bevy_uix::asset::{Content, Node, Text, TextSpan, UIX};
use bevy_uix::error::ParseError;
use bevy_uix::loader::{UIXLoader, UIXLoaderError};
use bevy_uix::number::Number;
use bevy_uix::parser::{parse, parse_document, parse_node, parse_text};
use bevy_uix::style::{Color, Display, FlexDirection, FlexWrap, UiRect, Val};
use bevy_uix::xml::{XmlAttribute, XmlKind, XmlNode};

fn num(text: &str) -> Number {
    Number { text: text.to_string() }
}

fn message_of<T: std::fmt::Debug>(res: Result<T, ParseError>) -> String {
    match res {
        Err(ParseError::InvalidFormat(m)) => m,
        other => panic!("expected an invalid-format error, got {:?}", other),
    }
}

fn span(text: &str, bold: bool) -> TextSpan {
    TextSpan { text: text.to_string(), bold, ..TextSpan::default() }
}

fn spans_of(node: &Node) -> &Vec<TextSpan> {
    match &node.content {
        Some(Content::Text(text)) => &text.text,
        None => panic!("the node has no content"),
    }
}

fn element(name: &str, attributes: Vec<(&str, &str)>, children: Vec<XmlNode>) -> XmlNode {
    XmlNode {
        kind: XmlKind::Element,
        name: name.to_string(),
        text: None,
        attributes: attributes
            .into_iter()
            .map(|(n, v)| XmlAttribute { namespace: None, name: n.to_string(), value: v.to_string() })
            .collect(),
        children,
    }
}

fn text(content: &str) -> XmlNode {
    XmlNode {
        kind: XmlKind::Text,
        name: String::new(),
        text: Some(content.to_string()),
        attributes: Vec::new(),
        children: Vec::new(),
    }
}

#[test]
fn defaults_of_a_node() {
    let node = Node::default();
    assert_eq!(node.display, Display::Flex);
    assert_eq!(node.flex_direction, FlexDirection::Row);
    assert_eq!(node.flex_wrap, FlexWrap::NoWrap);
    assert_eq!(node.flex_grow, num("0"));
    assert_eq!(node.flex_shrink, num("1"));
    assert_eq!(node.flex_basis, Val::Auto);
    assert_eq!(node.width, Val::Auto);
    assert_eq!(node.max_height, Val::Auto);
    assert_eq!(node.top, Val::Auto);
    let zero = Val::Px(num("0"));
    assert_eq!(
        node.margin,
        UiRect { left: zero.clone(), right: zero.clone(), top: zero.clone(), bottom: zero.clone() }
    );
    assert_eq!(node.padding, node.margin);
    assert_eq!(node.background_color, None);
    assert_eq!(node.content, None);
    assert!(node.children.is_empty());
    let span = TextSpan::default();
    assert_eq!(span.text, "");
    assert!(!span.bold && !span.italic && !span.underline && !span.strikethrough);
    assert_eq!(span.color, Color { red: 0, green: 0, blue: 0, alpha: 255 });
}

#[test]
fn single_flex_has_the_defaults() {
    let node = parse("<uix><body><flex/></body></uix>").unwrap();
    assert_eq!(node, Node::default());
    assert!(node.children.is_empty());
    assert!(node.content.is_none());
}

#[test]
fn unknown_element_is_refused() {
    assert_eq!(message_of(parse("<uix><body><box/></body></uix>")), "Invalid root element: box");
    assert_eq!(
        message_of(parse("<uix><body><flex><flex/><grid/></flex></body></uix>")),
        "Invalid root element: grid"
    );
}

#[test]
fn body_needs_exactly_one_element() {
    assert_eq!(
        message_of(parse("<uix><body><flex/><flex/></body></uix>")),
        "<body> must have exactly one root element"
    );
    assert_eq!(
        message_of(parse("<uix><body>  </body></uix>")),
        "<body> must have exactly one root element"
    );
    assert_eq!(
        message_of(parse("<uix><body/></uix>")),
        "<body> must have exactly one root element"
    );
    assert!(parse("<uix><body> text <flex/> more <!-- note --></body></uix>").is_ok());
}

#[test]
fn root_shape_is_checked() {
    assert_eq!(message_of(parse("<ui><body><flex/></body></ui>")), "Missing <uix> root element");
    assert_eq!(message_of(parse("<uix><head/><body><flex/></body></uix>")), "Missing <body> element");
    assert_eq!(message_of(parse("<uix></uix>")), "Missing <body> element");
    assert!(parse("<!-- first --><uix>  <body><flex/></body></uix>").is_ok());
}

#[test]
fn malformed_xml_is_its_own_error() {
    match parse("<uix><body>") {
        Err(ParseError::InvalidXml(_)) => {}
        other => panic!("unexpected {:?}", other),
    }
    match parse("") {
        Err(e) => assert!(e.message().starts_with("XML parsing error: ")),
        other => panic!("unexpected {:?}", other),
    }
    match parse("<uix><body><box/></body></uix>") {
        Err(e) => assert_eq!(e.message(), "Invalid UIX format: Invalid root element: box"),
        other => panic!("unexpected {:?}", other),
    }
}

#[test]
fn text_and_styled_span() {
    let node = parse("<uix><body><flex>Hi <t bold=\"true\">there</t></flex></body></uix>").unwrap();
    assert_eq!(spans_of(&node), &vec![span("Hi", false), span("there", true)]);
    assert!(node.children.is_empty());
}

#[test]
fn white_space_collapses_inside_a_span() {
    let node = parse("<uix><body><flex><t>  a   b\n c </t></flex></body></uix>").unwrap();
    assert_eq!(spans_of(&node), &vec![span("a b c", false)]);
    let node = parse("<uix><body><flex>  a   b\n c </flex></body></uix>").unwrap();
    assert_eq!(spans_of(&node), &vec![span("a b c", false)]);
}

#[test]
fn blank_text_still_gives_a_span() {
    let node = parse("<uix><body><flex> <t bold=\"1\">x</t> </flex></body></uix>").unwrap();
    assert_eq!(spans_of(&node), &vec![span("", false), span("x", true), span("", false)]);
}

#[test]
fn nested_styles_layer() {
    let node = parse(
        "<uix><body><flex><t bold=\"true\" color=\"#ff0000\">a<t italic=\"1\" bold=\"false\">b</t>c</t>d</flex></body></uix>",
    )
    .unwrap();
    let red = Color { red: 255, green: 0, blue: 0, alpha: 255 };
    let expected = vec![
        TextSpan { text: "a".to_string(), bold: true, color: red, ..TextSpan::default() },
        TextSpan { text: "b".to_string(), italic: true, color: red, ..TextSpan::default() },
        TextSpan { text: "c".to_string(), bold: true, color: red, ..TextSpan::default() },
        span("d", false),
    ];
    assert_eq!(spans_of(&node), &expected);
}

#[test]
fn text_branch_refuses_other_elements() {
    assert_eq!(
        message_of(parse("<uix><body><flex>Hi <flex/></flex></body></uix>")),
        "Invalid text element: flex"
    );
    assert_eq!(
        message_of(parse("<uix><body><flex><t underline=\"maybe\">x</t></flex></body></uix>")),
        "Invalid boolean value: maybe"
    );
    assert_eq!(
        message_of(parse("<uix><body><flex><t color=\"red\">x</t></flex></body></uix>")),
        "Invalid color format: red"
    );
}

#[test]
fn children_in_document_order() {
    let node = parse(
        "<uix><body><flex><flex width=\"1px\"/> stray <flex width=\"2px\"><flex width=\"3px\"/></flex></flex></body></uix>",
    )
    .unwrap();
    assert!(node.content.is_none());
    assert_eq!(node.children.len(), 2);
    assert_eq!(node.children[0].width, Val::Px(num("1")));
    assert_eq!(node.children[1].width, Val::Px(num("2")));
    assert_eq!(node.children[1].children.len(), 1);
    assert_eq!(node.children[1].children[0].width, Val::Px(num("3")));
}

#[test]
fn every_attribute_lands_in_its_field() {
    let node = parse(
        "<uix><body><flex direction=\"column-reverse\" wrap=\"wrap\" grow=\"1\" shrink=\"0\" basis=\"10px\" \
         width=\"50%\" height=\"auto\" min-width=\"1\" min-height=\"2vh\" max-width=\"3vw\" max-height=\"4vmin\" \
         margin-top=\"5\" margin-bottom=\"6\" margin-left=\"7\" margin-right=\"8\" \
         padding-top=\"9\" padding-bottom=\"10\" padding-left=\"11\" padding-right=\"12vmax\" \
         background-color=\"#112233\"/></body></uix>",
    )
    .unwrap();
    let expected = Node {
        display: Display::Flex,
        flex_direction: FlexDirection::ColumnReverse,
        flex_wrap: FlexWrap::Wrap,
        flex_grow: num("1"),
        flex_shrink: num("0"),
        flex_basis: Val::Px(num("10")),
        width: Val::Percent(num("50")),
        height: Val::Auto,
        min_width: Val::Px(num("1")),
        min_height: Val::Vh(num("2")),
        max_width: Val::Vw(num("3")),
        max_height: Val::VMin(num("4")),
        margin: UiRect {
            top: Val::Px(num("5")),
            bottom: Val::Px(num("6")),
            left: Val::Px(num("7")),
            right: Val::Px(num("8")),
        },
        padding: UiRect {
            top: Val::Px(num("9")),
            bottom: Val::Px(num("10")),
            left: Val::Px(num("11")),
            right: Val::VMax(num("12")),
        },
        background_color: Some(Color { red: 0x11, green: 0x22, blue: 0x33, alpha: 255 }),
        ..Node::default()
    };
    assert_eq!(node, expected);
}

#[test]
fn missing_attributes_keep_and_bad_ones_fail() {
    let node = parse("<uix><body><flex width=\"5px\"/></body></uix>").unwrap();
    let expected = Node { width: Val::Px(num("5")), ..Node::default() };
    assert_eq!(node, expected);
    assert_eq!(
        message_of(parse("<uix><body><flex width=\"wide\"/></body></uix>")),
        "Invalid pixel value: wide"
    );
    assert_eq!(
        message_of(parse("<uix><body><flex grow=\"much\"/></body></uix>")),
        "Invalid float value: much"
    );
    assert_eq!(
        message_of(parse("<uix><body><flex direction=\"up\" wrap=\"x\"/></body></uix>")),
        "Invalid flex direction: up"
    );
    assert_eq!(
        message_of(parse("<uix><body><flex wrap=\"x\" width=\"y\"/></body></uix>")),
        "Invalid flex wrap: x"
    );
    assert_eq!(
        message_of(parse("<uix><body><flex background-color=\"#12\"/></body></uix>")),
        "Invalid color format: #12"
    );
}

#[test]
fn prefixed_attributes_are_not_the_plain_ones() {
    let node =
        parse("<uix xmlns:n=\"urn:n\"><body><flex n:width=\"wide\" height=\"2px\"/></body></uix>")
            .unwrap();
    assert_eq!(node.width, Val::Auto);
    assert_eq!(node.height, Val::Px(num("2")));
}

#[test]
fn content_and_children_exclude_each_other() {
    let node = parse(
        "<uix><body><flex><flex>text</flex><flex><flex/></flex><flex/></flex></body></uix>",
    )
    .unwrap();
    fn check(node: &Node) {
        assert!(!(node.content.is_some() && !node.children.is_empty()));
        for child in &node.children {
            check(child);
        }
    }
    check(&node);
    assert!(node.children[0].content.is_some());
    assert!(node.children[1].content.is_none());
    assert_eq!(node.children[1].children.len(), 1);
    assert!(node.children[2].content.is_none() && node.children[2].children.is_empty());
}

#[test]
fn same_text_same_tree() {
    let markup = "<uix><body><flex width=\"50%\"><flex>Some <t bold=\"true\" color=\"#ff0000\">red bold</t> text.</flex><flex/></flex></body></uix>";
    assert_eq!(parse(markup).unwrap(), parse(markup).unwrap());
    let bad = "<uix><body><flex width=\"x\"/></body></uix>";
    assert_eq!(message_of(parse(bad)), message_of(parse(bad)));
}

#[test]
fn built_trees_parse_like_read_ones() {
    let tree = vec![element(
        "uix",
        vec![],
        vec![element(
            "body",
            vec![],
            vec![element(
                "flex",
                vec![("width", "10px")],
                vec![text("Hi "), element("t", vec![("bold", "true")], vec![text("there")])],
            )],
        )],
    )];
    let built = parse_document(&tree).unwrap();
    let read =
        parse("<uix><body><flex width=\"10px\">Hi <t bold=\"true\">there</t></flex></body></uix>")
            .unwrap();
    assert_eq!(built, read);
    assert_eq!(
        message_of(parse_node(&element("t", vec![], vec![]))),
        "Invalid root element: t"
    );
}

#[test]
fn text_keeps_what_the_format_already_holds() {
    let mut spans = vec![span("before", false)];
    let start = TextSpan { text: "pre-".to_string(), underline: true, ..TextSpan::default() };
    parse_text(&vec![text(" one "), text("two")], start, &mut spans).unwrap();
    let expected = vec![
        span("before", false),
        TextSpan { text: "pre-one".to_string(), underline: true, ..TextSpan::default() },
        TextSpan { text: "two".to_string(), underline: true, ..TextSpan::default() },
    ];
    assert_eq!(spans, expected);
}

#[test]
fn loader_parses_and_wraps_errors() {
    let loader = UIXLoader;
    assert_eq!(loader.extensions(), vec!["ui.xml"]);
    let uix = loader.load("<uix><body><flex/></body></uix>").unwrap();
    assert_eq!(uix, UIX { root: Node::default() });
    match loader.load("<uix><body><box/></body></uix>") {
        Err(UIXLoaderError::XmlError(ParseError::InvalidFormat(m))) => {
            assert_eq!(m, "Invalid root element: box")
        }
        other => panic!("unexpected {:?}", other),
    }
    let text = Text { text: Vec::new() };
    assert!(text.text.is_empty());
}

#[test]
fn loader_errors_in_words() {
    let loader = UIXLoader;
    match loader.load("<uix><body><flex width=\"x\"/></body></uix>") {
        Err(e) => assert_eq!(
            e.message(),
            "Parse UIX error: Invalid UIX format: Invalid pixel value: x"
        ),
        other => panic!("unexpected {:?}", other),
    }
    match loader.load("<uix>") {
        Err(e) => assert!(e.message().starts_with("Parse UIX error: XML parsing error: ")),
        other => panic!("unexpected {:?}", other),
    }
    let io = UIXLoaderError::IOError(std::io::Error::new(std::io::ErrorKind::Other, "gone"));
    assert_eq!(io.message(), "IO error: gone");
}
