//! From a markup text to the tree of nodes it describes.
use vstd::prelude::*;
use crate::asset::{
    content_view, default_node, default_span, spans_view, Content, Node, NodeModel, SpanModel, Text,
    TextSpan,
};
use crate::attribute::{
    bool_attribute, color_attribute, direction_attribute, number_attribute,
    optional_color_attribute, parse_bool_attribute, parse_color_attribute,
    parse_direction_attribute, parse_number_attribute, parse_optional_color_attribute,
    parse_val_attribute, parse_wrap_attribute, val_attribute, wrap_attribute,
};
use crate::chars::{collapse_into, collapsed};
use crate::error::{fails_with, invalid, ParseError};
use crate::style::{Display, UiRectModel};
use crate::xml::{element_count, element_place, read_document, xml_nodes, XmlKind, XmlNode};

verus! {

/// `res` is what `want` asks for: the node whose model `want` gives, or the
/// invalid-format error with the message it gives.
pub open spec fn node_outcome(res: Result<Node, ParseError>, want: Result<NodeModel, Seq<char>>) -> bool {
    match want {
        Ok(m) => res matches Ok(n) && n@ == m,
        Err(e) => fails_with(res, e),
    }
}

/// The layout kind that a tag name stands for.
pub open spec fn layout_of(name: Seq<char>) -> Option<Display> {
    if name == "flex"@ {
        Some(Display::Flex)
    } else {
        None
    }
}

/// The attributes of a flex container, read in the order direction, wrap,
/// grow, shrink, basis; the first that fails gives the error.
pub open spec fn flex_of(x: XmlNode, m: NodeModel) -> Result<NodeModel, Seq<char>> {
    let direction = direction_attribute(x, "direction"@, m.flex_direction);
    let wrap = wrap_attribute(x, "wrap"@, m.flex_wrap);
    let grow = number_attribute(x, "grow"@, m.flex_grow);
    let shrink = number_attribute(x, "shrink"@, m.flex_shrink);
    let basis = val_attribute(x, "basis"@, m.flex_basis);
    if direction is Err {
        Err(direction->Err_0)
    } else if wrap is Err {
        Err(wrap->Err_0)
    } else if grow is Err {
        Err(grow->Err_0)
    } else if shrink is Err {
        Err(shrink->Err_0)
    } else if basis is Err {
        Err(basis->Err_0)
    } else {
        Ok(
            NodeModel {
                display: Display::Flex,
                flex_direction: direction->Ok_0,
                flex_wrap: wrap->Ok_0,
                flex_grow: grow->Ok_0,
                flex_shrink: shrink->Ok_0,
                flex_basis: basis->Ok_0,
                ..m
            },
        )
    }
}

/// The attributes that every node has, read in the order width, height,
/// min-width, min-height, max-width, max-height, the margins and the
/// paddings (top, bottom, left, right), background-color; the first that
/// fails gives the error.
pub open spec fn common_of(x: XmlNode, m: NodeModel) -> Result<NodeModel, Seq<char>> {
    let width = val_attribute(x, "width"@, m.width);
    let height = val_attribute(x, "height"@, m.height);
    let min_width = val_attribute(x, "min-width"@, m.min_width);
    let min_height = val_attribute(x, "min-height"@, m.min_height);
    let max_width = val_attribute(x, "max-width"@, m.max_width);
    let max_height = val_attribute(x, "max-height"@, m.max_height);
    let margin_top = val_attribute(x, "margin-top"@, m.margin.top);
    let margin_bottom = val_attribute(x, "margin-bottom"@, m.margin.bottom);
    let margin_left = val_attribute(x, "margin-left"@, m.margin.left);
    let margin_right = val_attribute(x, "margin-right"@, m.margin.right);
    let padding_top = val_attribute(x, "padding-top"@, m.padding.top);
    let padding_bottom = val_attribute(x, "padding-bottom"@, m.padding.bottom);
    let padding_left = val_attribute(x, "padding-left"@, m.padding.left);
    let padding_right = val_attribute(x, "padding-right"@, m.padding.right);
    let background = optional_color_attribute(x, "background-color"@, m.background_color);
    if width is Err {
        Err(width->Err_0)
    } else if height is Err {
        Err(height->Err_0)
    } else if min_width is Err {
        Err(min_width->Err_0)
    } else if min_height is Err {
        Err(min_height->Err_0)
    } else if max_width is Err {
        Err(max_width->Err_0)
    } else if max_height is Err {
        Err(max_height->Err_0)
    } else if margin_top is Err {
        Err(margin_top->Err_0)
    } else if margin_bottom is Err {
        Err(margin_bottom->Err_0)
    } else if margin_left is Err {
        Err(margin_left->Err_0)
    } else if margin_right is Err {
        Err(margin_right->Err_0)
    } else if padding_top is Err {
        Err(padding_top->Err_0)
    } else if padding_bottom is Err {
        Err(padding_bottom->Err_0)
    } else if padding_left is Err {
        Err(padding_left->Err_0)
    } else if padding_right is Err {
        Err(padding_right->Err_0)
    } else if background is Err {
        Err(background->Err_0)
    } else {
        Ok(
            NodeModel {
                width: width->Ok_0,
                height: height->Ok_0,
                min_width: min_width->Ok_0,
                min_height: min_height->Ok_0,
                max_width: max_width->Ok_0,
                max_height: max_height->Ok_0,
                margin: UiRectModel {
                    left: margin_left->Ok_0,
                    right: margin_right->Ok_0,
                    top: margin_top->Ok_0,
                    bottom: margin_bottom->Ok_0,
                },
                padding: UiRectModel {
                    left: padding_left->Ok_0,
                    right: padding_right->Ok_0,
                    top: padding_top->Ok_0,
                    bottom: padding_bottom->Ok_0,
                },
                background_color: background->Ok_0,
                ..m
            },
        )
    }
}

/// The format inside a `<t>`: that around it, with each of bold, italic,
/// underline, strikethrough and color replaced where the element has the
/// attribute; the first that fails gives the error.
pub open spec fn styled_of(x: XmlNode, s: SpanModel) -> Result<SpanModel, Seq<char>> {
    let bold = bool_attribute(x, "bold"@, s.bold);
    let italic = bool_attribute(x, "italic"@, s.italic);
    let underline = bool_attribute(x, "underline"@, s.underline);
    let strikethrough = bool_attribute(x, "strikethrough"@, s.strikethrough);
    let color = color_attribute(x, "color"@, s.color);
    if bold is Err {
        Err(bold->Err_0)
    } else if italic is Err {
        Err(italic->Err_0)
    } else if underline is Err {
        Err(underline->Err_0)
    } else if strikethrough is Err {
        Err(strikethrough->Err_0)
    } else if color is Err {
        Err(color->Err_0)
    } else {
        Ok(
            SpanModel {
                text: s.text,
                bold: bold->Ok_0,
                italic: italic->Ok_0,
                underline: underline->Ok_0,
                strikethrough: strikethrough->Ok_0,
                color: color->Ok_0,
            },
        )
    }
}

/// The text of a text node; nothing where it has none.
pub open spec fn text_of(x: XmlNode) -> Seq<char> {
    match x.text {
        Some(t) => t@,
        None => Seq::empty(),
    }
}

/// `s` with no text.
pub open spec fn blank(s: SpanModel) -> SpanModel {
    SpanModel { text: Seq::empty(), ..s }
}

/// The spans that the first `upto` of `nodes` give when read in the format
/// `start`, and the format in force after them. A text node gives one span,
/// its text collapsed, even where nothing is left of it; a `<t>` gives the
/// spans of what it holds, read in its own format; any other element is an
/// error; anything else is passed over.
pub open spec fn spans_upto(nodes: Seq<XmlNode>, upto: int, start: SpanModel) -> Result<
    (Seq<SpanModel>, SpanModel),
    Seq<char>,
>
    decreases nodes, upto,
{
    if upto <= 0 || upto > nodes.len() {
        Ok((Seq::empty(), start))
    } else {
        match spans_upto(nodes, upto - 1, start) {
            Err(e) => Err(e),
            Ok((done, current)) => {
                let child = nodes[upto - 1];
                if child.kind == XmlKind::Text {
                    Ok(
                        (
                            done.push(
                                SpanModel {
                                    text: current.text + collapsed(text_of(child)),
                                    ..current
                                },
                            ),
                            blank(current),
                        ),
                    )
                } else if child.kind == XmlKind::Element {
                    if child.name@ == "t"@ {
                        match styled_of(child, blank(current)) {
                            Err(e) => Err(e),
                            Ok(inner) => match spans_upto(
                                child.children@,
                                child.children@.len() as int,
                                inner,
                            ) {
                                Err(e) => Err(e),
                                Ok((within, _)) => Ok((done + within, current)),
                            },
                        }
                    } else {
                        Err("Invalid text element: "@ + child.name@)
                    }
                } else {
                    Ok((done, current))
                }
            },
        }
    }
}

/// The element's content is text: its first child is a text node or is
/// named `t`.
pub open spec fn leads_with_text(x: XmlNode) -> bool {
    x.children@.len() > 0 && (x.children@[0].kind == XmlKind::Text || x.children@[0].name@ == "t"@)
}

/// The nodes that the elements among the first `upto` of `nodes` give, in
/// their order; the first that fails gives the error.
pub open spec fn children_upto(nodes: Seq<XmlNode>, upto: int) -> Result<Seq<NodeModel>, Seq<char>>
    decreases nodes, upto,
{
    if upto <= 0 || upto > nodes.len() {
        Ok(Seq::empty())
    } else {
        match children_upto(nodes, upto - 1) {
            Err(e) => Err(e),
            Ok(done) => if nodes[upto - 1].kind == XmlKind::Element {
                match node_of(nodes[upto - 1]) {
                    Err(e) => Err(e),
                    Ok(n) => Ok(done.push(n)),
                }
            } else {
                Ok(done)
            },
        }
    }
}

/// The node that an element gives before anything is put inside it: the
/// defaults, then its kind's own attributes, then the common ones.
#[verifier::opaque]
pub open spec fn head_of(x: XmlNode) -> Result<NodeModel, Seq<char>> {
    if layout_of(x.name@) is None {
        Err("Invalid root element: "@ + x.name@)
    } else {
        match flex_of(x, default_node()) {
            Err(e) => Err(e),
            Ok(flex) => common_of(x, flex),
        }
    }
}

/// The node that an element gives: its head, then either its text or its
/// children.
pub open spec fn node_of(x: XmlNode) -> Result<NodeModel, Seq<char>>
    decreases x, 0int,
{
    match head_of(x) {
        Err(e) => Err(e),
        Ok(head) => if leads_with_text(x) {
            match spans_upto(x.children@, x.children@.len() as int, default_span()) {
                Err(e) => Err(e),
                Ok((spans, _)) => Ok(NodeModel { content: Some(spans), ..head }),
            }
        } else {
            match children_upto(x.children@, x.children@.len() as int) {
                Err(e) => Err(e),
                Ok(children) => Ok(NodeModel { children: children, ..head }),
            }
        },
    }
}

/// The node under a body: the body must hold exactly one element.
pub open spec fn body_of(body: XmlNode) -> Result<NodeModel, Seq<char>> {
    if element_count(body.children@, body.children@.len() as int) != 1 {
        Err("<body> must have exactly one root element"@)
    } else {
        match element_place(body.children@, 0) {
            Some(i) => node_of(body.children@[i]),
            None => Err("<body> must have exactly one root element"@),
        }
    }
}

/// The first element among `nodes`, where there is one and it is named `name`.
pub open spec fn first_named(nodes: Seq<XmlNode>, name: Seq<char>) -> Option<XmlNode> {
    match element_place(nodes, 0) {
        Some(i) => if nodes[i].name@ == name {
            Some(nodes[i])
        } else {
            None
        },
        None => None,
    }
}

/// The node that a document gives: its first element must be `uix`, the
/// first element of that `body`.
pub open spec fn document_of(nodes: Seq<XmlNode>) -> Result<NodeModel, Seq<char>> {
    match first_named(nodes, "uix"@) {
        None => Err("Missing <uix> root element"@),
        Some(uix) => match first_named(uix.children@, "body"@) {
            None => Err("Missing <body> element"@),
            Some(body) => body_of(body),
        },
    }
}

/// Reads the attributes that every node has into `node`.
pub fn parse_common_node_attributes(x: &XmlNode, node: &mut Node) -> (res: Result<(), ParseError>)
    ensures
        match common_of(*x, old(node)@) {
            Ok(m) => res is Ok && final(node)@ == m,
            Err(e) => fails_with(res, e),
        },
{
    parse_val_attribute(x, "width", &mut node.width)?;
    parse_val_attribute(x, "height", &mut node.height)?;
    parse_val_attribute(x, "min-width", &mut node.min_width)?;
    parse_val_attribute(x, "min-height", &mut node.min_height)?;
    parse_val_attribute(x, "max-width", &mut node.max_width)?;
    parse_val_attribute(x, "max-height", &mut node.max_height)?;
    parse_val_attribute(x, "margin-top", &mut node.margin.top)?;
    parse_val_attribute(x, "margin-bottom", &mut node.margin.bottom)?;
    parse_val_attribute(x, "margin-left", &mut node.margin.left)?;
    parse_val_attribute(x, "margin-right", &mut node.margin.right)?;
    parse_val_attribute(x, "padding-top", &mut node.padding.top)?;
    parse_val_attribute(x, "padding-bottom", &mut node.padding.bottom)?;
    parse_val_attribute(x, "padding-left", &mut node.padding.left)?;
    parse_val_attribute(x, "padding-right", &mut node.padding.right)?;
    parse_optional_color_attribute(x, "background-color", &mut node.background_color)?;
    Ok(())
}

/// Makes `node` a flex container and reads a flex container's attributes.
pub fn parse_flex_attributes(x: &XmlNode, node: &mut Node) -> (res: Result<(), ParseError>)
    ensures
        match flex_of(*x, old(node)@) {
            Ok(m) => res is Ok && final(node)@ == m,
            Err(e) => fails_with(res, e),
        },
{
    node.display = Display::Flex;
    parse_direction_attribute(x, "direction", &mut node.flex_direction)?;
    parse_wrap_attribute(x, "wrap", &mut node.flex_wrap)?;
    parse_number_attribute(x, "grow", &mut node.flex_grow)?;
    parse_number_attribute(x, "shrink", &mut node.flex_shrink)?;
    parse_val_attribute(x, "basis", &mut node.flex_basis)?;
    Ok(())
}

/// A span in the format of `span`, with no text.
fn same_format(span: &TextSpan) -> (res: TextSpan)
    ensures
        res@ == blank(span@),
{
    TextSpan {
        text: String::new(),
        bold: span.bold,
        italic: span.italic,
        underline: span.underline,
        strikethrough: span.strikethrough,
        color: span.color,
    }
}

/// Reads the format attributes of a `<t>` into `span`.
pub fn parse_span_attributes(x: &XmlNode, span: &mut TextSpan) -> (res: Result<(), ParseError>)
    ensures
        match styled_of(*x, old(span)@) {
            Ok(m) => res is Ok && final(span)@ == m,
            Err(e) => fails_with(res, e),
        },
{
    parse_bool_attribute(x, "bold", &mut span.bold)?;
    parse_bool_attribute(x, "italic", &mut span.italic)?;
    parse_bool_attribute(x, "underline", &mut span.underline)?;
    parse_bool_attribute(x, "strikethrough", &mut span.strikethrough)?;
    parse_color_attribute(x, "color", &mut span.color)?;
    Ok(())
}

/// Splits mixed content into spans, appended to `spans` in reading order;
/// `current` is the format in force at the start.
pub fn parse_text(children: &Vec<XmlNode>, current: TextSpan, spans: &mut Vec<TextSpan>) -> (res:
    Result<(), ParseError>)
    ensures
        match spans_upto(children@, children@.len() as int, current@) {
            Ok((added, _)) => res is Ok && spans_view(final(spans)@) == spans_view(old(spans)@)
                + added,
            Err(e) => fails_with(res, e),
        },
    decreases children@,
{
    let mut format = current;
    let mut i: usize = 0;
    assert(spans_view(spans@) + Seq::<SpanModel>::empty() =~= spans_view(spans@));
    while i < children.len()
        invariant
            i <= children.len(),
            match spans_upto(children@, i as int, current@) {
                Ok((added, after)) => spans_view(spans@) == spans_view(old(spans)@) + added
                    && format@ == after,
                Err(_) => false,
            },
        decreases children.len() - i,
    {
        let child = &children[i];
        let ghost seen = spans@;
        if child.kind == XmlKind::Text {
            match &child.text {
                Some(text) => collapse_into(text.as_str(), &mut format.text),
                None => {
                    assert(format@.text + Seq::<char>::empty() =~= format@.text);
                    assert(collapsed(Seq::<char>::empty()) =~= Seq::<char>::empty());
                },
            }
            let next = same_format(&format);
            spans.push(format);
            format = next;
            assert(spans_view(spans@) =~= spans_view(seen).push(spans@[spans@.len() - 1]@));
            assert(spans_view(spans@) =~= spans_view(old(spans)@) + spans_upto(
                children@,
                i + 1,
                current@,
            )->Ok_0.0);
        } else if child.kind == XmlKind::Element {
            if child.is_named("t") {
                let mut inner = same_format(&format);
                if let Err(e) = parse_span_attributes(child, &mut inner) {
                    proof {
                        lemma_spans_error_stays(children@, i + 1, children@.len() as int, current@);
                    }
                    return Err(e);
                }
                if let Err(e) = parse_text(&child.children, inner, spans) {
                    proof {
                        lemma_spans_error_stays(children@, i + 1, children@.len() as int, current@);
                    }
                    return Err(e);
                }
                assert(spans_view(spans@) =~= spans_view(old(spans)@) + spans_upto(
                    children@,
                    i + 1,
                    current@,
                )->Ok_0.0);
            } else {
                proof {
                    lemma_spans_error_stays(children@, i + 1, children@.len() as int, current@);
                }
                return invalid("Invalid text element: ", child.name.as_str());
            }
        }
        i += 1;
    }
    Ok(())
}

/// Whether the tag name stands for a layout kind, and for which.
pub fn layout_kind(name: &str) -> (res: Option<Display>)
    ensures
        res == layout_of(name@),
{
    if crate::chars::same_text(name, "flex") {
        Some(Display::Flex)
    } else {
        None
    }
}

/// Builds an element's node with nothing inside it yet.
pub fn parse_head(x: &XmlNode) -> (res: Result<Node, ParseError>)
    ensures
        node_outcome(res, head_of(*x)),
{
    reveal(head_of);
    let mut node = Node::default();
    match layout_kind(x.name.as_str()) {
        Some(Display::Flex) => {
            parse_flex_attributes(x, &mut node)?;
        },
        _ => {
            return invalid("Invalid root element: ", x.name.as_str());
        },
    }
    parse_common_node_attributes(x, &mut node)?;
    Ok(node)
}

/// Whether the element's content is text.
pub fn holds_text(x: &XmlNode) -> (b: bool)
    ensures
        b == leads_with_text(*x),
{
    x.children.len() > 0 && (x.children[0].kind == XmlKind::Text || x.children[0].is_named("t"))
}

/// Builds the nodes of the elements among `nodes`, in their order.
pub fn parse_children(nodes: &Vec<XmlNode>) -> (res: Result<Vec<Node>, ParseError>)
    ensures
        match children_upto(nodes@, nodes@.len() as int) {
            Ok(models) => res matches Ok(built) && Node::models(built@, built@.len() as int)
                == models,
            Err(e) => fails_with(res, e),
        },
    decreases nodes@, 0int,
{
    let mut built: Vec<Node> = Vec::new();
    let mut i: usize = 0;
    while i < nodes.len()
        invariant
            i <= nodes.len(),
            children_upto(nodes@, i as int) == Ok::<Seq<NodeModel>, Seq<char>>(
                Node::models(built@, built@.len() as int),
            ),
        decreases nodes.len() - i,
    {
        if nodes[i].kind == XmlKind::Element {
            let child = match parse_node(&nodes[i]) {
                Ok(child) => child,
                Err(e) => {
                    proof {
                        lemma_children_error_stays(nodes@, i + 1, nodes@.len() as int);
                    }
                    return Err(e);
                },
            };
            let ghost held = built@;
            built.push(child);
            proof {
                lemma_models_prefix(built@, held, held.len() as int);
            }
        }
        i += 1;
    }
    Ok(built)
}

/// Builds the node that one element describes, with all below it.
pub fn parse_node(x: &XmlNode) -> (res: Result<Node, ParseError>)
    ensures
        node_outcome(res, node_of(*x)),
    decreases x, 1int,
{
    let mut node = parse_head(x)?;
    let ghost head = node@;
    if holds_text(x) {
        let mut spans: Vec<TextSpan> = Vec::new();
        assert(spans_view(spans@) =~= Seq::empty());
        parse_text(&x.children, TextSpan::default(), &mut spans)?;
        assert(Seq::<SpanModel>::empty() + spans_view(spans@) =~= spans_view(spans@));
        node.content = Some(Content::Text(Text { text: spans }));
        assert(node@ == (NodeModel { content: Some(spans_view(spans@)), ..head }));
        return Ok(node);
    }
    node.children = parse_children(&x.children)?;
    assert(node@ == (NodeModel {
        children: Node::models(node.children@, node.children@.len() as int),
        ..head
    }));
    Ok(node)
}

/// Once reading spans has failed, reading further gives the same error.
proof fn lemma_spans_error_stays(nodes: Seq<XmlNode>, upto: int, later: int, start: SpanModel)
    requires
        0 <= upto <= later <= nodes.len(),
        spans_upto(nodes, upto, start) is Err,
    ensures
        spans_upto(nodes, later, start) == spans_upto(nodes, upto, start),
    decreases later - upto,
{
    if later > upto {
        lemma_spans_error_stays(nodes, upto, later - 1, start);
    }
}

/// Once building children has failed, building further gives the same error.
proof fn lemma_children_error_stays(nodes: Seq<XmlNode>, upto: int, later: int)
    requires
        0 <= upto <= later <= nodes.len(),
        children_upto(nodes, upto) is Err,
    ensures
        children_upto(nodes, later) == children_upto(nodes, upto),
    decreases later - upto,
{
    if later > upto {
        lemma_children_error_stays(nodes, upto, later - 1);
    }
}

/// The models of a prefix do not depend on what follows it.
proof fn lemma_models_prefix(long: Seq<Node>, short: Seq<Node>, upto: int)
    requires
        0 <= upto <= short.len() <= long.len(),
        forall|k: int| 0 <= k < upto ==> long[k] == short[k],
    ensures
        Node::models(long, upto) == Node::models(short, upto),
    decreases upto,
{
    if upto > 0 {
        lemma_models_prefix(long, short, upto - 1);
    }
}

/// Builds the node under a `<body>`.
pub fn parse_body(body: &XmlNode) -> (res: Result<Node, ParseError>)
    ensures
        node_outcome(res, body_of(*body)),
{
    if body.count_element_children() != 1 {
        return Err(
            ParseError::InvalidFormat(
                String::from_str("<body> must have exactly one root element"),
            ),
        );
    }
    match body.first_element_child() {
        Some(i) => parse_node(&body.children[i]),
        None => Err(
            ParseError::InvalidFormat(
                String::from_str("<body> must have exactly one root element"),
            ),
        ),
    }
}

/// The first element among `nodes`, where there is one and it is named `name`.
fn first_element_named<'a>(nodes: &'a Vec<XmlNode>, name: &str) -> (res: Option<&'a XmlNode>)
    ensures
        match first_named(nodes@, name@) {
            Some(x) => res matches Some(r) && *r == x,
            None => res is None,
        },
{
    let mut i: usize = 0;
    while i < nodes.len()
        invariant
            i <= nodes.len(),
            element_place(nodes@, 0) == element_place(nodes@, i as int),
        decreases nodes.len() - i,
    {
        if nodes[i].kind == XmlKind::Element {
            if nodes[i].is_named(name) {
                return Some(&nodes[i]);
            } else {
                return None;
            }
        }
        i += 1;
    }
    None
}

/// Builds the node that a document describes, from the nodes that stand
/// directly under the document's root.
pub fn parse_document(nodes: &Vec<XmlNode>) -> (res: Result<Node, ParseError>)
    ensures
        node_outcome(res, document_of(nodes@)),
{
    match first_element_named(nodes, "uix") {
        None => Err(ParseError::InvalidFormat(String::from_str("Missing <uix> root element"))),
        Some(uix) => match first_element_named(&uix.children, "body") {
            None => Err(ParseError::InvalidFormat(String::from_str("Missing <body> element"))),
            Some(body) => parse_body(body),
        },
    }
}

/// `res` is what parsing `input` owes: the malformed-XML error where the
/// text is not well-formed XML, and otherwise what the document gives.
pub open spec fn parse_outcome(input: Seq<char>, res: Result<Node, ParseError>) -> bool {
    match xml_nodes(input) {
        None => res matches Err(ParseError::InvalidXml(_)),
        Some(nodes) => node_outcome(res, document_of(nodes)),
    }
}

/// Parses a UIX markup text into its tree of nodes.
pub fn parse(input: &str) -> (res: Result<Node, ParseError>)
    ensures
        parse_outcome(input@, res),
{
    match read_document(input) {
        Err(e) => Err(ParseError::InvalidXml(e)),
        Ok(nodes) => parse_document(&nodes),
    }
}

} // verus!
