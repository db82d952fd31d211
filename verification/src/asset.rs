//! The tree that a markup text describes.
use vstd::prelude::*;
use crate::number::Number;
use crate::style::{Color, Display, FlexDirection, FlexWrap, UiRect, UiRectModel, Val, ValModel};

verus! {

/// A run of text in one format.
#[derive(Clone, Debug, PartialEq, Eq)]
pub struct TextSpan {
    pub text: String,
    pub bold: bool,
    pub italic: bool,
    pub underline: bool,
    pub strikethrough: bool,
    pub color: Color,
}

/// A `TextSpan` with its text as a sequence of characters.
pub struct SpanModel {
    pub text: Seq<char>,
    pub bold: bool,
    pub italic: bool,
    pub underline: bool,
    pub strikethrough: bool,
    pub color: Color,
}

impl View for TextSpan {
    type V = SpanModel;

    open spec fn view(&self) -> SpanModel {
        SpanModel {
            text: self.text@,
            bold: self.bold,
            italic: self.italic,
            underline: self.underline,
            strikethrough: self.strikethrough,
            color: self.color,
        }
    }
}

/// No text, no emphasis, black.
pub open spec fn default_span() -> SpanModel {
    SpanModel {
        text: Seq::empty(),
        bold: false,
        italic: false,
        underline: false,
        strikethrough: false,
        color: Color::spec_black(),
    }
}

impl Default for TextSpan {
    fn default() -> (span: TextSpan)
        ensures
            span@ == default_span(),
    {
        TextSpan {
            text: String::new(),
            bold: false,
            italic: false,
            underline: false,
            strikethrough: false,
            color: Color::black(),
        }
    }
}

/// The spans of a sequence, each by its model.
pub open spec fn spans_view(spans: Seq<TextSpan>) -> Seq<SpanModel> {
    spans.map_values(|span: TextSpan| span@)
}

/// Text in reading order.
#[derive(Debug, PartialEq, Eq)]
pub struct Text {
    pub text: Vec<TextSpan>,
}

/// What a node shows in place of children.
#[derive(Debug, PartialEq, Eq)]
pub enum Content {
    Text(Text),
}

/// One container of the layout tree.
#[derive(Debug, PartialEq, Eq)]
pub struct Node {
    pub display: Display,
    pub flex_direction: FlexDirection,
    pub flex_wrap: FlexWrap,
    pub flex_grow: Number,
    pub flex_shrink: Number,
    pub flex_basis: Val,
    pub width: Val,
    pub height: Val,
    pub min_width: Val,
    pub min_height: Val,
    pub max_width: Val,
    pub max_height: Val,
    pub top: Val,
    pub bottom: Val,
    pub left: Val,
    pub right: Val,
    pub margin: UiRect,
    pub padding: UiRect,
    pub background_color: Option<Color>,
    pub content: Option<Content>,
    pub children: Vec<Node>,
}

/// A `Node` over sequences: numbers and text as characters, the content as
/// its spans, the children as models.
pub struct NodeModel {
    pub display: Display,
    pub flex_direction: FlexDirection,
    pub flex_wrap: FlexWrap,
    pub flex_grow: Seq<char>,
    pub flex_shrink: Seq<char>,
    pub flex_basis: ValModel,
    pub width: ValModel,
    pub height: ValModel,
    pub min_width: ValModel,
    pub min_height: ValModel,
    pub max_width: ValModel,
    pub max_height: ValModel,
    pub top: ValModel,
    pub bottom: ValModel,
    pub left: ValModel,
    pub right: ValModel,
    pub margin: UiRectModel,
    pub padding: UiRectModel,
    pub background_color: Option<Color>,
    pub content: Option<Seq<SpanModel>>,
    pub children: Seq<NodeModel>,
}

/// The spans of a node's content.
pub open spec fn content_view(content: Option<Content>) -> Option<Seq<SpanModel>> {
    match content {
        Some(Content::Text(text)) => Some(spans_view(text.text@)),
        None => None,
    }
}

impl Node {
    /// The models of the first `upto` of `nodes`.
    pub open spec fn models(nodes: Seq<Node>, upto: int) -> Seq<NodeModel>
        decreases nodes, upto,
    {
        if upto <= 0 || upto > nodes.len() {
            Seq::empty()
        } else {
            Self::models(nodes, upto - 1).push(nodes[upto - 1].model())
        }
    }

    /// The node as a model.
    pub open spec fn model(&self) -> NodeModel
        decreases self, 0int,
    {
        NodeModel {
            display: self.display,
            flex_direction: self.flex_direction,
            flex_wrap: self.flex_wrap,
            flex_grow: self.flex_grow@,
            flex_shrink: self.flex_shrink@,
            flex_basis: self.flex_basis@,
            width: self.width@,
            height: self.height@,
            min_width: self.min_width@,
            min_height: self.min_height@,
            max_width: self.max_width@,
            max_height: self.max_height@,
            top: self.top@,
            bottom: self.bottom@,
            left: self.left@,
            right: self.right@,
            margin: self.margin@,
            padding: self.padding@,
            background_color: self.background_color,
            content: content_view(self.content),
            children: Self::models(self.children@, self.children@.len() as int),
        }
    }
}

impl View for Node {
    type V = NodeModel;

    open spec fn view(&self) -> NodeModel {
        self.model()
    }
}

/// The model of a box with the same dimension on every side.
pub open spec fn rect_of(side: ValModel) -> UiRectModel {
    UiRectModel { left: side, right: side, top: side, bottom: side }
}

/// A flex row that does not wrap, does not grow and may shrink, sized by
/// its content, with no margin, no padding, no colour and nothing inside.
pub open spec fn default_node() -> NodeModel {
    NodeModel {
        display: Display::Flex,
        flex_direction: FlexDirection::Row,
        flex_wrap: FlexWrap::NoWrap,
        flex_grow: "0"@,
        flex_shrink: "1"@,
        flex_basis: ValModel::Auto,
        width: ValModel::Auto,
        height: ValModel::Auto,
        min_width: ValModel::Auto,
        min_height: ValModel::Auto,
        max_width: ValModel::Auto,
        max_height: ValModel::Auto,
        top: ValModel::Auto,
        bottom: ValModel::Auto,
        left: ValModel::Auto,
        right: ValModel::Auto,
        margin: rect_of(ValModel::Px("0"@)),
        padding: rect_of(ValModel::Px("0"@)),
        background_color: None,
        content: None,
        children: Seq::empty(),
    }
}

fn number(text: &str) -> (n: Number)
    ensures
        n@ == text@,
{
    Number { text: String::from_str(text) }
}

fn no_space() -> (rect: UiRect)
    ensures
        rect@ == rect_of(ValModel::Px("0"@)),
{
    UiRect {
        left: Val::Px(number("0")),
        right: Val::Px(number("0")),
        top: Val::Px(number("0")),
        bottom: Val::Px(number("0")),
    }
}

impl Default for Node {
    fn default() -> (node: Node)
        ensures
            node@ == default_node(),
    {
        let node = Node {
            display: Display::Flex,
            flex_direction: FlexDirection::Row,
            flex_wrap: FlexWrap::NoWrap,
            flex_grow: number("0"),
            flex_shrink: number("1"),
            flex_basis: Val::Auto,
            width: Val::Auto,
            height: Val::Auto,
            min_width: Val::Auto,
            min_height: Val::Auto,
            max_width: Val::Auto,
            max_height: Val::Auto,
            top: Val::Auto,
            bottom: Val::Auto,
            left: Val::Auto,
            right: Val::Auto,
            margin: no_space(),
            padding: no_space(),
            background_color: None,
            content: None,
            children: Vec::new(),
        };
        assert(node@.children =~= Seq::empty());
        node
    }
}

/// A parsed document: the one node under its body.
#[derive(Debug, PartialEq, Eq)]
pub struct UIX {
    pub root: Node,
}

} // verus!
