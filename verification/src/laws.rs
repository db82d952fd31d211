//! What holds of every parse.
use vstd::prelude::*;
use crate::asset::{default_node, Node, NodeModel, SpanModel};
use crate::chars::{collapsed, is_space, spaces_end, spaces_start, squeezed};
use crate::convert::{bool_of, color_of, direction_of, hex_digit, number_of, val_of, wrap_of};
use crate::error::ParseError;
use crate::number::{digits_end, is_decimal};
use crate::parser::{
    children_upto, common_of, flex_of, head_of, leads_with_text, node_of, parse_outcome, styled_of,
};
use crate::style::{Display, UiRectModel, ValModel};
use crate::xml::{attribute_value, element_count, XmlKind, XmlNode};

verus! {

/// No node of the tree under `m`, `m` included, has both content and children.
pub open spec fn exclusive(m: NodeModel) -> bool
    decreases m,
{
    &&& m.content is Some ==> m.children.len() == 0
    &&& forall|i: int| 0 <= i < m.children.len() ==> exclusive(#[trigger] m.children[i])
}

/// An element's head has neither content nor children.
pub proof fn lemma_head_is_bare(x: XmlNode)
    requires
        head_of(x) is Ok,
    ensures
        head_of(x)->Ok_0.content is None,
        head_of(x)->Ok_0.children.len() == 0,
{
    reveal(head_of);
}

/// The children built from the first `upto` nodes are as many as the
/// elements among those nodes, and none of their trees has a node with both
/// content and children.
pub proof fn lemma_children_exclusive(nodes: Seq<XmlNode>, upto: int)
    requires
        0 <= upto <= nodes.len(),
        children_upto(nodes, upto) is Ok,
    ensures
        children_upto(nodes, upto)->Ok_0.len() == element_count(nodes, upto),
        forall|i: int|
            0 <= i < children_upto(nodes, upto)->Ok_0.len() ==> exclusive(
                #[trigger] children_upto(nodes, upto)->Ok_0[i],
            ),
    decreases nodes, upto,
{
    if upto > 0 {
        lemma_children_exclusive(nodes, upto - 1);
        if nodes[upto - 1].kind == XmlKind::Element {
            lemma_content_excludes_children(nodes[upto - 1]);
        }
    }
}

/// In every tree that the parser builds, a node holds text exactly where
/// its element's content starts as text, a node that holds text has no
/// children, a node without text has one child for each element child of
/// its element, and all this holds of every node below it as well.
pub proof fn lemma_content_excludes_children(x: XmlNode)
    requires
        node_of(x) is Ok,
    ensures
        exclusive(node_of(x)->Ok_0),
        node_of(x)->Ok_0.content is Some <==> leads_with_text(x),
        node_of(x)->Ok_0.content is Some ==> node_of(x)->Ok_0.children.len() == 0,
        node_of(x)->Ok_0.content is None ==> node_of(x)->Ok_0.children.len() == element_count(
            x.children@,
            x.children@.len() as int,
        ),
    decreases x, 0int,
{
    lemma_head_is_bare(x);
    if !leads_with_text(x) {
        lemma_children_exclusive(x.children@, x.children@.len() as int);
    }
}

/// Where the element's content starts as text or holds an element, its
/// node has content exactly if it has no children.
pub proof fn lemma_content_iff_no_children(x: XmlNode)
    requires
        node_of(x) is Ok,
        leads_with_text(x) || element_count(x.children@, x.children@.len() as int) > 0,
    ensures
        node_of(x)->Ok_0.content is Some <==> node_of(x)->Ok_0.children.len() == 0,
{
    lemma_content_excludes_children(x);
}

/// An element without attributes changes no field and gives no error: the
/// common attributes and the format of a span stay as they were, and a flex
/// container only becomes one.
pub proof fn lemma_missing_attributes_keep(x: XmlNode, m: NodeModel, s: SpanModel)
    requires
        x.attributes@.len() == 0,
    ensures
        common_of(x, m) == Ok::<NodeModel, Seq<char>>(m),
        flex_of(x, m) == Ok::<NodeModel, Seq<char>>(NodeModel { display: Display::Flex, ..m }),
        styled_of(x, s) == Ok::<SpanModel, Seq<char>>(s),
{
}

/// The names of the attributes that hold a dimension on every node.
pub open spec fn is_dimension_name(name: Seq<char>) -> bool {
    ||| name == "width"@
    ||| name == "height"@
    ||| name == "min-width"@
    ||| name == "min-height"@
    ||| name == "max-width"@
    ||| name == "max-height"@
    ||| name == "margin-top"@
    ||| name == "margin-bottom"@
    ||| name == "margin-left"@
    ||| name == "margin-right"@
    ||| name == "padding-top"@
    ||| name == "padding-bottom"@
    ||| name == "padding-left"@
    ||| name == "padding-right"@
}

/// There is no fallback for an attribute that is present: where the common
/// attributes were read without error, every dimension among them that the
/// element has converts, and so does its background colour.
pub proof fn lemma_common_attributes_convert(x: XmlNode, m: NodeModel, name: Seq<char>)
    requires
        common_of(x, m) is Ok,
    ensures
        is_dimension_name(name) ==> (attribute_value(x, name) matches Some(v) ==> val_of(v) is Ok),
        attribute_value(x, "background-color"@) matches Some(v) ==> color_of(v) is Ok,
{
}

/// Where a flex container's own attributes were read without error, each
/// of them that the element has converts.
pub proof fn lemma_flex_attributes_convert(x: XmlNode, m: NodeModel)
    requires
        flex_of(x, m) is Ok,
    ensures
        attribute_value(x, "direction"@) matches Some(v) ==> direction_of(v) is Ok,
        attribute_value(x, "wrap"@) matches Some(v) ==> wrap_of(v) is Ok,
        attribute_value(x, "grow"@) matches Some(v) ==> number_of(v) is Ok,
        attribute_value(x, "shrink"@) matches Some(v) ==> number_of(v) is Ok,
        attribute_value(x, "basis"@) matches Some(v) ==> val_of(v) is Ok,
{
}

/// Where the format attributes of a `<t>` were read without error, each of
/// them that the element has converts.
pub proof fn lemma_span_attributes_convert(x: XmlNode, s: SpanModel)
    requires
        styled_of(x, s) is Ok,
    ensures
        attribute_value(x, "bold"@) matches Some(v) ==> bool_of(v) is Ok,
        attribute_value(x, "italic"@) matches Some(v) ==> bool_of(v) is Ok,
        attribute_value(x, "underline"@) matches Some(v) ==> bool_of(v) is Ok,
        attribute_value(x, "strikethrough"@) matches Some(v) ==> bool_of(v) is Ok,
        attribute_value(x, "color"@) matches Some(v) ==> color_of(v) is Ok,
{
}

/// The number of a dimension spells a decimal number.
pub open spec fn val_decimal(v: ValModel) -> bool {
    match v {
        ValModel::Auto => true,
        ValModel::Px(n) => is_decimal(n),
        ValModel::Percent(n) => is_decimal(n),
        ValModel::Vw(n) => is_decimal(n),
        ValModel::Vh(n) => is_decimal(n),
        ValModel::VMin(n) => is_decimal(n),
        ValModel::VMax(n) => is_decimal(n),
    }
}

pub open spec fn rect_decimal(r: UiRectModel) -> bool {
    val_decimal(r.left) && val_decimal(r.right) && val_decimal(r.top) && val_decimal(r.bottom)
}

/// Every number of the node itself spells a decimal number.
pub open spec fn own_numbers_decimal(m: NodeModel) -> bool {
    &&& is_decimal(m.flex_grow)
    &&& is_decimal(m.flex_shrink)
    &&& val_decimal(m.flex_basis)
    &&& val_decimal(m.width)
    &&& val_decimal(m.height)
    &&& val_decimal(m.min_width)
    &&& val_decimal(m.min_height)
    &&& val_decimal(m.max_width)
    &&& val_decimal(m.max_height)
    &&& val_decimal(m.top)
    &&& val_decimal(m.bottom)
    &&& val_decimal(m.left)
    &&& val_decimal(m.right)
    &&& rect_decimal(m.margin)
    &&& rect_decimal(m.padding)
}

/// Every number in the tree under `m` spells a decimal number.
pub open spec fn numbers_decimal(m: NodeModel) -> bool
    decreases m,
{
    &&& own_numbers_decimal(m)
    &&& forall|i: int| 0 <= i < m.children.len() ==> numbers_decimal(#[trigger] m.children[i])
}

/// A dimension that was accepted holds a decimal number.
pub proof fn lemma_dimension_is_decimal(s: Seq<char>)
    requires
        val_of(s) is Ok,
    ensures
        val_decimal(val_of(s)->Ok_0),
{
}

/// The numbers of the default node are decimal numbers.
pub proof fn lemma_default_is_decimal()
    ensures
        own_numbers_decimal(default_node()),
{
    reveal_strlit("0");
    reveal_strlit("1");
    assert(digits_end("0"@, 1) == 1);
    assert(digits_end("1"@, 1) == 1);
    assert(is_decimal("0"@));
    assert(is_decimal("1"@));
}

/// The numbers of an element's head are decimal numbers.
pub proof fn lemma_head_is_decimal(x: XmlNode)
    requires
        head_of(x) is Ok,
    ensures
        own_numbers_decimal(head_of(x)->Ok_0),
{
    reveal(head_of);
    lemma_default_is_decimal();
    let flex = flex_of(x, default_node())->Ok_0;
    assert(own_numbers_decimal(flex));
}

/// The numbers of the children built from the first `upto` nodes are
/// decimal numbers.
pub proof fn lemma_children_are_decimal(nodes: Seq<XmlNode>, upto: int)
    requires
        0 <= upto <= nodes.len(),
        children_upto(nodes, upto) is Ok,
    ensures
        forall|i: int|
            0 <= i < children_upto(nodes, upto)->Ok_0.len() ==> numbers_decimal(
                #[trigger] children_upto(nodes, upto)->Ok_0[i],
            ),
    decreases nodes, upto,
{
    if upto > 0 {
        lemma_children_are_decimal(nodes, upto - 1);
        if nodes[upto - 1].kind == XmlKind::Element {
            lemma_numbers_are_decimal(nodes[upto - 1]);
        }
    }
}

/// Every number in a tree that the parser builds spells a decimal number,
/// so each can be read as one.
pub proof fn lemma_numbers_are_decimal(x: XmlNode)
    requires
        node_of(x) is Ok,
    ensures
        numbers_decimal(node_of(x)->Ok_0),
    decreases x, 0int,
{
    lemma_head_is_bare(x);
    lemma_head_is_decimal(x);
    if !leads_with_text(x) {
        lemma_children_are_decimal(x.children@, x.children@.len() as int);
    }
}

/// The text has white space only as single spaces between other
/// characters: none at either end, no two in a row, none but the space.
pub open spec fn tidy(text: Seq<char>) -> bool {
    &&& forall|i: int| 0 <= i < text.len() && is_space(#[trigger] text[i]) ==> text[i] == ' '
    &&& text.len() > 0 ==> !is_space(text[0]) && !is_space(text[text.len() - 1])
    &&& forall|i: int|
        0 <= i < text.len() - 1 ==> !(is_space(#[trigger] text[i]) && is_space(text[i + 1]))
}

/// Where white space ends, there is none.
proof fn lemma_spaces_end(s: Seq<char>, from: int)
    requires
        0 <= from <= s.len(),
    ensures
        from <= spaces_end(s, from) <= s.len(),
        spaces_end(s, from) < s.len() ==> !is_space(s[spaces_end(s, from)]),
    decreases s.len() - from,
{
    if from < s.len() && is_space(s[from]) {
        lemma_spaces_end(s, from + 1);
    }
}

/// Before where trailing white space starts, there is none.
proof fn lemma_spaces_start(s: Seq<char>, low: int, to: int)
    requires
        0 <= low <= to <= s.len(),
    ensures
        low <= spaces_start(s, low, to) <= to,
        spaces_start(s, low, to) > low ==> !is_space(s[spaces_start(s, low, to) - 1]),
    decreases to,
{
    if low < to && is_space(s[to - 1]) {
        lemma_spaces_start(s, low, to - 1);
    }
}

/// A stretch that starts with no white space squeezes to a text whose
/// white space is single spaces, not at the start, and at the end exactly
/// where the stretch ends in white space.
proof fn lemma_squeezed(s: Seq<char>, low: int, high: int)
    requires
        0 <= low < high <= s.len(),
        !is_space(s[low]),
    ensures
        ({
            let q = squeezed(s, low, high);
            &&& q.len() > 0
            &&& !is_space(q[0])
            &&& is_space(q[q.len() - 1]) == is_space(s[high - 1])
            &&& forall|i: int| 0 <= i < q.len() && is_space(#[trigger] q[i]) ==> q[i] == ' '
            &&& forall|i: int|
                0 <= i < q.len() - 1 ==> !(is_space(#[trigger] q[i]) && is_space(q[i + 1]))
        }),
    decreases high - low,
{
    if high - 1 > low {
        lemma_squeezed(s, low, high - 1);
    } else {
        assert(squeezed(s, low, low) =~= Seq::<char>::empty());
    }
}

/// Collapsed text is tidy.
pub proof fn lemma_collapsed_is_tidy(s: Seq<char>)
    ensures
        tidy(collapsed(s)),
{
    lemma_spaces_end(s, 0);
    let low = spaces_end(s, 0);
    lemma_spaces_start(s, low, s.len() as int);
    let high = spaces_start(s, low, s.len() as int);
    if low < high {
        lemma_squeezed(s, low, high);
    }
}

/// A colour is accepted exactly where the text is `#` followed by six or
/// eight hexadecimal digits.
pub proof fn lemma_color_accepted(s: Seq<char>)
    ensures
        color_of(s) is Ok <==> {
            &&& s.len() == 7 || s.len() == 9
            &&& s[0] == '#'
            &&& forall|i: int| 1 <= i < s.len() ==> hex_digit(#[trigger] s[i]) is Some
        },
{
    if (s.len() == 7 || s.len() == 9) && s[0] == '#' {
        if color_of(s) is Ok {
            assert forall|i: int| 1 <= i < s.len() implies hex_digit(#[trigger] s[i]) is Some by {
                if i == 1 {
                } else if i == 2 {
                } else if i == 3 {
                } else if i == 4 {
                } else if i == 5 {
                } else if i == 6 {
                } else if i == 7 {
                } else {
                }
            }
        } else {
            if forall|i: int| 1 <= i < s.len() ==> hex_digit(#[trigger] s[i]) is Some {
                assert(hex_digit(s[1]) is Some);
                assert(hex_digit(s[2]) is Some);
                assert(hex_digit(s[3]) is Some);
                assert(hex_digit(s[4]) is Some);
                assert(hex_digit(s[5]) is Some);
                assert(hex_digit(s[6]) is Some);
                if s.len() == 9 {
                    assert(hex_digit(s[7]) is Some);
                    assert(hex_digit(s[8]) is Some);
                }
            }
        }
    }
}

/// Two parses of one text agree: both give a tree, and the trees have the
/// same model, or both give an error of the same kind, and with the same
/// message where it is an invalid format.
pub proof fn lemma_parse_is_a_function(
    input: Seq<char>,
    first: Result<Node, ParseError>,
    second: Result<Node, ParseError>,
)
    requires
        parse_outcome(input, first),
        parse_outcome(input, second),
    ensures
        match (first, second) {
            (Ok(a), Ok(b)) => a@ == b@,
            (Err(ParseError::InvalidFormat(a)), Err(ParseError::InvalidFormat(b))) => a@ == b@,
            (Err(ParseError::InvalidXml(_)), Err(ParseError::InvalidXml(_))) => true,
            _ => false,
        },
{
}

} // verus!
