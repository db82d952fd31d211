//! A plain-value picture of a parsed XML document.
use vstd::prelude::*;
use crate::chars::same_text;

verus! {

/// What sort of node stands at a place in the document.
#[derive(Clone, Copy, Debug, PartialEq, Eq, Structural)]
pub enum XmlKind {
    Root,
    Element,
    Instruction,
    Comment,
    Text,
}

/// One attribute of an element.
#[derive(Clone, Debug, PartialEq, Eq)]
pub struct XmlAttribute {
    /// The namespace URI of a prefixed attribute.
    pub namespace: Option<String>,
    /// The local name.
    pub name: String,
    pub value: String,
}

/// One node of the document with everything below it.
#[derive(Debug, PartialEq, Eq)]
pub struct XmlNode {
    pub kind: XmlKind,
    /// The local tag name; empty for anything but an element.
    pub name: String,
    /// The text of a text or comment node; for an element, that of a leading text child.
    pub text: Option<String>,
    pub attributes: Vec<XmlAttribute>,
    pub children: Vec<XmlNode>,
}

/// The place of the first attribute at or after `from` that has no
/// namespace and the local name `name`.
pub open spec fn attribute_place(attributes: Seq<XmlAttribute>, name: Seq<char>, from: int) -> Option<int>
    decreases attributes.len() - from,
{
    if from < 0 || from >= attributes.len() {
        None
    } else if attributes[from].namespace is None && attributes[from].name@ == name {
        Some(from)
    } else {
        attribute_place(attributes, name, from + 1)
    }
}

/// The value of the attribute `name`, where the element has one.
pub open spec fn attribute_value(node: XmlNode, name: Seq<char>) -> Option<Seq<char>> {
    match attribute_place(node.attributes@, name, 0) {
        Some(i) => Some(node.attributes@[i].value@),
        None => None,
    }
}

/// The place of the first element among `nodes` at or after `from`.
pub open spec fn element_place(nodes: Seq<XmlNode>, from: int) -> Option<int>
    decreases nodes.len() - from,
{
    if from < 0 || from >= nodes.len() {
        None
    } else if nodes[from].kind == XmlKind::Element {
        Some(from)
    } else {
        element_place(nodes, from + 1)
    }
}

/// How many of the first `upto` nodes are elements.
pub open spec fn element_count(nodes: Seq<XmlNode>, upto: int) -> nat
    decreases upto,
{
    if upto <= 0 || upto > nodes.len() {
        0
    } else if nodes[upto - 1].kind == XmlKind::Element {
        element_count(nodes, upto - 1) + 1
    } else {
        element_count(nodes, upto - 1)
    }
}

impl XmlNode {
    /// The value of the attribute called `name`: the first one without a
    /// namespace whose local name it is.
    pub fn attribute(&self, name: &str) -> (res: Option<&str>)
        ensures
            match attribute_value(*self, name@) {
                Some(v) => res matches Some(s) && s@ == v,
                None => res is None,
            },
    {
        let mut i: usize = 0;
        while i < self.attributes.len()
            invariant
                i <= self.attributes@.len(),
                attribute_place(self.attributes@, name@, 0) == attribute_place(
                    self.attributes@,
                    name@,
                    i as int,
                ),
            decreases self.attributes@.len() - i,
        {
            let a = &self.attributes[i];
            if a.namespace.is_none() && same_text(a.name.as_str(), name) {
                return Some(a.value.as_str());
            }
            i += 1;
        }
        None
    }

    /// The place of the first child that is an element.
    pub fn first_element_child(&self) -> (res: Option<usize>)
        ensures
            match element_place(self.children@, 0) {
                Some(i) => res matches Some(k) && k == i && k < self.children@.len(),
                None => res is None,
            },
    {
        let mut i: usize = 0;
        while i < self.children.len()
            invariant
                i <= self.children@.len(),
                element_place(self.children@, 0) == element_place(self.children@, i as int),
            decreases self.children@.len() - i,
        {
            if self.children[i].kind == XmlKind::Element {
                return Some(i);
            }
            i += 1;
        }
        None
    }

    /// How many children are elements.
    pub fn count_element_children(&self) -> (n: usize)
        ensures
            n == element_count(self.children@, self.children@.len() as int),
    {
        let mut n: usize = 0;
        let mut i: usize = 0;
        while i < self.children.len()
            invariant
                i <= self.children.len(),
                n <= i,
                n == element_count(self.children@, i as int),
            decreases self.children.len() - i,
        {
            if self.children[i].kind == XmlKind::Element {
                n += 1;
            }
            i += 1;
        }
        n
    }

    /// Whether the node's name is `name`.
    pub fn is_named(&self, name: &str) -> (b: bool)
        ensures
            b == (self.name@ == name@),
    {
        same_text(self.name.as_str(), name)
    }
}

#[verifier::external_type_specification]
#[verifier::external_body]
pub struct ExRoxChildren<'a, 'input: 'a>(roxmltree::Children<'a, 'input>);

#[verifier::external_type_specification]
#[verifier::external_body]
pub struct ExRoxAttribute<'a, 'input: 'a>(roxmltree::Attribute<'a, 'input>);

#[verifier::external_type_specification]
#[verifier::external_body]
pub struct ExRoxNodeType(roxmltree::NodeType);

#[verifier::external_type_specification]
#[verifier::external_body]
pub struct ExRoxError(roxmltree::Error);

/// The nodes that stand directly under the root of the document that
/// `roxmltree::Document::parse` builds from `input`, each with all that lies
/// below it; `None` where the text is not well-formed XML.
pub uninterp spec fn xml_nodes(input: Seq<char>) -> Option<Seq<XmlNode>>;

/// Tells the variants of `roxmltree::NodeType` apart.
#[verifier::external_body]
fn read_kind(kind: roxmltree::NodeType) -> XmlKind {
    match kind {
        roxmltree::NodeType::Root => XmlKind::Root,
        roxmltree::NodeType::Element => XmlKind::Element,
        roxmltree::NodeType::PI => XmlKind::Instruction,
        roxmltree::NodeType::Comment => XmlKind::Comment,
        roxmltree::NodeType::Text => XmlKind::Text,
    }
}

/// Copies what `roxmltree::Attribute::namespace`, `name` and `value` return.
#[verifier::external_body]
fn read_attribute(attribute: roxmltree::Attribute<'_, '_>) -> XmlAttribute {
    XmlAttribute {
        namespace: attribute.namespace().map(|uri| uri.to_string()),
        name: attribute.name().to_string(),
        value: attribute.value().to_string(),
    }
}

/// Copies the nodes that a `roxmltree::Children` iterator yields, in its
/// order, and through `children` all that lies below them: of each node its
/// `node_type`, the local part of its `tag_name`, its `text` and `attributes`.
#[verifier::external_body]
fn read_children(children: roxmltree::Children<'_, '_>) -> Vec<XmlNode> {
    children
        .map(|child| XmlNode {
            kind: read_kind(child.node_type()),
            name: child.tag_name().name().to_string(),
            text: child.text().map(|text| text.to_string()),
            attributes: child.attributes().map(read_attribute).collect(),
            children: read_children(child.children()),
        })
        .collect()
}

/// Calls `roxmltree::Document::parse` and copies what stands under the root.
/// Trusted: the parse depends on the text alone, so the copy is what
/// `xml_nodes` names, and an error comes back exactly where that is `None`.
#[verifier::external_body]
pub(crate) fn read_document(input: &str) -> (res: Result<Vec<XmlNode>, roxmltree::Error>)
    ensures
        match res {
            Ok(nodes) => xml_nodes(input@) == Some(nodes@),
            Err(_) => xml_nodes(input@) is None,
        },
{
    match roxmltree::Document::parse(input) {
        Ok(document) => Ok(read_children(document.root().children())),
        Err(error) => Err(error),
    }
}

} // verus!
