//! A plain model of a parsed XML document and the queries the csproj logic
//! makes on it. Parsing itself is done by `xmltree`.

use vstd::prelude::*;
use crate::text::{chars_of, string_from, push_str, chars_eq, eq_ignore_case_chars, eq_ignore_ascii_case};

verus! {

/// An XML element: its local name, its attributes and its child nodes.
#[derive(Debug)]
pub struct XmlElement {
    pub name: String,
    pub attributes: Vec<(String, String)>,
    pub children: Vec<XmlNode>,
}

/// A child node of an XML element.
#[derive(Debug)]
pub enum XmlNode {
    Element(XmlElement),
    Text(String),
    CData(String),
    Comment(String),
    ProcessingInstruction(String, Option<String>),
}

#[verifier::external_type_specification]
#[verifier::external_body]
pub struct ExXmltreeElement(xmltree::Element);

/// The root element that `xmltree::Element::parse` builds from `text`, in the
/// library's model; `None` when it reports an error. The crate is built with
/// its `attribute-sorted` feature, so each element keeps its attributes in a
/// `BTreeMap` and lists them in ascending order of name: the tree, the order
/// of the attributes included, depends on the text alone.
pub uninterp spec fn xml_document(text: Seq<char>) -> Option<XmlElement>;

/// The tree an `xmltree::Element` holds, in the library's model.
pub uninterp spec fn xml_model(e: xmltree::Element) -> XmlElement;

/// Parses an XML document.
///
/// Trusted: calls `xmltree::Element::parse` on the UTF-8 bytes of `content`;
/// the contract claims that it fails exactly when `xml_document` is `None`
/// and that the element it returns holds the tree `xml_document` names
/// (attributes in the ascending name order of xmltree's `attribute-sorted`
/// build).
#[verifier::external_body]
pub(crate) fn xml_parse(content: &str) -> (r: Option<xmltree::Element>)
    ensures
        r is None <==> xml_document(content@) is None,
        r matches Some(e) ==> xml_document(content@) == Some(xml_model(e)),
{
    xmltree::Element::parse(content.as_bytes()).ok()
}

/// Copies an `xmltree` element into the library's model.
///
/// Trusted: reads the public fields of `xmltree::Element` (name, attributes,
/// children) and of `xmltree::XMLNode`, copying each node one for one; the
/// contract claims the copy is the tree `xml_model` names.
#[verifier::external_body]
pub(crate) fn xml_element_model(e: &xmltree::Element) -> (r: XmlElement)
    ensures
        r == xml_model(*e),
    decreases 0nat,
{
    XmlElement {
        name: e.name.clone(),
        attributes: e.attributes.iter().map(|(k, v)| (k.clone(), v.clone())).collect(),
        children: e.children.iter().map(|n| match n {
            xmltree::XMLNode::Element(c) => XmlNode::Element(xml_element_model(c)),
            xmltree::XMLNode::Text(t) => XmlNode::Text(t.clone()),
            xmltree::XMLNode::CData(t) => XmlNode::CData(t.clone()),
            xmltree::XMLNode::Comment(t) => XmlNode::Comment(t.clone()),
            xmltree::XMLNode::ProcessingInstruction(a, b) => XmlNode::ProcessingInstruction(a.clone(), b.clone()),
        }).collect(),
    }
}

/// Parses `content` into the library's XML model.
pub fn parse_document(content: &str) -> (r: Option<XmlElement>)
    ensures
        r == xml_document(content@),
{
    match xml_parse(content) {
        Some(e) => Some(xml_element_model(&e)),
        None => None,
    }
}

/// The text and CDATA pieces among `nodes`, in order.
pub open spec fn text_pieces(nodes: Seq<XmlNode>) -> Seq<Seq<char>>
    decreases nodes.len(),
{
    if nodes.len() == 0 {
        Seq::empty()
    } else {
        let rest = text_pieces(nodes.drop_last());
        match nodes.last() {
            XmlNode::Text(t) => rest.push(t@),
            XmlNode::CData(t) => rest.push(t@),
            _ => rest,
        }
    }
}

/// Concatenation of a list of pieces.
pub open spec fn concat(pieces: Seq<Seq<char>>) -> Seq<char>
    decreases pieces.len(),
{
    if pieces.len() == 0 {
        Seq::empty()
    } else {
        concat(pieces.drop_last()) + pieces.last()
    }
}

/// The inner text of an element as `xmltree::Element::get_text` gives it:
/// all text and CDATA children concatenated, `None` when there are none.
pub open spec fn element_text(e: XmlElement) -> Option<Seq<char>> {
    let pieces = text_pieces(e.children@);
    if pieces.len() == 0 {
        None
    } else {
        Some(concat(pieces))
    }
}

/// The inner text of an element.
pub fn get_text(e: &XmlElement) -> (r: Option<String>)
    ensures
        r matches Some(t) ==> element_text(*e) == Some(t@),
        r is None ==> element_text(*e) is None,
{
    let mut out: Vec<char> = Vec::new();
    let mut found = false;
    let mut i: usize = 0;
    while i < e.children.len()
        invariant
            i <= e.children@.len(),
            found == (text_pieces(e.children@.subrange(0, i as int)).len() > 0),
            out@ == concat(text_pieces(e.children@.subrange(0, i as int))),
        decreases e.children.len() - i,
    {
        let ghost after = e.children@.subrange(0, i + 1);
        let ghost before = e.children@.subrange(0, i as int);
        assert(after.drop_last() =~= before);
        match &e.children[i] {
            XmlNode::Text(t) => {
                push_str(&mut out, t.as_str());
                found = true;
                assert(text_pieces(after) == text_pieces(before).push(t@));
                assert(text_pieces(after).drop_last() =~= text_pieces(before));
            },
            XmlNode::CData(t) => {
                push_str(&mut out, t.as_str());
                found = true;
                assert(text_pieces(after) == text_pieces(before).push(t@));
                assert(text_pieces(after).drop_last() =~= text_pieces(before));
            },
            _ => {
                assert(text_pieces(after) == text_pieces(before));
            },
        }
        i = i + 1;
    }
    assert(e.children@.subrange(0, e.children@.len() as int) =~= e.children@);
    if found {
        Some(string_from(out.as_slice()))
    } else {
        None
    }
}

/// The value of the first attribute named `key` at or after index `k`.
pub open spec fn attribute_from(attrs: Seq<(String, String)>, key: Seq<char>, k: int) -> Option<Seq<char>>
    decreases attrs.len() - k,
{
    if k < 0 || k >= attrs.len() {
        None
    } else if attrs[k].0@ == key {
        Some(attrs[k].1@)
    } else {
        attribute_from(attrs, key, k + 1)
    }
}

/// The value of the attribute `key` of an element.
pub open spec fn attribute(e: XmlElement, key: Seq<char>) -> Option<Seq<char>> {
    attribute_from(e.attributes@, key, 0)
}

/// The value of the attribute `key` of an element.
pub fn get_attribute(e: &XmlElement, key: &str) -> (r: Option<String>)
    ensures
        r matches Some(v) ==> attribute(*e, key@) == Some(v@),
        r is None ==> attribute(*e, key@) is None,
{
    let k = chars_of(key);
    let mut i: usize = 0;
    while i < e.attributes.len()
        invariant
            i <= e.attributes@.len(),
            attribute(*e, key@) == attribute_from(e.attributes@, key@, i as int),
            k@ == key@,
        decreases e.attributes.len() - i,
    {
        let name = chars_of(e.attributes[i].0.as_str());
        if chars_eq(name.as_slice(), k.as_slice()) {
            return Some(e.attributes[i].1.clone());
        }
        i = i + 1;
    }
    None
}

/// The node is an element with the given name.
pub open spec fn is_element_named(n: XmlNode, name: Seq<char>) -> bool {
    match n {
        XmlNode::Element(e) => e.name@ == name,
        _ => false,
    }
}

/// Tests whether `n` is an element named `name`.
pub fn node_is_element_named(n: &XmlNode, name: &str) -> (r: bool)
    ensures
        r == is_element_named(*n, name@),
{
    match n {
        XmlNode::Element(e) => {
            let a = chars_of(e.name.as_str());
            let b = chars_of(name);
            chars_eq(a.as_slice(), b.as_slice())
        },
        _ => false,
    }
}

/// The first element child named `name` among `items[k..]`.
pub open spec fn first_named_from(items: Seq<XmlNode>, name: Seq<char>, k: int) -> Option<XmlElement>
    decreases items.len() - k,
{
    if k < 0 || k >= items.len() {
        None
    } else if is_element_named(items[k], name) {
        match items[k] {
            XmlNode::Element(e) => Some(e),
            _ => None,
        }
    } else {
        first_named_from(items, name, k + 1)
    }
}

/// The first property named `name` inside the `PropertyGroup` elements among
/// `groups[i..]`, in document order.
pub open spec fn property_from(groups: Seq<XmlNode>, name: Seq<char>, i: int) -> Option<XmlElement>
    decreases groups.len() - i,
{
    if i < 0 || i >= groups.len() {
        None
    } else {
        match groups[i] {
            XmlNode::Element(g) => if g.name@ == "PropertyGroup"@ && first_named_from(g.children@, name, 0) is Some {
                first_named_from(g.children@, name, 0)
            } else {
                property_from(groups, name, i + 1)
            },
            _ => property_from(groups, name, i + 1),
        }
    }
}

/// The first element child named `name` of `items`.
fn find_named(items: &Vec<XmlNode>, name: &str) -> (r: Option<usize>)
    ensures
        r matches Some(k) ==> k < items@.len() && is_element_named(items@[k as int], name@)
            && first_named_from(items@, name@, 0) == match items@[k as int] {
                XmlNode::Element(e) => Some(e),
                _ => None::<XmlElement>,
            },
        r is None ==> first_named_from(items@, name@, 0) is None,
{
    let mut k: usize = 0;
    while k < items.len()
        invariant
            k <= items@.len(),
            first_named_from(items@, name@, 0) == first_named_from(items@, name@, k as int),
        decreases items.len() - k,
    {
        if node_is_element_named(&items[k], name) {
            return Some(k);
        }
        k = k + 1;
    }
    None
}

/// The first property element named `name` in the project's property groups.
pub fn find_property<'a>(project: &'a XmlElement, name: &str) -> (r: Option<&'a XmlElement>)
    ensures
        r matches Some(p) ==> property_from(project.children@, name@, 0) == Some(*p),
        r is None ==> property_from(project.children@, name@, 0) is None,
{
    let mut i: usize = 0;
    while i < project.children.len()
        invariant
            i <= project.children@.len(),
            property_from(project.children@, name@, 0) == property_from(project.children@, name@, i as int),
        decreases project.children.len() - i,
    {
        match &project.children[i] {
            XmlNode::Element(g) => {
                if node_is_element_named(&project.children[i], "PropertyGroup") {
                    match find_named(&g.children, name) {
                        Some(k) => {
                            match &g.children[k] {
                                XmlNode::Element(p) => {
                                    return Some(p);
                                },
                                _ => {},
                            }
                        },
                        None => {},
                    }
                }
            },
            _ => {},
        }
        i = i + 1;
    }
    None
}

/// The node is an element named `name` whose text is `true` in any ASCII case.
pub open spec fn is_true_child(n: XmlNode, name: Seq<char>) -> bool {
    match n {
        XmlNode::Element(c) => c.name@ == name && match element_text(c) {
            Some(t) => eq_ignore_ascii_case(t, "true"@),
            None => false,
        },
        _ => false,
    }
}

/// A `None` item takes part in packing: its `Pack` attribute, or a `Pack`
/// child element's text, is `true` in any ASCII case.
pub open spec fn pack_enabled(e: XmlElement) -> bool {
    (match attribute(e, "Pack"@) {
        Some(v) => eq_ignore_ascii_case(v, "true"@),
        None => false,
    }) || exists|k: int| 0 <= k < e.children@.len() && is_true_child(#[trigger] e.children@[k], "Pack"@)
}

fn is_true_text(t: &str) -> (r: bool)
    ensures
        r == eq_ignore_ascii_case(t@, "true"@),
{
    let a = chars_of(t);
    let b = chars_of("true");
    eq_ignore_case_chars(a.as_slice(), b.as_slice())
}

/// Tests whether a `None` item takes part in packing.
pub fn none_pack_enabled(entry: &XmlElement) -> (r: bool)
    ensures
        r == pack_enabled(*entry),
{
    match get_attribute(entry, "Pack") {
        Some(v) => {
            if is_true_text(v.as_str()) {
                return true;
            }
        },
        None => {},
    }
    let mut k: usize = 0;
    while k < entry.children.len()
        invariant
            k <= entry.children@.len(),
            forall|j: int| 0 <= j < k ==> !is_true_child(#[trigger] entry.children@[j], "Pack"@),
        decreases entry.children.len() - k,
    {
        match &entry.children[k] {
            XmlNode::Element(c) => {
                if node_is_element_named(&entry.children[k], "Pack") {
                    match get_text(c) {
                        Some(t) => {
                            if is_true_text(t.as_str()) {
                                assert(is_true_child(entry.children@[k as int], "Pack"@));
                                return true;
                            }
                        },
                        None => {},
                    }
                }
            },
            _ => {},
        }
        k = k + 1;
    }
    false
}

} // verus!
