//! XML documents as element trees, and lookup of child elements by name.
use vstd::prelude::*;

verus! {

/// One element of an XML document: its local name, its text content (empty
/// when it has none) and its child elements in document order.
#[derive(Debug)]
pub struct XmlElement {
    pub name: String,
    pub text: String,
    pub children: Vec<XmlElement>,
}

/// An element tree as instant-xml reads it.
#[verifier::external_type_specification]
#[verifier::external_body]
pub struct ExAnyElement<'a>(instant_xml::AnyElement<'a>);

/// The element tree that instant-xml reads from a document, if it reads one.
pub uninterp spec fn xml_tree_of(s: Seq<char>) -> Option<XmlElement>;

/// Relies on `instant_xml::from_str::<instant_xml::AnyElement>`: reads a document
/// into an element tree, or fails on malformed markup.
#[verifier::external_body]
pub(crate) fn read_xml_tree(s: &str) -> (r: Option<XmlElement>)
    ensures
        r == xml_tree_of(s@),
{
    match instant_xml::from_str::<instant_xml::AnyElement>(s) {
        Ok(e) => Some(element_from_any(&e)),
        Err(_) => None,
    }
}

/// Copies an element tree of instant-xml into an `XmlElement`, field by field and
/// child by child; used only inside `read_xml_tree`.
#[verifier::external_body]
fn element_from_any(e: &instant_xml::AnyElement) -> XmlElement {
    XmlElement {
        name: e.name.to_string(),
        text: e.text.as_deref().unwrap_or("").to_string(),
        children: e.children.iter().map(element_from_any).collect(),
    }
}

/// The index of the first element of `cs`, from `i` on, whose name is `n`.
pub open spec fn first_named_from(cs: Seq<XmlElement>, n: Seq<char>, i: nat) -> Option<nat>
    decreases cs.len() - i,
{
    if i >= cs.len() {
        None
    } else if cs[i as int].name@ == n {
        Some(i)
    } else {
        first_named_from(cs, n, i + 1)
    }
}

/// The first child of `e` named `n`.
pub open spec fn child_named(e: XmlElement, n: Seq<char>) -> Option<XmlElement> {
    match first_named_from(e.children@, n, 0) {
        Some(i) => Some(e.children@[i as int]),
        None => None,
    }
}

/// Finds the index of the first child of `e` named `n`.
pub fn find_child(e: &XmlElement, n: &str) -> (r: Option<usize>)
    ensures
        r is None <==> first_named_from(e.children@, n@, 0) is None,
        r matches Some(i) ==> first_named_from(e.children@, n@, 0) == Some(i as nat) && i
            < e.children@.len(),
{
    let mut i: usize = 0;
    while i < e.children.len()
        invariant
            i <= e.children@.len(),
            first_named_from(e.children@, n@, 0) == first_named_from(e.children@, n@, i as nat),
        decreases e.children@.len() - i,
    {
        if e.children[i].name.as_str().to_owned() == n.to_owned() {
            return Some(i);
        }
        i = i + 1;
    }
    None
}

/// The text of the first child of `e` named `n`.
pub open spec fn child_text(e: XmlElement, n: Seq<char>) -> Option<String> {
    match child_named(e, n) {
        Some(c) => Some(c.text),
        None => None,
    }
}

/// Reads the text of the first child of `e` named `n`.
pub fn get_child_text(e: &XmlElement, n: &str) -> (r: Option<String>)
    ensures
        r == child_text(*e, n@),
{
    match find_child(e, n) {
        Some(i) => Some(e.children[i].text.clone()),
        None => None,
    }
}

/// The texts of the children of `cs` named `n`, in order.
pub open spec fn texts_named(cs: Seq<XmlElement>, n: Seq<char>) -> Seq<String>
    decreases cs.len(),
{
    if cs.len() == 0 {
        Seq::empty()
    } else if cs.last().name@ == n {
        texts_named(cs.drop_last(), n).push(cs.last().text)
    } else {
        texts_named(cs.drop_last(), n)
    }
}

/// Collects the texts of the children of `e` named `n`, in document order.
pub fn get_children_texts(e: &XmlElement, n: &str) -> (r: Vec<String>)
    ensures
        r@ == texts_named(e.children@, n@),
{
    let mut out: Vec<String> = Vec::new();
    let mut i: usize = 0;
    while i < e.children.len()
        invariant
            i <= e.children@.len(),
            out@ == texts_named(e.children@.take(i as int), n@),
        decreases e.children@.len() - i,
    {
        assert(e.children@.take(i + 1).drop_last() =~= e.children@.take(i as int));
        if e.children[i].name.as_str().to_owned() == n.to_owned() {
            out.push(e.children[i].text.clone());
        }
        i = i + 1;
    }
    assert(e.children@.take(i as int) =~= e.children@);
    out
}

} // verus!
verus! {

/// Whether an element has the name `n`.
pub open spec fn named(n: Seq<char>) -> spec_fn(XmlElement) -> bool {
    |c: XmlElement| c.name@ == n
}

/// The texts of the elements of `cs`, in order.
pub open spec fn texts_of(cs: Seq<XmlElement>) -> Seq<String> {
    cs.map_values(|c: XmlElement| c.text)
}

/// The texts collected for a name are those of the elements of that name, each
/// once and in document order.
pub proof fn texts_named_in_order(cs: Seq<XmlElement>, n: Seq<char>)
    ensures
        texts_named(cs, n) == texts_of(cs.filter(named(n))),
    decreases cs.len(),
{
    reveal(Seq::filter);
    if cs.len() > 0 {
        texts_named_in_order(cs.drop_last(), n);
        let f = cs.drop_last().filter(named(n));
        assert(texts_of(f.push(cs.last())) =~= texts_of(f).push(cs.last().text));
    } else {
        assert(texts_of(cs.filter(named(n))) =~= Seq::<String>::empty());
    }
}

} // verus!
