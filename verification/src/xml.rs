//! The document tree that the decoders read, and the way into it from XML
//! text.

use crate::text::str_eq;
use vstd::prelude::*;
use xmltree::Element;
use xmltree::ParseError;

verus! {

/// An element of the XML library, as it comes out of its reader.
#[verifier::external_type_specification]
#[verifier::external_body]
pub struct ExElement(Element);

/// The reason for which the XML library refuses a text.
#[verifier::external_type_specification]
#[verifier::external_body]
pub struct ExParseError(ParseError);

/// One element of an XML document: its tag, attributes, child elements in
/// document order, and text content.
#[derive(Debug, PartialEq, Eq)]
pub struct Node {
    pub name: String,
    pub attributes: Vec<(String, String)>,
    pub children: Vec<Node>,
    pub text: Option<String>,
}

/// The mathematical model of a [`Node`].
pub struct NodeView {
    pub name: Seq<char>,
    pub attributes: Map<Seq<char>, Seq<char>>,
    pub children: Seq<NodeView>,
    pub text: Option<Seq<char>>,
}

/// The attribute map that a list of key-value pairs denotes; where a key
/// occurs more than once, its last value stands.
pub open spec fn attribute_map(pairs: Seq<(String, String)>) -> Map<Seq<char>, Seq<char>>
    decreases pairs.len(),
{
    if pairs.len() == 0 {
        Map::empty()
    } else {
        attribute_map(pairs.drop_last()).insert(pairs.last().0@, pairs.last().1@)
    }
}

/// The mathematical model of a node: texts as sequences of characters, the
/// attributes as a map, the children as the sequence of their models.
pub open spec fn node_view(n: Node) -> NodeView
    decreases n,
{
    NodeView {
        name: n.name@,
        attributes: attribute_map(n.attributes@),
        children: Seq::new(
            n.children.len() as nat,
            |i: int|
                if 0 <= i < n.children.len() {
                    node_view(n.children[i])
                } else {
                    arbitrary()
                },
        ),
        text: match n.text {
            Some(t) => Some(t@),
            None => None,
        },
    }
}

impl View for Node {
    type V = NodeView;

    open spec fn view(&self) -> NodeView {
        node_view(*self)
    }
}

impl DeepView for Node {
    type V = NodeView;

    open spec fn deep_view(&self) -> NodeView {
        node_view(*self)
    }
}

/// The first of `children` whose tag is `tag`.
pub open spec fn first_named(children: Seq<NodeView>, tag: Seq<char>) -> Option<NodeView>
    decreases children.len(),
{
    if children.len() == 0 {
        None
    } else {
        match first_named(children.drop_last(), tag) {
            Some(c) => Some(c),
            None => if children.last().name == tag {
                Some(children.last())
            } else {
                None
            },
        }
    }
}

/// A match among the first `k` children is the match among all of them.
pub proof fn lemma_first_named_prefix(children: Seq<NodeView>, tag: Seq<char>, k: int)
    requires
        0 <= k <= children.len(),
        first_named(children.take(k), tag) is Some,
    ensures
        first_named(children, tag) == first_named(children.take(k), tag),
    decreases children.len() - k,
{
    if k == children.len() {
        assert(children.take(k) == children);
    } else {
        assert(children.drop_last().take(k) == children.take(k));
        lemma_first_named_prefix(children.drop_last(), tag, k);
    }
}

/// The view of a node lists the views of its children, one for one.
pub proof fn lemma_children_view(n: Node)
    ensures
        n@.children.len() == n.children@.len(),
        forall|i: int| 0 <= i < n.children@.len() ==> n@.children[i] == (#[trigger] n.children@[i])@,
        n@.children == n.children.deep_view(),
{
    assert(n@.children =~= n.children.deep_view());
}

impl NodeView {
    /// The first child element with the given tag.
    pub open spec fn child(self, tag: Seq<char>) -> Option<NodeView> {
        first_named(self.children, tag)
    }

    /// The value of the attribute `key`.
    pub open spec fn attribute(self, key: Seq<char>) -> Option<Seq<char>> {
        if self.attributes.contains_key(key) {
            Some(self.attributes[key])
        } else {
            None
        }
    }
}

/// The tree below an element of the XML library: its local name, its
/// attributes by local name, its child elements in document order and its
/// text.
pub uninterp spec fn element_node(e: Element) -> NodeView;

/// The root element that the XML library reads from a document, or `None`
/// where it rejects the text.
pub uninterp spec fn xml_document(text: Seq<char>) -> Option<NodeView>;

/// `xmltree::Element::parse` on the bytes of `text`. The outcome depends on
/// the text alone: an element tree for a document that the library accepts,
/// an error for any other.
#[verifier::external_body]
fn read_element(text: &str) -> (r: Result<Element, ParseError>)
    ensures
        match r {
            Ok(e) => xml_document(text@) == Some(element_node(e)),
            Err(_) => xml_document(text@) is None,
        },
{
    Element::parse(text.as_bytes())
}

/// Copies the public fields `name`, `attributes`, `children` and `text` of an
/// `xmltree::Element`, and of every element below it, into a [`Node`]. The
/// attributes of an element have distinct keys, so the order in which they
/// are listed does not show in the view.
#[verifier::external_body]
fn node_of_element(e: &Element) -> (n: Node)
    ensures
        n@ == element_node(*e),
{
    Node {
        name: e.name.clone(),
        attributes: e.attributes.iter().map(|(k, v)| (k.clone(), v.clone())).collect(),
        children: e.children.iter().map(node_of_element).collect(),
        text: e.text.clone(),
    }
}

/// Reads an XML document into its root [`Node`]; `None` where the text is
/// not a document that the XML library accepts.
pub fn parse_document(text: &str) -> (r: Option<Node>)
    ensures
        match r {
            Some(n) => xml_document(text@) == Some(n@),
            None => xml_document(text@) is None,
        },
{
    match read_element(text) {
        Ok(e) => Some(node_of_element(&e)),
        Err(_) => None,
    }
}

impl Node {
    /// The first child element with the given tag.
    pub fn get_child(&self, tag: &str) -> (r: Option<&Node>)
        ensures
            r.deep_view() == self@.child(tag@),
    {
        let mut i: usize = 0;
        proof {
            lemma_children_view(*self);
        }
        while i < self.children.len()
            invariant
                i <= self.children.len(),
                self@.children == self.children.deep_view(),
                first_named(self@.children.take(i as int), tag@) is None,
            decreases self.children.len() - i,
        {
            proof {
                assert(self@.children.take(i + 1).drop_last() == self@.children.take(i as int));
                assert(self@.children.take(i + 1).last() == self.children@[i as int]@);
            }
            if str_eq(self.children[i].name.as_str(), tag) {
                proof {
                    lemma_first_named_prefix(self@.children, tag@, i + 1);
                }
                return Some(&self.children[i]);
            }
            i += 1;
        }
        proof {
            assert(self@.children.take(i as int) == self@.children);
        }
        None
    }

    /// The value of the attribute `key`.
    pub fn get_attribute(&self, key: &str) -> (r: Option<String>)
        ensures
            r.deep_view() == self@.attribute(key@),
    {
        let mut found: Option<String> = None;
        let mut i: usize = 0;
        while i < self.attributes.len()
            invariant
                i <= self.attributes.len(),
                match found {
                    Some(v) => {
                        let m = attribute_map(self.attributes@.take(i as int));
                        m.contains_key(key@) && m[key@] == v@
                    },
                    None => !attribute_map(self.attributes@.take(i as int)).contains_key(key@),
                },
            decreases self.attributes.len() - i,
        {
            proof {
                assert(self.attributes@.take(i + 1).drop_last() == self.attributes@.take(i as int));
            }
            if str_eq(self.attributes[i].0.as_str(), key) {
                found = Some(self.attributes[i].1.clone());
            }
            i += 1;
        }
        proof {
            assert(self.attributes@.take(i as int) == self.attributes@);
        }
        found
    }
}

impl Clone for Node {
    fn clone(&self) -> (r: Node)
        ensures
            r@ == self@,
        decreases self,
    {
        let mut attributes: Vec<(String, String)> = Vec::new();
        let mut i: usize = 0;
        while i < self.attributes.len()
            invariant
                i <= self.attributes.len(),
                attribute_map(attributes@) == attribute_map(self.attributes@.take(i as int)),
            decreases self.attributes.len() - i,
        {
            let k = self.attributes[i].0.clone();
            let v = self.attributes[i].1.clone();
            let ghost before = attributes@;
            attributes.push((k, v));
            proof {
                assert(attributes@.drop_last() == before);
                assert(self.attributes@.take(i + 1).drop_last() == self.attributes@.take(i as int));
            }
            i += 1;
        }
        let mut children: Vec<Node> = Vec::new();
        let mut j: usize = 0;
        while j < self.children.len()
            invariant
                j <= self.children.len(),
                children@.len() == j,
                forall|k: int| 0 <= k < j ==> children@[k]@ == self.children@[k]@,
            decreases self.children.len() - j,
        {
            let c = self.children[j].clone();
            children.push(c);
            j += 1;
        }
        let text = match &self.text {
            Some(t) => Some(t.clone()),
            None => None,
        };
        let r = Node { name: self.name.clone(), attributes, children, text };
        proof {
            assert(self.attributes@.take(self.attributes@.len() as int) == self.attributes@);
            assert(r@.children =~= self@.children);
        }
        r
    }
}

/// `first_named` finds a child with the tag exactly where one exists, and
/// the one it finds has no child with that tag before it.
pub proof fn lemma_first_named(children: Seq<NodeView>, tag: Seq<char>)
    ensures
        first_named(children, tag) is None <==> forall|i: int|
            0 <= i < children.len() ==> (#[trigger] children[i]).name != tag,
        first_named(children, tag) matches Some(c) ==> exists|i: int|
            0 <= i < children.len() && #[trigger] children[i] == c && c.name == tag && forall|j: int|
                0 <= j < i ==> (#[trigger] children[j]).name != tag,
    decreases children.len(),
{
    if children.len() > 0 {
        let front = children.drop_last();
        lemma_first_named(front, tag);
        assert forall|i: int| 0 <= i < front.len() implies front[i] == children[i] by {}
        match first_named(front, tag) {
            Some(c) => {
                let i = choose|i: int|
                    0 <= i < front.len() && #[trigger] front[i] == c && c.name == tag && forall|j: int|
                        0 <= j < i ==> (#[trigger] front[j]).name != tag;
                assert(children[i] == c);
                assert forall|j: int| 0 <= j < i implies (#[trigger] children[j]).name != tag by {
                    assert(front[j] == children[j]);
                }
            },
            None => {
                assert forall|j: int| 0 <= j < front.len() implies (#[trigger] children[j]).name
                    != tag by {
                    assert(front[j] == children[j]);
                }
                if children.last().name == tag {
                    assert(children[children.len() - 1] == children.last());
                }
            },
        }
    }
}

} // verus!
