//! Reading scalar values out of a document tree.

use crate::error::{outcome, SVDError, SVDErrorKind, SVDErrorKindView, SVDErrorView};
use crate::text::{chars_of, parse_radix, radix_u32, str_eq};
use crate::xml::{Node, NodeView};
use vstd::prelude::*;
use vstd::string::*;

verus! {

/// The text of a node; a node without text is an empty tag.
pub open spec fn text_of(n: NodeView) -> Result<Seq<char>, SVDErrorView> {
    match n.text {
        Some(t) => Ok(t),
        None => Err(SVDErrorView::new(SVDErrorKindView::EmptyTag(n, n.name))),
    }
}

/// The first child with the given tag; its absence is a missing tag.
pub open spec fn child_of(n: NodeView, tag: Seq<char>) -> Result<NodeView, SVDErrorView> {
    match n.child(tag) {
        Some(c) => Ok(c),
        None => Err(SVDErrorView::new(SVDErrorKindView::MissingTag(n, tag))),
    }
}

/// The text of the first child with the given tag, `None` where there is no
/// such child. A child without text is still a failure.
pub open spec fn child_text_opt(n: NodeView, tag: Seq<char>) -> Result<
    Option<Seq<char>>,
    SVDErrorView,
> {
    match n.child(tag) {
        Some(c) => match text_of(c) {
            Ok(t) => Ok(Some(t)),
            Err(e) => Err(e),
        },
        None => Ok(None),
    }
}

/// The text of the first child with the given tag, which must be there.
pub open spec fn child_text(n: NodeView, tag: Seq<char>) -> Result<Seq<char>, SVDErrorView> {
    match child_text_opt(n, tag) {
        Ok(Some(t)) => Ok(t),
        Ok(None) => Err(SVDErrorView::new(SVDErrorKindView::MissingTag(n, tag))),
        Err(e) => Err(e),
    }
}

/// Whether `s` begins with the characters `a`, `b`.
pub open spec fn starts_with2(s: Seq<char>, a: char, b: char) -> bool {
    s.len() >= 2 && s[0] == a && s[1] == b
}

/// Binary digits in which the don't-care mark `x` (and `X`, where `upper`
/// holds) reads as zero.
pub open spec fn dont_care(s: Seq<char>, upper: bool) -> Seq<char> {
    Seq::new(
        s.len(),
        |i: int|
            if s[i] == 'x' || (upper && s[i] == 'X') {
                '0'
            } else {
                s[i]
            },
    )
}

/// The unsigned 32-bit number that a text denotes. `0x` or `0X` introduces
/// hexadecimal digits, `#` or `0b` binary digits with don't-care marks,
/// anything else is decimal.
pub open spec fn spec_u32(s: Seq<char>) -> Option<u32> {
    if starts_with2(s, '0', 'x') || starts_with2(s, '0', 'X') {
        radix_u32(s.skip(2), 16)
    } else if s.len() >= 1 && s[0] == '#' {
        radix_u32(dont_care(s.skip(1), true), 2)
    } else if starts_with2(s, '0', 'b') {
        radix_u32(dont_care(s.skip(2), false), 2)
    } else {
        radix_u32(s, 10)
    }
}

/// The boolean that a text denotes: `0`, `1`, `true` or `false`.
pub open spec fn spec_bool(s: Seq<char>) -> Option<bool> {
    if s == seq!['0'] || s == seq!['f', 'a', 'l', 's', 'e'] {
        Some(false)
    } else if s == seq!['1'] || s == seq!['t', 'r', 'u', 'e'] {
        Some(true)
    } else {
        None
    }
}

/// The number in the text of a node.
pub open spec fn number_of(n: NodeView) -> Result<u32, SVDErrorView> {
    match text_of(n) {
        Err(e) => Err(e),
        Ok(t) => match spec_u32(t) {
            Some(v) => Ok(v),
            None => Err(SVDErrorView::new(SVDErrorKindView::InvalidNumber(t))),
        },
    }
}

/// The number in the first child with the given tag, which must be there.
pub open spec fn child_number(n: NodeView, tag: Seq<char>) -> Result<u32, SVDErrorView> {
    match child_of(n, tag) {
        Err(e) => Err(e),
        Ok(c) => number_of(c),
    }
}

/// The number in the first child with the given tag, `None` where there is
/// no such child.
pub open spec fn child_number_opt(n: NodeView, tag: Seq<char>) -> Result<
    Option<u32>,
    SVDErrorView,
> {
    match n.child(tag) {
        None => Ok(None),
        Some(c) => match number_of(c) {
            Ok(v) => Ok(Some(v)),
            Err(e) => Err(e),
        },
    }
}

/// The boolean in the text of a node.
pub open spec fn flag_of(n: NodeView) -> Result<bool, SVDErrorView> {
    match text_of(n) {
        Err(e) => Err(e),
        Ok(t) => match spec_bool(t) {
            Some(v) => Ok(v),
            None => Err(SVDErrorView::new(SVDErrorKindView::InvalidBooleanValue(n, t))),
        },
    }
}

/// The boolean in the first child with the given tag, which must be there.
pub open spec fn child_flag(n: NodeView, tag: Seq<char>) -> Result<bool, SVDErrorView> {
    match child_of(n, tag) {
        Err(e) => Err(e),
        Ok(c) => flag_of(c),
    }
}

/// The boolean in the first child with the given tag, `None` where there is
/// no such child.
pub open spec fn child_flag_opt(n: NodeView, tag: Seq<char>) -> Result<
    Option<bool>,
    SVDErrorView,
> {
    match n.child(tag) {
        None => Ok(None),
        Some(c) => match flag_of(c) {
            Ok(v) => Ok(Some(v)),
            Err(e) => Err(e),
        },
    }
}

/// What the children selected by `pick` decode to, in document order. Each
/// is handed to `f` with the number of selected children before it; the
/// first failure ends the decoding.
pub open spec fn collect<T>(
    children: Seq<NodeView>,
    pick: spec_fn(NodeView) -> bool,
    f: spec_fn(NodeView, nat) -> Result<T, SVDErrorView>,
) -> Result<Seq<T>, SVDErrorView>
    decreases children.len(),
{
    if children.len() == 0 {
        Ok(Seq::empty())
    } else {
        match collect(children.drop_last(), pick, f) {
            Err(e) => Err(e),
            Ok(done) => if !pick(children.last()) {
                Ok(done)
            } else {
                match f(children.last(), done.len()) {
                    Ok(v) => Ok(done.push(v)),
                    Err(e) => Err(e),
                }
            },
        }
    }
}

/// One more child extends what the children before it decode to.
pub proof fn lemma_collect_step<T>(
    children: Seq<NodeView>,
    pick: spec_fn(NodeView) -> bool,
    f: spec_fn(NodeView, nat) -> Result<T, SVDErrorView>,
    i: int,
)
    requires
        0 <= i < children.len(),
    ensures
        collect(children.take(i + 1), pick, f) == match collect(children.take(i), pick, f) {
            Err(e) => Err(e),
            Ok(done) => if !pick(children[i]) {
                Ok(done)
            } else {
                match f(children[i], done.len()) {
                    Ok(v) => Ok(done.push(v)),
                    Err(e) => Err(e),
                }
            },
        },
{
    assert(children.take(i + 1).drop_last() == children.take(i));
}

/// A failure among the first `k` children is the failure of the whole list.
pub proof fn lemma_collect_failure<T>(
    children: Seq<NodeView>,
    pick: spec_fn(NodeView) -> bool,
    f: spec_fn(NodeView, nat) -> Result<T, SVDErrorView>,
    k: int,
)
    requires
        0 <= k <= children.len(),
        collect(children.take(k), pick, f) is Err,
    ensures
        collect(children, pick, f) == collect(children.take(k), pick, f),
    decreases children.len() - k,
{
    if k == children.len() {
        assert(children.take(k) == children);
    } else {
        assert(children.drop_last().take(k) == children.take(k));
        lemma_collect_failure(children.drop_last(), pick, f, k);
    }
}

/// Where every child is selected, a decoded list has an element for each
/// child, at the child's place.
pub proof fn lemma_collect_order<T>(
    children: Seq<NodeView>,
    pick: spec_fn(NodeView) -> bool,
    f: spec_fn(NodeView, nat) -> Result<T, SVDErrorView>,
)
    requires
        forall|c: NodeView| #[trigger] pick(c),
    ensures
        collect(children, pick, f) matches Ok(list) ==> {
            &&& list.len() == children.len()
            &&& forall|i: int|
                0 <= i < list.len() ==> f(children[i], i as nat) == Ok::<T, SVDErrorView>(
                    #[trigger] list[i],
                )
        },
    decreases children.len(),
{
    if children.len() > 0 {
        let front = children.drop_last();
        lemma_collect_order(front, pick, f);
        assert(pick(children.last()));
        if let Ok(list) = collect(children, pick, f) {
            let done = collect(front, pick, f)->Ok_0;
            assert forall|i: int| 0 <= i < list.len() implies f(children[i], i as nat) == Ok::<
                T,
                SVDErrorView,
            >(#[trigger] list[i]) by {
                if i < done.len() {
                    assert(front[i] == children[i]);
                    assert(list[i] == done[i]);
                } else {
                    assert(children[i] == children.last());
                }
            }
        }
    }
}

/// What holds of everything that a child can decode to holds of every
/// element of a decoded list.
pub proof fn lemma_collect_all<T>(
    children: Seq<NodeView>,
    pick: spec_fn(NodeView) -> bool,
    f: spec_fn(NodeView, nat) -> Result<T, SVDErrorView>,
    good: spec_fn(T) -> bool,
)
    requires
        forall|c: NodeView, i: nat| (#[trigger] f(c, i)) matches Ok(v) ==> good(v),
    ensures
        collect(children, pick, f) matches Ok(list) ==> forall|j: int|
            0 <= j < list.len() ==> good(#[trigger] list[j]),
    decreases children.len(),
{
    if children.len() > 0 {
        let front = children.drop_last();
        lemma_collect_all(front, pick, f, good);
        if let Ok(list) = collect(children, pick, f) {
            let done = collect(front, pick, f)->Ok_0;
            assert forall|j: int| 0 <= j < list.len() implies good(#[trigger] list[j]) by {
                if j < done.len() {
                    assert(list[j] == done[j]);
                } else {
                    assert(f(children.last(), done.len()) matches Ok(v) && v == list[j]);
                }
            }
        }
    }
}

fn strip_dont_care(chars: &Vec<char>, from: usize, upper: bool) -> (out: Vec<char>)
    requires
        from <= chars@.len(),
    ensures
        out@ == dont_care(chars@.skip(from as int), upper),
{
    let mut out: Vec<char> = Vec::new();
    let mut i: usize = from;
    while i < chars.len()
        invariant
            from <= i <= chars@.len(),
            out@ == dont_care(chars@.skip(from as int), upper).take(i - from),
        decreases chars.len() - i,
    {
        let c = chars[i];
        let d = if c == 'x' || (upper && c == 'X') {
            '0'
        } else {
            c
        };
        out.push(d);
        assert(out@ =~= dont_care(chars@.skip(from as int), upper).take(i + 1 - from));
        i += 1;
    }
    assert(out@ =~= dont_care(chars@.skip(from as int), upper));
    out
}

/// Reads an unsigned 32-bit number in hexadecimal, binary or decimal form.
pub fn decode_u32(text: &str) -> (r: Option<u32>)
    ensures
        r == spec_u32(text@),
{
    let chars = chars_of(text);
    let n = chars.len();
    if n >= 2 && chars[0] == '0' && (chars[1] == 'x' || chars[1] == 'X') {
        assert(chars@.subrange(2, n as int) == chars@.skip(2));
        parse_radix(&chars, 2, n, 16)
    } else if n >= 1 && chars[0] == '#' {
        let bits = strip_dont_care(&chars, 1, true);
        assert(bits@.subrange(0, bits@.len() as int) == bits@);
        parse_radix(&bits, 0, bits.len(), 2)
    } else if n >= 2 && chars[0] == '0' && chars[1] == 'b' {
        let bits = strip_dont_care(&chars, 2, false);
        assert(bits@.subrange(0, bits@.len() as int) == bits@);
        parse_radix(&bits, 0, bits.len(), 2)
    } else {
        assert(chars@.subrange(0, n as int) == chars@);
        parse_radix(&chars, 0, n, 10)
    }
}

/// Reads an unsigned 32-bit number in decimal form.
pub fn decode_decimal(text: &str) -> (r: Option<u32>)
    ensures
        r == radix_u32(text@, 10),
{
    let chars = chars_of(text);
    assert(chars@.subrange(0, chars@.len() as int) == chars@);
    parse_radix(&chars, 0, chars.len(), 10)
}

/// Reads a boolean written as `0`, `1`, `true` or `false`.
pub fn decode_bool(text: &str) -> (r: Option<bool>)
    ensures
        r == spec_bool(text@),
{
    proof {
        reveal_strlit("0");
        reveal_strlit("1");
        reveal_strlit("true");
        reveal_strlit("false");
        assert("0"@ =~= seq!['0']);
        assert("1"@ =~= seq!['1']);
        assert("true"@ =~= seq!['t', 'r', 'u', 'e']);
        assert("false"@ =~= seq!['f', 'a', 'l', 's', 'e']);
    }
    if str_eq(text, "0") || str_eq(text, "false") {
        Some(false)
    } else if str_eq(text, "1") || str_eq(text, "true") {
        Some(true)
    } else {
        None
    }
}

/// The text content of a node.
pub fn get_text(node: &Node) -> (r: Result<String, SVDError>)
    ensures
        outcome(r) == text_of(node@),
{
    match &node.text {
        Some(t) => Ok(t.clone()),
        None => Err(SVDError::new(SVDErrorKind::EmptyTag(node.clone(), node.name.clone()))),
    }
}

/// The first child element with the given tag, which must be there.
pub fn get_child_elem<'a>(tag: &str, node: &'a Node) -> (r: Result<&'a Node, SVDError>)
    ensures
        outcome(r) == child_of(node@, tag@),
{
    match node.get_child(tag) {
        Some(c) => Ok(c),
        None => Err(SVDError::new(SVDErrorKind::MissingTag(node.clone(), String::from_str(tag)))),
    }
}

/// The number in the text of a node.
pub fn parse_u32(node: &Node) -> (r: Result<u32, SVDError>)
    ensures
        outcome(r) == number_of(node@),
{
    match get_text(node) {
        Err(e) => Err(e),
        Ok(t) => match decode_u32(t.as_str()) {
            Some(v) => Ok(v),
            None => Err(SVDError::new(SVDErrorKind::InvalidNumber(t))),
        },
    }
}

/// The boolean in the text of a node.
pub fn parse_bool(node: &Node) -> (r: Result<bool, SVDError>)
    ensures
        outcome(r) == flag_of(node@),
{
    match get_text(node) {
        Err(e) => Err(e),
        Ok(t) => match decode_bool(t.as_str()) {
            Some(v) => Ok(v),
            None => Err(SVDError::new(SVDErrorKind::InvalidBooleanValue(node.clone(), t))),
        },
    }
}

/// The number in the first child with the given tag, which must be there.
pub fn get_child_u32(tag: &str, node: &Node) -> (r: Result<u32, SVDError>)
    ensures
        outcome(r) == child_number(node@, tag@),
{
    match get_child_elem(tag, node) {
        Err(e) => Err(e),
        Ok(c) => parse_u32(c),
    }
}

/// The number in the first child with the given tag, if there is such a
/// child.
pub fn get_child_u32_opt(tag: &str, node: &Node) -> (r: Result<Option<u32>, SVDError>)
    ensures
        outcome(r) == child_number_opt(node@, tag@),
{
    match node.get_child(tag) {
        None => Ok(None),
        Some(c) => match parse_u32(c) {
            Ok(v) => Ok(Some(v)),
            Err(e) => Err(e),
        },
    }
}

/// The boolean in the first child with the given tag, which must be there.
pub fn get_child_bool(tag: &str, node: &Node) -> (r: Result<bool, SVDError>)
    ensures
        outcome(r) == child_flag(node@, tag@),
{
    match get_child_elem(tag, node) {
        Err(e) => Err(e),
        Ok(c) => parse_bool(c),
    }
}

/// The boolean in the first child with the given tag, if there is such a
/// child.
pub fn get_child_bool_opt(tag: &str, node: &Node) -> (r: Result<Option<bool>, SVDError>)
    ensures
        outcome(r) == child_flag_opt(node@, tag@),
{
    match node.get_child(tag) {
        None => Ok(None),
        Some(c) => match parse_bool(c) {
            Ok(v) => Ok(Some(v)),
            Err(e) => Err(e),
        },
    }
}

impl Node {
    /// The text of the first child with the given tag, if there is such a
    /// child.
    pub fn get_child_text_opt(&self, tag: &str) -> (r: Result<Option<String>, SVDError>)
        ensures
            outcome(r) == child_text_opt(self@, tag@),
    {
        match self.get_child(tag) {
            Some(c) => match get_text(c) {
                Ok(t) => Ok(Some(t)),
                Err(e) => Err(e),
            },
            None => Ok(None),
        }
    }

    /// The text of the first child with the given tag, which must be there.
    pub fn get_child_text(&self, tag: &str) -> (r: Result<String, SVDError>)
        ensures
            outcome(r) == child_text(self@, tag@),
    {
        match self.get_child_text_opt(tag) {
            Ok(Some(t)) => Ok(t),
            Ok(None) => Err(
                SVDError::new(SVDErrorKind::MissingTag(self.clone(), String::from_str(tag))),
            ),
            Err(e) => Err(e),
        }
    }
}

} // verus!
