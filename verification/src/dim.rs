//! Arrays of registers and clusters: how many elements, how far apart, and
//! under which labels.

use crate::error::{outcome, SVDError, SVDErrorKind, SVDErrorKindView, SVDErrorView};
use crate::parse::{
    child_number, child_text, decode_decimal, get_child_u32, get_text, text_of,
};
use crate::text::{
    chars_of, decimal, decimal_string, find_char, first_index, parse_radix, push_char, radix_u32,
    string_of,
};
use crate::xml::{Node, NodeView};
use vstd::prelude::*;
use vstd::string::*;

verus! {

/// Whether `c` is a capital letter of the basic alphabet.
pub open spec fn is_upper(c: char) -> bool {
    'A' <= c <= 'Z'
}

/// Whether `c` is a small letter of the basic alphabet.
pub open spec fn is_lower(c: char) -> bool {
    'a' <= c <= 'z'
}

/// The decimal notations of `x`, `x + 1`, and so on up to `y`; nothing where
/// `y` is below `x`.
pub open spec fn numeric_range(x: u32, y: u32) -> Seq<Seq<char>> {
    Seq::new(
        if x <= y {
            (y - x + 1) as nat
        } else {
            0
        },
        |i: int| decimal((x + i) as nat),
    )
}

/// The characters from `a` up to `b`, each as a label of its own; nothing
/// where `b` is below `a`.
pub open spec fn letter_range(a: char, b: char) -> Seq<Seq<char>> {
    Seq::new(
        if a <= b {
            (b as int - a as int + 1) as nat
        } else {
            0
        },
        |i: int| seq![(a as int + i) as char],
    )
}

/// The labels that one token of an index list stands for. `a-b` with two
/// decimal numbers stands for the numbers from `a` to `b`, with two capital
/// or two small letters for the letters from `a` to `b`; any other token
/// stands for itself.
pub open spec fn expand(t: Seq<char>) -> Seq<Seq<char>> {
    let k = first_index(t, '-');
    if 0 <= k < t.len() {
        let a = t.take(k);
        let b = t.skip(k + 1);
        if radix_u32(a, 10) is Some && radix_u32(b, 10) is Some {
            numeric_range(radix_u32(a, 10)->0, radix_u32(b, 10)->0)
        } else if a.len() == 1 && b.len() == 1 && ((is_upper(a[0]) && is_upper(b[0])) || (
        is_lower(a[0]) && is_lower(b[0]))) {
            letter_range(a[0], b[0])
        } else {
            seq![t]
        }
    } else {
        seq![t]
    }
}

/// The labels that an index list stands for: those of its tokens, which
/// commas separate, in the order of the list.
pub open spec fn spec_dim_index(s: Seq<char>) -> Seq<Seq<char>>
    decreases s.len(),
{
    let k = first_index(s, ',');
    if 0 <= k < s.len() {
        expand(s.take(k)) + spec_dim_index(s.skip(k + 1))
    } else {
        expand(s)
    }
}

fn push_numeric_range(out: &mut Vec<String>, x: u32, y: u32)
    ensures
        final(out).deep_view() == old(out).deep_view() + numeric_range(x, y),
{
    let ghost start = out.deep_view();
    if x > y {
        assert(start + numeric_range(x, y) =~= start);
        return ;
    }
    let mut v: u64 = x as u64;
    let last: u64 = y as u64;
    while v <= last
        invariant
            x <= v <= last + 1,
            last == y,
            out.deep_view() == start + numeric_range(x, y).take(v - x),
        decreases last + 1 - v,
    {
        let ghost before = out.deep_view();
        let label = decimal_string(v);
        out.push(label);
        assert(out.deep_view() =~= before.push(decimal(v as nat)));
        assert(out.deep_view() =~= start + numeric_range(x, y).take(v + 1 - x));
        v += 1;
    }
    assert(numeric_range(x, y).take(v - x) =~= numeric_range(x, y));
}

fn push_letter_range(out: &mut Vec<String>, a: char, b: char)
    requires
        a as u32 <= 127,
        b as u32 <= 127,
    ensures
        final(out).deep_view() == old(out).deep_view() + letter_range(a, b),
{
    let ghost start = out.deep_view();
    if a > b {
        assert(start + letter_range(a, b) =~= start);
        return ;
    }
    let first: u8 = a as u8;
    let last: u8 = b as u8;
    let mut v: u8 = first;
    while v <= last
        invariant
            first == a as u8,
            last == b as u8,
            a as u32 <= 127,
            b as u32 <= 127,
            first <= v <= last + 1,
            out.deep_view() == start + letter_range(a, b).take(v - first),
        decreases last + 1 - v,
    {
        let ghost before = out.deep_view();
        let mut label = String::new();
        push_char(&mut label, v as char);
        assert(label@ =~= seq![(a as int + (v - first)) as char]);
        out.push(label);
        assert(out.deep_view() =~= before.push(label@));
        assert(out.deep_view() =~= start + letter_range(a, b).take(v + 1 - first));
        v += 1;
    }
    assert(letter_range(a, b).take(v - first) =~= letter_range(a, b));
}

fn both_letters(a: char, b: char) -> (r: bool)
    ensures
        r == ((is_upper(a) && is_upper(b)) || (is_lower(a) && is_lower(b))),
{
    ('A' <= a && a <= 'Z' && 'A' <= b && b <= 'Z') || ('a' <= a && a <= 'z' && 'a' <= b && b
        <= 'z')
}

/// Appends the labels that the token `chars[from..to]` stands for.
fn expand_into(chars: &Vec<char>, from: usize, to: usize, out: &mut Vec<String>)
    requires
        from <= to <= chars@.len(),
    ensures
        final(out).deep_view() == old(out).deep_view() + expand(
            chars@.subrange(from as int, to as int),
        ),
{
    let ghost t = chars@.subrange(from as int, to as int);
    let ghost start = out.deep_view();
    let k = find_char(chars, from, to, '-');
    if k < to {
        proof {
            assert(t.take(k - from) == chars@.subrange(from as int, k as int));
            assert(t.skip(k - from + 1) == chars@.subrange(k + 1, to as int));
        }
        let low = parse_radix(chars, from, k, 10);
        let high = parse_radix(chars, k + 1, to, 10);
        match (low, high) {
            (Some(x), Some(y)) => {
                push_numeric_range(out, x, y);
                return ;
            },
            _ => {},
        }
        if k - from == 1 && to - (k + 1) == 1 && both_letters(chars[from], chars[k + 1]) {
            assert(t.take(k - from)[0] == chars@[from as int]);
            assert(t.skip(k - from + 1)[0] == chars@[k + 1]);
            push_letter_range(out, chars[from], chars[k + 1]);
            return ;
        }
    }
    let label = string_of(chars, from, to);
    out.push(label);
    assert(out.deep_view() =~= start + seq![t]);
}

/// Expands the text of an index list into its labels: `0,1,2` gives `0`,
/// `1`, `2`; `2-4` gives `2`, `3`, `4`; `A-C` gives `A`, `B`, `C`.
pub fn dim_index(text: &str) -> (labels: Vec<String>)
    ensures
        labels.deep_view() == spec_dim_index(text@),
{
    let chars = chars_of(text);
    let n = chars.len();
    let mut labels: Vec<String> = Vec::new();
    let mut start: usize = 0;
    assert(labels.deep_view() + spec_dim_index(chars@.skip(0)) =~= spec_dim_index(chars@)) by {
        assert(chars@.skip(0) == chars@);
    }
    loop
        invariant_except_break
            start <= n,
            spec_dim_index(chars@) == labels.deep_view() + spec_dim_index(
                chars@.skip(start as int),
            ),
        invariant
            n == chars@.len(),
            chars@ == text@,
        ensures
            labels.deep_view() == spec_dim_index(chars@),
        decreases n - start,
    {
        let ghost rest = chars@.skip(start as int);
        let ghost before = labels.deep_view();
        let k = find_char(&chars, start, n, ',');
        proof {
            assert(chars@.subrange(start as int, n as int) == rest);
            assert(rest.take(k - start) == chars@.subrange(start as int, k as int));
            if k < n {
                assert(rest.skip(k - start + 1) == chars@.skip(k + 1));
            }
        }
        expand_into(&chars, start, k, &mut labels);
        if k >= n {
            proof {
                assert(rest.take(k - start) == rest);
            }
            break ;
        }
        proof {
            let token = expand(rest.take(k - start));
            let tail = spec_dim_index(chars@.skip(k + 1));
            assert(before + (token + tail) =~= (before + token) + tail);
        }
        start = k + 1;
    }
    labels
}

/// How a register or cluster is repeated: `dim` elements, `dim_increment`
/// address units apart, under the labels `dim_index` where the description
/// lists them.
#[derive(Debug, PartialEq, Eq)]
pub struct RegisterClusterArrayInfo {
    pub dim: u32,
    pub dim_increment: u32,
    pub dim_index: Option<Vec<String>>,
}

/// The mathematical model of [`RegisterClusterArrayInfo`].
pub struct RegisterClusterArrayInfoView {
    pub dim: u32,
    pub dim_increment: u32,
    pub dim_index: Option<Seq<Seq<char>>>,
}

impl RegisterClusterArrayInfoView {
    /// Where the labels are given, there is one for each element.
    pub open spec fn wf(self) -> bool {
        self.dim_index matches Some(labels) ==> labels.len() == self.dim
    }
}

impl DeepView for RegisterClusterArrayInfo {
    type V = RegisterClusterArrayInfoView;

    open spec fn deep_view(&self) -> RegisterClusterArrayInfoView {
        RegisterClusterArrayInfoView {
            dim: self.dim,
            dim_increment: self.dim_increment,
            dim_index: self.dim_index.deep_view(),
        }
    }
}

impl View for RegisterClusterArrayInfo {
    type V = RegisterClusterArrayInfoView;

    open spec fn view(&self) -> RegisterClusterArrayInfoView {
        self.deep_view()
    }
}

impl Clone for RegisterClusterArrayInfo {
    fn clone(&self) -> (r: RegisterClusterArrayInfo)
        ensures
            r@ == self@,
    {
        let dim_index = match &self.dim_index {
            None => None,
            Some(labels) => {
                let copy = labels.clone();
                assert(copy.deep_view() =~= labels.deep_view());
                Some(copy)
            },
        };
        RegisterClusterArrayInfo { dim: self.dim, dim_increment: self.dim_increment, dim_index }
    }
}

/// The labels in the child `dimIndex`, `None` where there is no such child.
pub open spec fn dim_labels(n: NodeView) -> Result<Option<Seq<Seq<char>>>, SVDErrorView> {
    match n.child("dimIndex"@) {
        None => Ok(None),
        Some(c) => match text_of(c) {
            Err(e) => Err(e),
            Ok(t) => Ok(Some(spec_dim_index(t))),
        },
    }
}

/// The array that the children `dim`, `dimIncrement` and `dimIndex` of a
/// node describe. `dim` is a decimal number. Labels that are not as many as
/// `dim` says are refused.
pub open spec fn spec_array_info(n: NodeView) -> Result<RegisterClusterArrayInfoView, SVDErrorView> {
    match child_text(n, "dim"@) {
        Err(e) => Err(e),
        Ok(t) => match radix_u32(t, 10) {
            None => Err(
                SVDErrorView::new(SVDErrorKindView::InvalidNumber(t)).within("<dim> invalid"@),
            ),
            Some(dim) => match child_number(n, "dimIncrement"@) {
                Err(e) => Err(e),
                Ok(dim_increment) => match dim_labels(n) {
                    Err(e) => Err(e),
                    Ok(dim_index) => if dim_index is Some && dim_index->0.len() != dim {
                        Err(
                            SVDErrorView::new(
                                SVDErrorKindView::ArrayCardinalityMismatch(dim, dim_index->0.len()),
                            ),
                        )
                    } else {
                        Ok(RegisterClusterArrayInfoView { dim, dim_increment, dim_index })
                    },
                },
            },
        },
    }
}

impl RegisterClusterArrayInfo {
    /// Decodes the array that the children `dim`, `dimIncrement` and `dimIndex`
    /// of `node` describe.
    pub fn parse(node: &Node) -> (r: Result<RegisterClusterArrayInfo, SVDError>)
        ensures
            outcome(r) == spec_array_info(node@),
            r matches Ok(info) ==> info@.wf(),
    {
        let text = match node.get_child_text("dim") {
            Err(e) => { return Err(e); },
            Ok(t) => t,
        };
        let dim = match decode_decimal(text.as_str()) {
            None => {
                return Err(
                    SVDError::new(SVDErrorKind::InvalidNumber(text)).within(
                        String::from_str("<dim> invalid"),
                    ),
                );
            },
            Some(v) => v,
        };
        let dim_increment = match get_child_u32("dimIncrement", node) {
            Err(e) => { return Err(e); },
            Ok(v) => v,
        };
        let dim_index = match node.get_child("dimIndex") {
            None => None,
            Some(c) => match get_text(c) {
                Err(e) => { return Err(e); },
                Ok(t) => Some(dim_index(t.as_str())),
            },
        };
        match &dim_index {
            Some(labels) => {
                if labels.len() != dim as usize {
                    return Err(
                        SVDError::new(SVDErrorKind::ArrayCardinalityMismatch(dim, labels.len())),
                    );
                }
            },
            None => {},
        }
        Ok(RegisterClusterArrayInfo { dim, dim_increment, dim_index })
    }
}

/// An array that is decoded has a label for each of its elements where the
/// document lists labels at all, and a list of another length is refused.
pub proof fn lemma_array_labels(n: NodeView)
    ensures
        spec_array_info(n) matches Ok(array) ==> array.wf() && (array.dim_index is Some
            <==> n.child("dimIndex"@) is Some),
        (child_text(n, "dim"@) matches Ok(t) && radix_u32(t, 10) matches Some(dim) && dim_labels(
            n,
        ) matches Ok(Some(labels)) && labels.len() != dim) ==> spec_array_info(n) is Err,
{
}

} // verus!
