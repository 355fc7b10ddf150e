//! What can go wrong while a document is decoded.

use crate::text::{decimal, push_decimal};
use crate::xml::{Node, NodeView};
use vstd::prelude::*;
use vstd::string::*;

verus! {

/// Why a bit range was refused.
#[derive(Clone, Copy, Debug, PartialEq, Eq)]
pub enum InvalidBitRange {
    Syntax,
    ParseError,
    MsbLsb,
}

/// The first problem met in a document.
#[derive(Debug, PartialEq, Eq)]
pub enum SVDErrorKind {
    /// The text is not well-formed XML.
    MalformedDocument,
    /// The node lacks a required child with this tag.
    MissingTag(Node, String),
    /// The node, with this tag, has no text.
    EmptyTag(Node, String),
    /// The node does not have the tag expected at its position.
    NotExpectedTag(Node, String),
    /// The text is not an unsigned 32-bit number.
    InvalidNumber(String),
    /// The text of the node is not a boolean.
    InvalidBooleanValue(Node, String),
    UnknownAccessType(Node),
    UnknownEndian(String),
    UnknownUsageVariant(Node),
    InvalidBitRange(Node, InvalidBitRange),
    UnknownWriteConstraint(Node),
    MoreThanOneWriteConstraint(Node),
    /// A child of a register container that is neither a register nor a
    /// cluster; the string is its tag.
    InvalidRegisterCluster(Node, String),
    /// An array whose name, given here, lacks the `%s` placeholder.
    MissingPlaceholder(String),
    /// An array with `dim` elements and a different number of index labels.
    ArrayCardinalityMismatch(u32, usize),
}

/// The mathematical model of [`SVDErrorKind`].
pub enum SVDErrorKindView {
    MalformedDocument,
    MissingTag(NodeView, Seq<char>),
    EmptyTag(NodeView, Seq<char>),
    NotExpectedTag(NodeView, Seq<char>),
    InvalidNumber(Seq<char>),
    InvalidBooleanValue(NodeView, Seq<char>),
    UnknownAccessType(NodeView),
    UnknownEndian(Seq<char>),
    UnknownUsageVariant(NodeView),
    InvalidBitRange(NodeView, InvalidBitRange),
    UnknownWriteConstraint(NodeView),
    MoreThanOneWriteConstraint(NodeView),
    InvalidRegisterCluster(NodeView, Seq<char>),
    MissingPlaceholder(Seq<char>),
    ArrayCardinalityMismatch(u32, nat),
}

impl DeepView for SVDErrorKind {
    type V = SVDErrorKindView;

    open spec fn deep_view(&self) -> SVDErrorKindView {
        match self {
            SVDErrorKind::MalformedDocument => SVDErrorKindView::MalformedDocument,
            SVDErrorKind::MissingTag(n, t) => SVDErrorKindView::MissingTag(n@, t@),
            SVDErrorKind::EmptyTag(n, t) => SVDErrorKindView::EmptyTag(n@, t@),
            SVDErrorKind::NotExpectedTag(n, t) => SVDErrorKindView::NotExpectedTag(n@, t@),
            SVDErrorKind::InvalidNumber(t) => SVDErrorKindView::InvalidNumber(t@),
            SVDErrorKind::InvalidBooleanValue(n, t) => SVDErrorKindView::InvalidBooleanValue(
                n@,
                t@,
            ),
            SVDErrorKind::UnknownAccessType(n) => SVDErrorKindView::UnknownAccessType(n@),
            SVDErrorKind::UnknownEndian(t) => SVDErrorKindView::UnknownEndian(t@),
            SVDErrorKind::UnknownUsageVariant(n) => SVDErrorKindView::UnknownUsageVariant(n@),
            SVDErrorKind::InvalidBitRange(n, why) => SVDErrorKindView::InvalidBitRange(n@, *why),
            SVDErrorKind::UnknownWriteConstraint(n) => SVDErrorKindView::UnknownWriteConstraint(
                n@,
            ),
            SVDErrorKind::MoreThanOneWriteConstraint(n) => {
                SVDErrorKindView::MoreThanOneWriteConstraint(n@)
            },
            SVDErrorKind::InvalidRegisterCluster(n, t) => {
                SVDErrorKindView::InvalidRegisterCluster(n@, t@)
            },
            SVDErrorKind::MissingPlaceholder(t) => SVDErrorKindView::MissingPlaceholder(t@),
            SVDErrorKind::ArrayCardinalityMismatch(dim, labels) => {
                SVDErrorKindView::ArrayCardinalityMismatch(*dim, *labels as nat)
            },
        }
    }
}

impl View for SVDErrorKind {
    type V = SVDErrorKindView;

    open spec fn view(&self) -> SVDErrorKindView {
        self.deep_view()
    }
}

/// A failure with the trail that leads to it: `context` lists, innermost
/// first, the places that the failure passed on its way out.
#[derive(Debug, PartialEq, Eq)]
pub struct SVDError {
    pub kind: SVDErrorKind,
    pub context: Vec<String>,
}

/// The mathematical model of [`SVDError`].
pub struct SVDErrorView {
    pub kind: SVDErrorKindView,
    pub context: Seq<Seq<char>>,
}

impl SVDErrorView {
    /// A failure of this kind that has passed no place yet.
    pub open spec fn new(kind: SVDErrorKindView) -> SVDErrorView {
        SVDErrorView { kind, context: Seq::empty() }
    }

    /// The same failure after it passed the place described by `note`.
    pub open spec fn within(self, note: Seq<char>) -> SVDErrorView {
        SVDErrorView { kind: self.kind, context: self.context.push(note) }
    }
}

impl DeepView for SVDError {
    type V = SVDErrorView;

    open spec fn deep_view(&self) -> SVDErrorView {
        SVDErrorView { kind: self.kind@, context: self.context.deep_view() }
    }
}

impl View for SVDError {
    type V = SVDErrorView;

    open spec fn view(&self) -> SVDErrorView {
        self.deep_view()
    }
}

/// The text "`before` + `name` + `after`".
pub fn framed(before: &str, name: &str, after: &str) -> (s: String)
    ensures
        s@ == before@ + name@ + after@,
{
    let mut s = String::from_str(before);
    s.append(name);
    s.append(after);
    s
}

/// The text "`before` + the decimal notation of `n`".
pub fn numbered(before: &str, n: usize) -> (s: String)
    ensures
        s@ == before@ + decimal(n as nat),
{
    let mut s = String::from_str(before);
    push_decimal(&mut s, n as u64);
    s
}

impl SVDError {
    /// A failure of the given kind with an empty trail.
    pub fn new(kind: SVDErrorKind) -> (e: SVDError)
        ensures
            e@ == SVDErrorView::new(kind@),
    {
        let e = SVDError { kind, context: Vec::new() };
        assert(e.context.deep_view() =~= Seq::empty());
        e
    }

    /// Adds `note` at the outer end of the trail.
    pub fn within(self, note: String) -> (e: SVDError)
        ensures
            e@ == self@.within(note@),
    {
        let mut context = self.context;
        context.push(note);
        let e = SVDError { kind: self.kind, context };
        assert(e.context.deep_view() =~= self.context.deep_view().push(note@));
        e
    }
}

/// The view of an outcome: the view of the value, or of the failure.
pub open spec fn outcome<T: DeepView>(r: Result<T, SVDError>) -> Result<T::V, SVDErrorView> {
    match r {
        Ok(v) => Ok(v.deep_view()),
        Err(e) => Err(e@),
    }
}

} // verus!
