//! A table of the named values of a field.

use crate::error::{numbered, outcome, SVDError, SVDErrorKind, SVDErrorKindView, SVDErrorView};
use crate::parse::{child_text_opt, collect, lemma_collect_failure, lemma_collect_step};
use crate::svd::enumeratedvalue::{spec_enumerated_value, EnumeratedValue, EnumeratedValueView};
use crate::svd::usage::{child_usage_opt, Usage};
use crate::text::{decimal, str_eq};
use crate::xml::{lemma_children_view, Node, NodeView};
use vstd::prelude::*;
use vstd::string::*;

verus! {

/// A table of the named values of a field.
#[derive(Debug, PartialEq, Eq)]
pub struct EnumeratedValues {
    pub name: Option<String>,
    pub usage: Option<Usage>,
    pub derived_from: Option<String>,
    pub values: Vec<EnumeratedValue>,
}

/// The mathematical model of [`EnumeratedValues`].
pub struct EnumeratedValuesView {
    pub name: Option<Seq<char>>,
    pub usage: Option<Usage>,
    pub derived_from: Option<Seq<char>>,
    pub values: Seq<EnumeratedValueView>,
}

impl DeepView for EnumeratedValues {
    type V = EnumeratedValuesView;

    open spec fn deep_view(&self) -> EnumeratedValuesView {
        EnumeratedValuesView {
            name: self.name.deep_view(),
            usage: self.usage,
            derived_from: self.derived_from.deep_view(),
            values: self.values.deep_view(),
        }
    }
}

impl View for EnumeratedValues {
    type V = EnumeratedValuesView;

    open spec fn view(&self) -> EnumeratedValuesView {
        self.deep_view()
    }
}

impl Clone for EnumeratedValues {
    fn clone(&self) -> (r: EnumeratedValues)
        ensures
            r@ == self@,
    {
        let r = EnumeratedValues {
            name: self.name.clone(),
            usage: self.usage,
            derived_from: self.derived_from.clone(),
            values: self.values.clone(),
        };
        assert(r.values.deep_view() =~= self.values.deep_view());
        r
    }
}

/// Whether a child of a table stands for a value: all do but the table's
/// own `name`, `headerEnumName` and `usage`.
pub open spec fn is_entry(c: NodeView) -> bool {
    c.name != "name"@ && c.name != "headerEnumName"@ && c.name != "usage"@
}

/// The value that the entry `c`, the `i`-th of its table, describes. A
/// failure inside it carries the entry's number in its trail.
pub open spec fn entry_value(c: NodeView, i: nat) -> Result<EnumeratedValueView, SVDErrorView> {
    if c.name == "enumeratedValue"@ {
        match spec_enumerated_value(c) {
            Ok(v) => Ok(v),
            Err(e) => Err(e.within("Parsing enumerated value #"@ + decimal(i))),
        }
    } else {
        Err(SVDErrorView::new(SVDErrorKindView::NotExpectedTag(c, "enumeratedValue"@)))
    }
}

/// The values of a table with the given children.
pub open spec fn table_entries(children: Seq<NodeView>) -> Result<
    Seq<EnumeratedValueView>,
    SVDErrorView,
> {
    collect(children, |c: NodeView| is_entry(c), |c: NodeView, i: nat| entry_value(c, i))
}

/// The table that an `enumeratedValues` node describes. A table may be
/// empty.
pub open spec fn spec_enumerated_values(n: NodeView) -> Result<EnumeratedValuesView, SVDErrorView> {
    if n.name != "enumeratedValues"@ {
        Err(SVDErrorView::new(SVDErrorKindView::NotExpectedTag(n, "enumeratedValues"@)))
    } else {
        match child_text_opt(n, "name"@) {
            Err(e) => Err(e),
            Ok(name) => match child_usage_opt(n) {
                Err(e) => Err(e),
                Ok(usage) => match table_entries(n.children) {
                    Err(e) => Err(e),
                    Ok(values) => Ok(
                        EnumeratedValuesView {
                            name,
                            usage,
                            derived_from: n.attribute("derivedFrom"@),
                            values,
                        },
                    ),
                },
            },
        }
    }
}

impl EnumeratedValues {
    /// Decodes the table that the `enumeratedValues` element `node` describes.
    pub fn parse(node: &Node) -> (r: Result<EnumeratedValues, SVDError>)
        ensures
            outcome(r) == spec_enumerated_values(node@),
    {
        if !str_eq(node.name.as_str(), "enumeratedValues") {
            return Err(
                SVDError::new(
                    SVDErrorKind::NotExpectedTag(node.clone(), String::from_str("enumeratedValues")),
                ),
            );
        }
        let derived_from = node.get_attribute("derivedFrom");
        let name = match node.get_child_text_opt("name") {
            Err(e) => { return Err(e); },
            Ok(v) => v,
        };
        let usage = match Usage::parse_child(node) {
            Err(e) => { return Err(e); },
            Ok(v) => v,
        };
        let values = match EnumeratedValues::parse_entries(node) {
            Err(e) => { return Err(e); },
            Ok(v) => v,
        };
        Ok(EnumeratedValues { name, usage, derived_from, values })
    }

    fn parse_entries(node: &Node) -> (r: Result<Vec<EnumeratedValue>, SVDError>)
        ensures
            outcome(r) == table_entries(node@.children),
    {
        let ghost pick = |c: NodeView| is_entry(c);
        let ghost step = |c: NodeView, i: nat| entry_value(c, i);
        let ghost all = node@.children;
        let mut values: Vec<EnumeratedValue> = Vec::new();
        let mut i: usize = 0;
        proof {
            lemma_children_view(*node);
            assert(values.deep_view() =~= Seq::empty());
        }
        while i < node.children.len()
            invariant
                i <= node.children.len(),
                all == node@.children,
                all == node.children.deep_view(),
                pick == |c: NodeView| is_entry(c),
                step == |c: NodeView, i: nat| entry_value(c, i),
                collect(all.take(i as int), pick, step) == Ok::<
                    Seq<EnumeratedValueView>,
                    SVDErrorView,
                >(values.deep_view()),
            decreases node.children.len() - i,
        {
            proof {
                lemma_collect_step(all, pick, step, i as int);
            }
            let c = &node.children[i];
            let tag = c.name.as_str();
            if !str_eq(tag, "name") && !str_eq(tag, "headerEnumName") && !str_eq(tag, "usage") {
                let ghost before = values.deep_view();
                let value = if str_eq(tag, "enumeratedValue") {
                    match EnumeratedValue::parse(c) {
                        Ok(v) => Ok(v),
                        Err(e) => Err(e.within(numbered("Parsing enumerated value #", values.len()))),
                    }
                } else {
                    Err(
                        SVDError::new(
                            SVDErrorKind::NotExpectedTag(
                                c.clone(),
                                String::from_str("enumeratedValue"),
                            ),
                        ),
                    )
                };
                match value {
                    Err(e) => {
                        proof {
                            lemma_collect_failure(all, pick, step, i + 1);
                        }
                        return Err(e);
                    },
                    Ok(v) => {
                        values.push(v);
                        assert(values.deep_view() =~= before.push(v.deep_view()));
                    },
                }
            }
            i += 1;
        }
        proof {
            assert(all.take(i as int) == all);
        }
        Ok(values)
    }
}

} // verus!
