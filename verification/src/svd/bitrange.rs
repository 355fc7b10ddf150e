//! The bits of a register that a field occupies.

use crate::error::{
    outcome, InvalidBitRange, SVDError, SVDErrorKind, SVDErrorKindView, SVDErrorView,
};
use crate::parse::{get_text, number_of, parse_u32, text_of};
use crate::text::{chars_of, find_char, first_index, parse_radix, radix_u32};
use crate::xml::{Node, NodeView};
use vstd::prelude::*;
use vstd::string::*;

verus! {

/// The notation in which the document gave a bit range.
#[derive(Clone, Copy, Debug, PartialEq, Eq)]
pub enum BitRangeType {
    BitRange,
    OffsetWidth,
    MsbLsb,
}

/// The bits from `offset` upwards, `width` of them.
#[derive(Clone, Copy, Debug, PartialEq, Eq)]
pub struct BitRange {
    pub offset: u32,
    pub width: u32,
    pub range_type: BitRangeType,
}

impl DeepView for BitRange {
    type V = BitRange;

    open spec fn deep_view(&self) -> BitRange {
        *self
    }
}

impl View for BitRange {
    type V = BitRange;

    open spec fn view(&self) -> BitRange {
        *self
    }
}

/// The range from bit `lsb` up to and including bit `msb`, where that is a
/// range whose width fits in 32 bits.
pub open spec fn span(msb: u32, lsb: u32, range_type: BitRangeType) -> Option<BitRange> {
    if lsb <= msb && msb - lsb + 1 <= u32::MAX {
        Some(BitRange { offset: lsb, width: (msb - lsb + 1) as u32, range_type })
    } else {
        None
    }
}

/// The two numbers of the notation `[msb:lsb]`. A text without the brackets
/// is a syntax fault, and so is one without the colon after a number; a
/// part that is no decimal number is a parse fault.
pub open spec fn bracket_pair(t: Seq<char>) -> Result<(u32, u32), InvalidBitRange> {
    if t.len() < 2 || t[0] != '[' || t.last() != ']' {
        Err(InvalidBitRange::Syntax)
    } else {
        let inner = t.subrange(1, t.len() - 1);
        let k = first_index(inner, ':');
        match radix_u32(inner.take(k), 10) {
            None => Err(InvalidBitRange::ParseError),
            Some(msb) => if k >= inner.len() {
                Err(InvalidBitRange::Syntax)
            } else {
                match radix_u32(inner.skip(k + 1), 10) {
                    None => Err(InvalidBitRange::ParseError),
                    Some(lsb) => Ok((msb, lsb)),
                }
            },
        }
    }
}

/// The bit range of a field node. A child `bitRange` holds `[msb:lsb]`;
/// failing that, children `lsb` and `msb` hold the two ends; failing that,
/// children `bitOffset` and `bitWidth` hold the range as it is stored.
pub open spec fn spec_bit_range(n: NodeView) -> Result<BitRange, SVDErrorView> {
    let fault = |why: InvalidBitRange| SVDErrorView::new(SVDErrorKindView::InvalidBitRange(n, why));
    if let Some(range) = n.child("bitRange"@) {
        match text_of(range) {
            Err(e) => Err(e),
            Ok(t) => match bracket_pair(t) {
                Err(why) => Err(fault(why)),
                Ok((msb, lsb)) => match span(msb, lsb, BitRangeType::BitRange) {
                    Some(r) => Ok(r),
                    None => Err(fault(InvalidBitRange::MsbLsb)),
                },
            },
        }
    } else if n.child("lsb"@) is Some && n.child("msb"@) is Some {
        match number_of(n.child("msb"@)->0) {
            Err(e) => Err(e),
            Ok(msb) => match number_of(n.child("lsb"@)->0) {
                Err(e) => Err(e),
                Ok(lsb) => match span(msb, lsb, BitRangeType::MsbLsb) {
                    Some(r) => Ok(r),
                    None => Err(fault(InvalidBitRange::MsbLsb)),
                },
            },
        }
    } else {
        match n.child("bitOffset"@) {
            None => Err(fault(InvalidBitRange::Syntax)),
            Some(o) => match number_of(o) {
                Err(e) => Err(e),
                Ok(offset) => match n.child("bitWidth"@) {
                    None => Err(fault(InvalidBitRange::Syntax)),
                    Some(w) => match number_of(w) {
                        Err(e) => Err(e),
                        Ok(width) => Ok(
                            BitRange { offset, width, range_type: BitRangeType::OffsetWidth },
                        ),
                    },
                },
            },
        }
    }
}

fn make_span(msb: u32, lsb: u32, range_type: BitRangeType) -> (r: Option<BitRange>)
    ensures
        r == span(msb, lsb, range_type),
{
    if lsb <= msb && !(msb == u32::MAX && lsb == 0) {
        Some(BitRange { offset: lsb, width: msb - lsb + 1, range_type })
    } else {
        None
    }
}

/// Reads the two numbers of the notation `[msb:lsb]`.
pub fn read_bracket_pair(text: &str) -> (r: Result<(u32, u32), InvalidBitRange>)
    ensures
        r == bracket_pair(text@),
{
    let chars = chars_of(text);
    let n = chars.len();
    if n < 2 || chars[0] != '[' || chars[n - 1] != ']' {
        return Err(InvalidBitRange::Syntax);
    }
    let ghost inner = chars@.subrange(1, n - 1);
    let k = find_char(&chars, 1, n - 1, ':');
    proof {
        assert(inner.take(k - 1) == chars@.subrange(1, k as int));
    }
    let msb = match parse_radix(&chars, 1, k, 10) {
        None => { return Err(InvalidBitRange::ParseError); },
        Some(v) => v,
    };
    if k >= n - 1 {
        return Err(InvalidBitRange::Syntax);
    }
    proof {
        assert(inner.skip(k - 1 + 1) == chars@.subrange(k + 1, n - 1));
    }
    match parse_radix(&chars, k + 1, n - 1, 10) {
        None => Err(InvalidBitRange::ParseError),
        Some(lsb) => Ok((msb, lsb)),
    }
}

impl BitRange {
    /// Decodes the bit range of the field element `node`, in whichever of the
    /// three notations it is given.
    pub fn parse(node: &Node) -> (r: Result<BitRange, SVDError>)
        ensures
            outcome(r) == spec_bit_range(node@),
    {
        if let Some(range) = node.get_child("bitRange") {
            let text = match get_text(range) {
                Err(e) => { return Err(e); },
                Ok(t) => t,
            };
            match read_bracket_pair(text.as_str()) {
                Err(why) => Err(SVDError::new(SVDErrorKind::InvalidBitRange(node.clone(), why))),
                Ok((msb, lsb)) => match make_span(msb, lsb, BitRangeType::BitRange) {
                    Some(r) => Ok(r),
                    None => Err(
                        SVDError::new(
                            SVDErrorKind::InvalidBitRange(node.clone(), InvalidBitRange::MsbLsb),
                        ),
                    ),
                },
            }
        } else {
            let low = node.get_child("lsb");
            let high = node.get_child("msb");
            match (low, high) {
                (Some(l), Some(h)) => {
                    let msb = match parse_u32(h) {
                        Err(e) => { return Err(e); },
                        Ok(v) => v,
                    };
                    let lsb = match parse_u32(l) {
                        Err(e) => { return Err(e); },
                        Ok(v) => v,
                    };
                    match make_span(msb, lsb, BitRangeType::MsbLsb) {
                        Some(r) => Ok(r),
                        None => Err(
                            SVDError::new(
                                SVDErrorKind::InvalidBitRange(
                                    node.clone(),
                                    InvalidBitRange::MsbLsb,
                                ),
                            ),
                        ),
                    }
                },
                _ => {
                    let offset = match node.get_child("bitOffset") {
                        None => {
                            return Err(
                                SVDError::new(
                                    SVDErrorKind::InvalidBitRange(
                                        node.clone(),
                                        InvalidBitRange::Syntax,
                                    ),
                                ),
                            );
                        },
                        Some(o) => match parse_u32(o) {
                            Err(e) => { return Err(e); },
                            Ok(v) => v,
                        },
                    };
                    let width = match node.get_child("bitWidth") {
                        None => {
                            return Err(
                                SVDError::new(
                                    SVDErrorKind::InvalidBitRange(
                                        node.clone(),
                                        InvalidBitRange::Syntax,
                                    ),
                                ),
                            );
                        },
                        Some(w) => match parse_u32(w) {
                            Err(e) => { return Err(e); },
                            Ok(v) => v,
                        },
                    };
                    Ok(BitRange { offset, width, range_type: BitRangeType::OffsetWidth })
                },
            }
        }
    }
}

} // verus!
