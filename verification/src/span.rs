//! Source spans, held as `rustc_span::Span`.
use vstd::prelude::*;
use rustc_span::{BytePos, Span};

verus! {

#[verifier::external_type_specification]
#[verifier::external_body]
pub struct ExSpan(rustc_span::Span);

/// The low byte position of a span, as `Span::lo` reads it.
pub uninterp spec fn span_lo(s: Span) -> u32;

/// The high byte position of a span, as `Span::hi` reads it.
pub uninterp spec fn span_hi(s: Span) -> u32;

/// The span that `Span::with_hi` returns.
pub uninterp spec fn span_with_hi(s: Span, hi: u32) -> Span;

/// The span that `Span::to` returns.
pub uninterp spec fn span_to(a: Span, b: Span) -> Span;

/// `s` is what `Span::new(a, b)` builds: it orders the two positions, and
/// keeps the length modulo 2^16 (its length field is 16 bits wide).
pub open spec fn built_from(s: Span, a: u32, b: u32) -> bool {
    let lo = if a <= b { a } else { b };
    let hi = if a <= b { b } else { a };
    &&& span_lo(s) == lo
    &&& span_hi(s) == lo + (hi - lo) % 0x1_0000
}

/// The least of two positions.
pub open spec fn min_pos(a: u32, b: u32) -> u32 {
    if a <= b { a } else { b }
}

/// The greatest of two positions.
pub open spec fn max_pos(a: u32, b: u32) -> u32 {
    if a <= b { b } else { a }
}

/// `Span::hi`: the high end of the span.
#[verifier::external_body]
pub fn hi(s: Span) -> (r: u32)
    ensures
        r == span_hi(s),
{
    s.hi().0
}

/// `Span::with_hi`: `Span::new` applied to the low end of `s` and `new_hi`.
/// A span is its low end and its length, so rebuilt at its own high end it
/// is itself.
#[verifier::external_body]
pub fn with_hi(s: Span, new_hi: u32) -> (r: Span)
    ensures
        r == span_with_hi(s, new_hi),
        built_from(r, span_lo(s), new_hi),
        new_hi == span_hi(s) ==> r == s,
{
    s.with_hi(BytePos(new_hi))
}

/// `Span::to`: `Span::new` applied to the least low end and the greatest
/// high end of the two spans.
#[verifier::external_body]
pub fn to(a: Span, b: Span) -> (r: Span)
    ensures
        r == span_to(a, b),
        built_from(r, min_pos(span_lo(a), span_lo(b)), max_pos(span_hi(a), span_hi(b))),
{
    a.to(b)
}

/// `DUMMY_SP`: the span whose ends are both zero.
#[verifier::external_body]
pub fn dummy() -> (r: Span)
    ensures
        span_lo(r) == 0,
        span_hi(r) == 0,
{
    rustc_span::DUMMY_SP
}

} // verus!
