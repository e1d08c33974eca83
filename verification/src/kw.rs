//! The predefined keyword symbols.
use vstd::prelude::*;
use crate::symbol::{Symbol, KW_EMPTY, KW_FALSE, KW_PATH_ROOT, KW_TRUE, KW_UNDERSCORE};

verus! {

/// The empty symbol.
#[allow(non_snake_case)]
pub fn Empty() -> (s: Symbol)
    ensures
        s.index() == KW_EMPTY,
{
    Symbol { idx: KW_EMPTY }
}

/// `{{root}}`, the first segment of a path written `::a::b`.
#[allow(non_snake_case)]
pub fn PathRoot() -> (s: Symbol)
    ensures
        s.index() == KW_PATH_ROOT,
{
    Symbol { idx: KW_PATH_ROOT }
}

/// `_`
#[allow(non_snake_case)]
pub fn Underscore() -> (s: Symbol)
    ensures
        s.index() == KW_UNDERSCORE,
{
    Symbol { idx: KW_UNDERSCORE }
}

/// `true`
#[allow(non_snake_case)]
pub fn True() -> (s: Symbol)
    ensures
        s.index() == KW_TRUE,
{
    Symbol { idx: KW_TRUE }
}

/// `false`
#[allow(non_snake_case)]
pub fn False() -> (s: Symbol)
    ensures
        s.index() == KW_FALSE,
{
    Symbol { idx: KW_FALSE }
}

} // verus!
