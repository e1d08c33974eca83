//! The predefined symbols that attributes are named by.
use vstd::prelude::*;
use crate::symbol::{Symbol, SYM_DOC, SYM_PROC_MACRO, SYM_PROC_MACRO_ATTRIBUTE, SYM_PROC_MACRO_DERIVE};

verus! {

/// `doc`
pub fn doc() -> (s: Symbol)
    ensures
        s.index() == SYM_DOC,
{
    Symbol { idx: SYM_DOC }
}

/// `proc_macro`
pub fn proc_macro() -> (s: Symbol)
    ensures
        s.index() == SYM_PROC_MACRO,
{
    Symbol { idx: SYM_PROC_MACRO }
}

/// `proc_macro_attribute`
pub fn proc_macro_attribute() -> (s: Symbol)
    ensures
        s.index() == SYM_PROC_MACRO_ATTRIBUTE,
{
    Symbol { idx: SYM_PROC_MACRO_ATTRIBUTE }
}

/// `proc_macro_derive`
pub fn proc_macro_derive() -> (s: Symbol)
    ensures
        s.index() == SYM_PROC_MACRO_DERIVE,
{
    Symbol { idx: SYM_PROC_MACRO_DERIVE }
}

} // verus!
