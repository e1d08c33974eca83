//! Escaping string symbols for string literals.
use vstd::prelude::*;
use crate::symbol::{Interner, Symbol, SYMBOL_MAX};

verus! {

/// What `str::escape_default` writes for a string: each character as it
/// would be written inside a string literal.
pub uninterp spec fn str_escape_default(s: Seq<char>) -> Seq<char>;

/// `str::escape_default`, collected into a string.
#[verifier::external_body]
fn escape_default(s: &str) -> (r: String)
    ensures
        r@ == str_escape_default(s@),
{
    s.escape_default().to_string()
}

/// The escaped text of a symbol is in the interner, or there is room for
/// it.
pub open spec fn escape_fits(interner: Interner, symbol: Symbol) -> bool {
    ||| interner@.contains(str_escape_default(interner@[symbol.index() as int]))
    ||| interner@.len() <= SYMBOL_MAX
}

/// The symbol of the text of `symbol` escaped to stand in a string literal:
/// `symbol` itself where escaping leaves the text as it is.
pub fn escape_string_symbol(interner: &mut Interner, symbol: Symbol) -> (r: Symbol)
    requires
        old(interner).wf(),
        old(interner).has(symbol),
        escape_fits(*old(interner), symbol),
    ensures
        final(interner).wf(),
        final(interner).has(r),
        final(interner)@[r.index() as int] == str_escape_default(old(interner)@[symbol.index() as int]),
        old(interner)@.is_prefix_of(final(interner)@),
{
    let text = interner.as_str(symbol).to_owned();
    let escaped = escape_default(interner.as_str(symbol));
    if text == escaped {
        proof {
            assert(old(interner)@.is_prefix_of(interner@)) by {
                assert(interner@.subrange(0, interner@.len() as int) =~= interner@);
            }
        }
        symbol
    } else {
        let r = interner.intern(escaped.as_str());
        proof {
            assert(old(interner)@.is_prefix_of(interner@)) by {
                if !old(interner)@.contains(escaped@) {
                    assert(interner@.subrange(0, old(interner)@.len() as int) =~= old(interner)@);
                } else {
                    assert(interner@.subrange(0, interner@.len() as int) =~= interner@);
                }
            }
        }
        r
    }
}

} // verus!
