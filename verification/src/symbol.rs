//! Interned strings (`Symbol`), their interner, and identifiers.
use vstd::prelude::*;
use vstd::std_specs::iter::IteratorSpec;
use rustc_span::Span;

verus! {

/// An interned string: an index into an [`Interner`]. Two symbols of one
/// interner are equal exactly when their indices are.
#[derive(Clone, Copy, PartialEq, Eq, Structural, Debug, Hash)]
pub struct Symbol {
    pub idx: u32,
}

/// The greatest index a symbol may have.
pub const SYMBOL_MAX: u32 = 0xFFFF_FF00;

/// The strings every interner starts with, in order: the special symbols,
/// the keywords that are reserved in every edition, those reserved from
/// the 2018 and 2024 editions on, and the symbols that attributes name.
pub open spec fn predefined() -> Seq<Seq<char>> {
    seq![
        ""@,
        "{{root}}"@,
        "$crate"@,
        "_"@,
        "as"@,
        "break"@,
        "const"@,
        "continue"@,
        "crate"@,
        "else"@,
        "enum"@,
        "extern"@,
        "false"@,
        "fn"@,
        "for"@,
        "if"@,
        "impl"@,
        "in"@,
        "let"@,
        "loop"@,
        "match"@,
        "mod"@,
        "move"@,
        "mut"@,
        "pub"@,
        "ref"@,
        "return"@,
        "self"@,
        "Self"@,
        "static"@,
        "struct"@,
        "super"@,
        "trait"@,
        "true"@,
        "type"@,
        "unsafe"@,
        "use"@,
        "where"@,
        "while"@,
        "abstract"@,
        "become"@,
        "box"@,
        "do"@,
        "final"@,
        "macro"@,
        "override"@,
        "priv"@,
        "typeof"@,
        "unsized"@,
        "virtual"@,
        "yield"@,
        "async"@,
        "await"@,
        "dyn"@,
        "try"@,
        "gen"@,
        "doc"@,
        "proc_macro"@,
        "proc_macro_attribute"@,
        "proc_macro_derive"@
    ]
}

/// The number of predefined symbols.
pub const PREDEFINED_LEN: u32 = 60;

impl Symbol {
    /// The index of the symbol.
    pub open spec fn index(self) -> nat {
        self.idx as nat
    }

    /// The symbol with index `n` (`Symbol::new`).
    pub fn new(n: u32) -> (s: Symbol)
        requires
            n <= SYMBOL_MAX,
        ensures
            s.index() == n,
    {
        Symbol { idx: n }
    }

    /// The index of the symbol, as a `u32`.
    pub fn as_u32(self) -> (n: u32)
        ensures
            n == self.index(),
    {
        self.idx
    }

    /// `true` or `false`.
    pub open spec fn spec_is_bool_lit(self) -> bool {
        self.index() == KW_TRUE || self.index() == KW_FALSE
    }

    /// Whether the symbol is `true` or `false`.
    pub fn is_bool_lit(self) -> (b: bool)
        ensures
            b == self.spec_is_bool_lit(),
    {
        self.idx == KW_TRUE || self.idx == KW_FALSE
    }

    /// Whether the symbol is reserved in `edition`: a special symbol, a
    /// keyword reserved in every edition, `async`, `await`, `dyn` or `try`
    /// from the 2018 edition on, or `gen` from the 2024 edition on.
    pub open spec fn spec_is_reserved(self, edition: Edition) -> bool {
        let i = self.index();
        ||| i <= KW_LAST_RESERVED_ALWAYS
        ||| (KW_ASYNC <= i <= KW_TRY && edition.spec_at_least_2018())
        ||| (i == KW_GEN && edition.spec_at_least_2024())
    }

    /// Whether the symbol may be written as a raw identifier: neither empty,
    /// `_`, nor a path segment keyword (`{{root}}`, `$crate`, `crate`, `self`,
    /// `Self`, `super`).
    pub open spec fn spec_can_be_raw(self) -> bool {
        let i = self.index();
        i != KW_EMPTY && i != KW_UNDERSCORE && i != KW_PATH_ROOT && i != KW_DOLLAR_CRATE
            && i != KW_CRATE && i != KW_SELF_LOWER && i != KW_SELF_UPPER && i != KW_SUPER
    }

    /// Whether the symbol may be written as a raw identifier.
    pub fn can_be_raw(self) -> (b: bool)
        ensures
            b == self.spec_can_be_raw(),
    {
        let i = self.idx;
        i != KW_EMPTY && i != KW_UNDERSCORE && i != KW_PATH_ROOT && i != KW_DOLLAR_CRATE
            && i != KW_CRATE && i != KW_SELF_LOWER && i != KW_SELF_UPPER && i != KW_SUPER
    }

    /// Whether the symbol is reserved in `edition`.
    pub fn is_reserved(self, edition: Edition) -> (b: bool)
        ensures
            b == self.spec_is_reserved(edition),
    {
        let i = self.idx;
        i <= KW_LAST_RESERVED_ALWAYS || (KW_ASYNC <= i && i <= KW_TRY && edition.at_least_2018())
            || (i == KW_GEN && edition.at_least_2024())
    }
}

pub const KW_EMPTY: u32 = 0;
pub const KW_PATH_ROOT: u32 = 1;
pub const KW_DOLLAR_CRATE: u32 = 2;
pub const KW_UNDERSCORE: u32 = 3;
pub const KW_CRATE: u32 = 8;
pub const KW_FALSE: u32 = 12;
pub const KW_SELF_LOWER: u32 = 27;
pub const KW_SELF_UPPER: u32 = 28;
pub const KW_SUPER: u32 = 31;
pub const KW_TRUE: u32 = 33;
pub const KW_LAST_RESERVED_ALWAYS: u32 = 50;
pub const KW_ASYNC: u32 = 51;
pub const KW_TRY: u32 = 54;
pub const KW_GEN: u32 = 55;
pub const SYM_DOC: u32 = 56;
pub const SYM_PROC_MACRO: u32 = 57;
pub const SYM_PROC_MACRO_ATTRIBUTE: u32 = 58;
pub const SYM_PROC_MACRO_DERIVE: u32 = 59;

/// An edition of the language, which decides which words are keywords.
#[derive(Clone, Copy, PartialEq, Eq, Structural, Debug)]
pub enum Edition {
    Edition2015,
    Edition2018,
    Edition2021,
    Edition2024,
}

impl Edition {
    pub open spec fn spec_at_least_2018(self) -> bool {
        !(self is Edition2015)
    }

    pub open spec fn spec_at_least_2024(self) -> bool {
        self is Edition2024
    }

    /// Whether the edition is 2018 or later.
    pub fn at_least_2018(self) -> (b: bool)
        ensures
            b == self.spec_at_least_2018(),
    {
        match self {
            Edition::Edition2015 => false,
            _ => true,
        }
    }

    /// Whether the edition is 2024 or later.
    pub fn at_least_2024(self) -> (b: bool)
        ensures
            b == self.spec_at_least_2024(),
    {
        match self {
            Edition::Edition2024 => true,
            _ => false,
        }
    }
}

/// A table of interned strings. Index `i` holds the text of the symbol with
/// index `i`; the table starts with [`predefined`], and each later string
/// occurs nowhere before its own index.
pub struct Interner {
    strings: Vec<String>,
}

impl View for Interner {
    type V = Seq<Seq<char>>;

    closed spec fn view(&self) -> Seq<Seq<char>> {
        self.strings@.map_values(|s: String| s@)
    }
}

/// Index `k` of `t` is the first place where its text occurs.
pub open spec fn first_occurrence(t: Seq<Seq<char>>, k: int) -> bool {
    forall|j: int| 0 <= j < k ==> t[j] != t[k]
}

/// The smallest index whose text is `s`, where `s` occurs in `t`.
pub open spec fn is_first_index_of(t: Seq<Seq<char>>, s: Seq<char>, k: int) -> bool {
    &&& 0 <= k < t.len()
    &&& t[k] == s
    &&& forall|j: int| 0 <= j < k ==> t[j] != s
}

impl Interner {
    /// The interner is well formed: it starts with the predefined strings,
    /// every later string occurs first at its own index, and every index
    /// fits a symbol.
    pub open spec fn wf(&self) -> bool {
        let t = self@;
        &&& predefined().len() <= t.len() <= SYMBOL_MAX + 1
        &&& forall|i: int| 0 <= i < predefined().len() ==> t[i] == predefined()[i]
        &&& forall|k: int| predefined().len() <= k < t.len() ==> first_occurrence(t, k)
    }

    /// Whether `s` is a symbol of this interner.
    pub open spec fn has(&self, s: Symbol) -> bool {
        s.index() < self@.len()
    }

    /// An interner that holds the predefined strings only.
    #[verifier::spinoff_prover]
    #[verifier::rlimit(40)]
    pub fn fresh() -> (r: Interner)
        ensures
            r.wf(),
            r@ == predefined(),
    {
        let mut r = Interner { strings: Vec::new() };
        assert(r@ =~= Seq::<Seq<char>>::empty());
        r.push_str("");
        r.push_str("{{root}}");
        r.push_str("$crate");
        r.push_str("_");
        r.push_str("as");
        r.push_str("break");
        r.push_str("const");
        r.push_str("continue");
        r.push_str("crate");
        r.push_str("else");
        r.push_str("enum");
        r.push_str("extern");
        r.push_str("false");
        r.push_str("fn");
        r.push_str("for");
        r.push_str("if");
        r.push_str("impl");
        r.push_str("in");
        r.push_str("let");
        r.push_str("loop");
        r.push_str("match");
        r.push_str("mod");
        r.push_str("move");
        r.push_str("mut");
        r.push_str("pub");
        r.push_str("ref");
        r.push_str("return");
        r.push_str("self");
        r.push_str("Self");
        r.push_str("static");
        r.push_str("struct");
        r.push_str("super");
        r.push_str("trait");
        r.push_str("true");
        r.push_str("type");
        r.push_str("unsafe");
        r.push_str("use");
        r.push_str("where");
        r.push_str("while");
        r.push_str("abstract");
        r.push_str("become");
        r.push_str("box");
        r.push_str("do");
        r.push_str("final");
        r.push_str("macro");
        r.push_str("override");
        r.push_str("priv");
        r.push_str("typeof");
        r.push_str("unsized");
        r.push_str("virtual");
        r.push_str("yield");
        r.push_str("async");
        r.push_str("await");
        r.push_str("dyn");
        r.push_str("try");
        r.push_str("gen");
        r.push_str("doc");
        r.push_str("proc_macro");
        r.push_str("proc_macro_attribute");
        r.push_str("proc_macro_derive");
        assert(r@ == predefined());
        r
    }

    /// Appends `s` to the table, as it stands.
    fn push_str(&mut self, s: &str)
        ensures
            final(self)@ == old(self)@.push(s@),
    {
        let ghost t0 = old(self)@;
        self.strings.push(String::from_str(s));
        assert(self@ =~= t0.push(s@));
    }

    /// The number of interned strings.
    pub fn len(&self) -> (n: usize)
        ensures
            n == self@.len(),
    {
        self.strings.len()
    }

    /// The symbol of `s`: the existing one where `s` was interned before, a
    /// new one at the end of the table otherwise.
    pub fn intern(&mut self, s: &str) -> (sym: Symbol)
        requires
            old(self).wf(),
            old(self)@.contains(s@) || old(self)@.len() <= SYMBOL_MAX,
        ensures
            final(self).wf(),
            is_first_index_of(final(self)@, s@, sym.index() as int),
            old(self)@.contains(s@) ==> final(self)@ == old(self)@,
            !old(self)@.contains(s@) ==> final(self)@ == old(self)@.push(s@),
    {
        let owned = s.to_owned();
        let n = self.strings.len();
        let mut i: usize = 0;
        while i < n
            invariant
                n == self.strings.len(),
                owned@ == s@,
                self.wf(),
                0 <= i <= n,
                forall|j: int| 0 <= j < i ==> self@[j] != s@,
            decreases n - i,
        {
            if self.strings[i] == owned {
                proof {
                    assert(self@[i as int] == s@);
                }
                return Symbol { idx: i as u32 };
            }
            i = i + 1;
        }
        proof {
            assert forall|j: int| 0 <= j < self@.len() implies self@[j] != s@ by {}
            assert(!self@.contains(s@));
        }
        let ghost t0 = self@;
        self.strings.push(owned);
        proof {
            assert(self@ =~= t0.push(s@));
            assert forall|k: int| predefined().len() <= k < self@.len() implies first_occurrence(self@, k) by {
                if k < t0.len() {
                    assert(first_occurrence(t0, k));
                }
            }
        }
        Symbol { idx: n as u32 }
    }

    /// The text of `sym` (`Symbol::as_str`).
    pub fn as_str(&self, sym: Symbol) -> (r: &str)
        requires
            self.has(sym),
        ensures
            r@ == self@[sym.index() as int],
    {
        self.strings[sym.idx as usize].as_str()
    }
}

/// Whether `s` holds the character `c` (`str::contains`).
pub fn str_contains_char(s: &str, c: char) -> (r: bool)
    ensures
        r == s@.contains(c),
{
    let mut it = s.chars();
    let ghost all = s@;
    let ghost mut seen: int = 0;
    broadcast use vstd::string::axiom_spec_iter, vstd::string::next_postcondition;
    assert(it.remaining() == s@);
    loop
        invariant
            all == s@,
            it.remaining() == all.skip(seen),
            0 <= seen <= all.len(),
            forall|j: int| 0 <= j < seen ==> all[j] != c,
        decreases all.len() - seen,
    {
        match it.next() {
            Some(x) => {
                assert(all[seen] == x);
                if x == c {
                    return true;
                }
                assert(all.skip(seen).drop_first() =~= all.skip(seen + 1));
                proof {
                    seen = seen + 1;
                }
            },
            None => {
                assert(seen == all.len());
                assert(!all.contains(c));
                return false;
            },
        }
    }
}

/// An identifier: a name and the span where it was written.
#[derive(Clone, Copy, Debug)]
pub struct Ident {
    pub name: Symbol,
    pub span: Span,
}

impl Ident {
    /// The identifier `name` at `span`.
    pub fn new(name: Symbol, span: Span) -> (r: Ident)
        ensures
            r.name == name,
            r.span == span,
    {
        Ident { name, span }
    }

    /// The empty identifier at the dummy span.
    pub fn empty() -> (r: Ident)
        ensures
            r.name.index() == KW_EMPTY,
            crate::span::span_lo(r.span) == 0,
            crate::span::span_hi(r.span) == 0,
    {
        Ident { name: Symbol { idx: KW_EMPTY }, span: crate::span::dummy() }
    }

    /// Whether the identifier would have to be written raw to be read as an
    /// identifier in `edition`, the edition of its span: a keyword reserved
    /// there that may be raw.
    pub open spec fn spec_is_raw_guess(self, edition: Edition) -> bool {
        self.name.spec_can_be_raw() && self.name.spec_is_reserved(edition)
    }

    /// `Ident::is_raw_guess`, in `edition`, the edition of the identifier's
    /// span (a `Span` here holds no edition).
    pub fn is_raw_guess(self, edition: Edition) -> (b: bool)
        ensures
            b == self.spec_is_raw_guess(edition),
    {
        self.name.can_be_raw() && self.name.is_reserved(edition)
    }
}

} // verus!
