//! Tokens and token streams: what attribute arguments are written in.
use vstd::prelude::*;
use rustc_span::Span;
use crate::ast::{AttrArgs, AttrArgsEq, AttrItem, AttrStyle, CommentKind, DelimArgs, Expr, LitKind, Path};
use crate::symbol::{Edition, Ident, Symbol};

verus! {

/// The delimiters of a delimited group of tokens.
#[derive(Clone, Copy, PartialEq, Eq, Structural, Debug)]
pub enum Delimiter {
    /// `( ... )`
    Parenthesis,
    /// `{ ... }`
    Brace,
    /// `[ ... ]`
    Bracket,
    /// Delimiters that do not appear in the source, around the tokens of a
    /// macro variable.
    Invisible,
}

/// Whether an identifier was written raw (`r#ident`).
#[derive(Clone, Copy, PartialEq, Eq, Structural, Debug)]
pub enum IdentIsRaw {
    No,
    Yes,
}

/// The kind of a literal token.
#[derive(Clone, Copy, PartialEq, Eq, Structural, Debug)]
pub enum TokenLitKind {
    Bool,
    Byte,
    Char,
    Integer,
    Float,
    Str,
    StrRaw(u8),
    ByteStr,
    ByteStrRaw(u8),
    CStr,
    CStrRaw(u8),
    Error,
}

/// A literal token: its kind, its text, its suffix, and the value that the
/// text denotes (`None` where the text is not a well-formed literal).
#[derive(Clone, Copy, Debug)]
pub struct TokenLit {
    pub kind: TokenLitKind,
    pub symbol: Symbol,
    pub suffix: Option<Symbol>,
    pub value: Option<LitKind>,
}

/// The syntax fragment that a macro variable stands for.
#[derive(Debug)]
pub enum Nonterminal {
    /// The inside of an attribute (`$m:meta`).
    NtMeta(Box<AttrItem>),
    /// A path (`$p:path`).
    NtPath(Box<Path>),
    /// An expression (`$e:expr`).
    NtExpr(Box<Expr>),
    /// A literal (`$l:literal`).
    NtLiteral(Box<Expr>),
    /// Any other fragment (an item, a block, a type, a pattern, ...).
    Other,
}

/// The kinds of tokens. Delimiters are not tokens here: a delimited group
/// is a [`TokenTree::Delimited`].
#[derive(Debug)]
pub enum TokenKind {
    Eq,
    Lt,
    Gt,
    Not,
    Dot,
    Comma,
    Semi,
    Colon,
    /// `::`
    PathSep,
    Pound,
    Dollar,
    Question,
    Ident(Symbol, IdentIsRaw),
    /// An identifier passed through a macro variable.
    NtIdent(Ident, IdentIsRaw),
    Lifetime(Symbol),
    /// A lifetime passed through a macro variable.
    NtLifetime(Ident),
    Literal(TokenLit),
    /// A syntax fragment passed through a macro variable.
    Interpolated(Box<Nonterminal>),
    DocComment(CommentKind, AttrStyle, Symbol),
    Eof,
}

/// A token and its span.
#[derive(Debug)]
pub struct Token {
    pub kind: TokenKind,
    pub span: Span,
}

/// Whether a token is followed immediately by the next one.
#[derive(Clone, Copy, PartialEq, Eq, Structural, Debug)]
pub enum Spacing {
    Alone,
    Joint,
    JointHidden,
}

/// The spans of the opening and the closing delimiter of a group.
#[derive(Clone, Copy, Debug)]
pub struct DelimSpan {
    pub open: Span,
    pub close: Span,
}

/// A token, or a delimited group of token trees.
#[derive(Debug)]
pub enum TokenTree {
    Token(Token, Spacing),
    Delimited(DelimSpan, Delimiter, TokenStream),
}

/// A sequence of token trees.
#[derive(Debug)]
pub struct TokenStream {
    pub trees: Vec<TokenTree>,
}

/// The tokens that an attribute was written with, kept to be handed on
/// unchanged.
#[derive(Debug)]
pub struct LazyAttrTokenStream {
    pub stream: TokenStream,
}

/// The token with the macro variable taken away: an interpolated identifier
/// or lifetime becomes a plain one, at the span of the identifier.
pub open spec fn spec_uninterpolate(t: Token) -> Token {
    match t.kind {
        TokenKind::NtIdent(ident, raw) => Token { kind: TokenKind::Ident(ident.name, raw), span: ident.span },
        TokenKind::NtLifetime(ident) => Token { kind: TokenKind::Lifetime(ident.name), span: ident.span },
        _ => t,
    }
}

/// Whether an identifier token for `ident` is written raw: where it would
/// otherwise be read as a keyword.
pub open spec fn raw_guess_flag(ident: Ident, edition: Edition) -> IdentIsRaw {
    if ident.spec_is_raw_guess(edition) {
        IdentIsRaw::Yes
    } else {
        IdentIsRaw::No
    }
}

impl Token {
    /// The token of kind `kind` at `span`.
    pub fn new(kind: TokenKind, span: Span) -> (r: Token)
        ensures
            r == (Token { kind, span }),
    {
        Token { kind, span }
    }

    /// The identifier token for `ident`, raw where `ident` is a keyword
    /// that may be written raw in `edition`, the edition of its span
    /// (`Token::from_ast_ident`).
    pub fn from_ast_ident(ident: Ident, edition: Edition) -> (r: Token)
        ensures
            r == (Token { kind: TokenKind::Ident(ident.name, raw_guess_flag(ident, edition)), span: ident.span }),
    {
        let raw = if ident.is_raw_guess(edition) {
            IdentIsRaw::Yes
        } else {
            IdentIsRaw::No
        };
        Token::new(TokenKind::Ident(ident.name, raw), ident.span)
    }
}

impl TokenTree {
    /// The token of kind `kind` at `span`, not joined to the next one.
    pub fn token_alone(kind: TokenKind, span: Span) -> (r: TokenTree)
        ensures
            r == TokenTree::Token(Token { kind, span }, Spacing::Alone),
    {
        TokenTree::Token(Token::new(kind, span), Spacing::Alone)
    }
}

impl DelimSpan {
    /// Both delimiters at `sp`.
    pub fn from_single(sp: Span) -> (r: DelimSpan)
        ensures
            r == (DelimSpan { open: sp, close: sp }),
    {
        DelimSpan { open: sp, close: sp }
    }

    /// The span from the opening to the closing delimiter.
    pub fn entire(self) -> (r: Span)
        ensures
            r == crate::span::span_with_hi(self.open, crate::span::span_hi(self.close)),
    {
        crate::span::with_hi(self.open, crate::span::hi(self.close))
    }
}

impl TokenStream {
    /// The stream of `trees`.
    pub fn new(trees: Vec<TokenTree>) -> (r: TokenStream)
        ensures
            r.trees == trees,
    {
        TokenStream { trees }
    }
}

/// Two sequences of token trees are the same tree by tree.
pub open spec fn same_trees(a: Seq<TokenTree>, b: Seq<TokenTree>) -> bool
    decreases a,
{
    &&& a.len() == b.len()
    &&& forall|i: int| 0 <= i < a.len() ==> same_tree(#[trigger] a[i], b[i])
}

/// Two token trees are the same: the same tokens, the same groups.
pub open spec fn same_tree(a: TokenTree, b: TokenTree) -> bool
    decreases a,
{
    match (a, b) {
        (TokenTree::Token(t1, s1), TokenTree::Token(t2, s2)) => s1 == s2 && same_token(t1, t2),
        (TokenTree::Delimited(d1, l1, st1), TokenTree::Delimited(d2, l2, st2)) => {
            d1 == d2 && l1 == l2 && same_trees(st1.trees@, st2.trees@)
        },
        _ => false,
    }
}

/// Two tokens are the same.
pub open spec fn same_token(a: Token, b: Token) -> bool
    decreases a,
{
    a.span == b.span && same_kind(a.kind, b.kind)
}

/// Two token kinds are the same; interpolated fragments are compared by
/// what they hold.
pub open spec fn same_kind(a: TokenKind, b: TokenKind) -> bool
    decreases a,
{
    match (a, b) {
        (TokenKind::Interpolated(x), TokenKind::Interpolated(y)) => same_nonterminal(*x, *y),
        (TokenKind::Interpolated(_), _) => false,
        (_, TokenKind::Interpolated(_)) => false,
        _ => a == b,
    }
}

/// Two syntax fragments are the same.
pub open spec fn same_nonterminal(a: Nonterminal, b: Nonterminal) -> bool
    decreases a,
{
    match (a, b) {
        (Nonterminal::NtMeta(x), Nonterminal::NtMeta(y)) => same_attr_item(*x, *y),
        (Nonterminal::NtPath(p), Nonterminal::NtPath(q)) => p@ == q@,
        (Nonterminal::NtExpr(e), Nonterminal::NtExpr(f)) => e == f,
        (Nonterminal::NtLiteral(e), Nonterminal::NtLiteral(f)) => e == f,
        (Nonterminal::Other, Nonterminal::Other) => true,
        _ => false,
    }
}

/// Two attribute items are the same.
pub open spec fn same_attr_item(a: AttrItem, b: AttrItem) -> bool
    decreases a,
{
    a.unsafety == b.unsafety && a.path@ == b.path@ && same_attr_args(a.args, b.args)
}

/// Two attribute arguments are the same.
pub open spec fn same_attr_args(a: AttrArgs, b: AttrArgs) -> bool
    decreases a,
{
    match (a, b) {
        (AttrArgs::Empty, AttrArgs::Empty) => true,
        (AttrArgs::Delimited(d1), AttrArgs::Delimited(d2)) => {
            d1.dspan == d2.dspan && d1.delim == d2.delim && same_trees(d1.tokens.trees@, d2.tokens.trees@)
        },
        (AttrArgs::Eq(s1, e1), AttrArgs::Eq(s2, e2)) => s1 == s2 && e1 == e2,
        _ => false,
    }
}

impl TokenStream {
    /// A copy of the stream, tree by tree.
    pub fn deep_clone(&self) -> (r: TokenStream)
        ensures
            same_trees(self.trees@, r.trees@),
        decreases *self,
    {
        let mut trees: Vec<TokenTree> = Vec::new();
        let mut i: usize = 0;
        while i < self.trees.len()
            invariant
                i <= self.trees@.len(),
                trees@.len() == i,
                forall|j: int| 0 <= j < i ==> same_tree(#[trigger] self.trees@[j], trees@[j]),
            decreases self.trees@.len() - i,
        {
            proof {
                assert(decreases_to!(*self => self.trees@[i as int]));
            }
            trees.push(self.trees[i].deep_clone());
            i = i + 1;
        }
        TokenStream { trees }
    }
}

impl TokenTree {
    /// A copy of the tree.
    pub fn deep_clone(&self) -> (r: TokenTree)
        ensures
            same_tree(*self, r),
        decreases *self,
    {
        match self {
            TokenTree::Token(t, spacing) => TokenTree::Token(t.deep_clone(), *spacing),
            TokenTree::Delimited(ds, delim, stream) => TokenTree::Delimited(*ds, *delim, stream.deep_clone()),
        }
    }
}

impl Token {
    /// A copy of the token.
    pub fn deep_clone(&self) -> (r: Token)
        ensures
            same_token(*self, r),
        decreases *self,
    {
        Token { kind: self.kind.deep_clone(), span: self.span }
    }
}

impl TokenKind {
    /// A copy of the token kind.
    pub fn deep_clone(&self) -> (r: TokenKind)
        ensures
            same_kind(*self, r),
        decreases *self,
    {
        match self {
            TokenKind::Eq => TokenKind::Eq,
            TokenKind::Lt => TokenKind::Lt,
            TokenKind::Gt => TokenKind::Gt,
            TokenKind::Not => TokenKind::Not,
            TokenKind::Dot => TokenKind::Dot,
            TokenKind::Comma => TokenKind::Comma,
            TokenKind::Semi => TokenKind::Semi,
            TokenKind::Colon => TokenKind::Colon,
            TokenKind::PathSep => TokenKind::PathSep,
            TokenKind::Pound => TokenKind::Pound,
            TokenKind::Dollar => TokenKind::Dollar,
            TokenKind::Question => TokenKind::Question,
            TokenKind::Ident(name, raw) => TokenKind::Ident(*name, *raw),
            TokenKind::NtIdent(ident, raw) => TokenKind::NtIdent(*ident, *raw),
            TokenKind::Lifetime(name) => TokenKind::Lifetime(*name),
            TokenKind::NtLifetime(ident) => TokenKind::NtLifetime(*ident),
            TokenKind::Literal(l) => TokenKind::Literal(*l),
            TokenKind::Interpolated(nt) => TokenKind::Interpolated(Box::new((**nt).deep_clone())),
            TokenKind::DocComment(kind, style, data) => TokenKind::DocComment(*kind, *style, *data),
            TokenKind::Eof => TokenKind::Eof,
        }
    }
}

impl Nonterminal {
    /// A copy of the fragment.
    pub fn deep_clone(&self) -> (r: Nonterminal)
        ensures
            same_nonterminal(*self, r),
        decreases *self,
    {
        match self {
            Nonterminal::NtMeta(item) => Nonterminal::NtMeta(Box::new((**item).deep_clone())),
            Nonterminal::NtPath(p) => Nonterminal::NtPath(Box::new(p.clone_path())),
            Nonterminal::NtExpr(e) => Nonterminal::NtExpr(Box::new(**e)),
            Nonterminal::NtLiteral(e) => Nonterminal::NtLiteral(Box::new(**e)),
            Nonterminal::Other => Nonterminal::Other,
        }
    }
}

impl AttrItem {
    /// A copy of the attribute item.
    pub fn deep_clone(&self) -> (r: AttrItem)
        ensures
            same_attr_item(*self, r),
        decreases *self,
    {
        AttrItem { unsafety: self.unsafety, path: self.path.clone_path(), args: self.args.deep_clone() }
    }
}

impl AttrArgs {
    /// A copy of the arguments.
    pub fn deep_clone(&self) -> (r: AttrArgs)
        ensures
            same_attr_args(*self, r),
        decreases *self,
    {
        match self {
            AttrArgs::Empty => AttrArgs::Empty,
            AttrArgs::Delimited(d) => AttrArgs::Delimited(
                DelimArgs { dspan: d.dspan, delim: d.delim, tokens: d.tokens.deep_clone() },
            ),
            AttrArgs::Eq(span, e) => AttrArgs::Eq(*span, match e {
                AttrArgsEq::Ast(expr) => AttrArgsEq::Ast(Box::new(**expr)),
                AttrArgsEq::Hir(lit) => AttrArgsEq::Hir(*lit),
            }),
        }
    }
}

} // verus!
