//! Reading meta items from token trees: the specification of the reader
//! and the reader itself.
use vstd::prelude::*;
use rustc_span::Span;
use thin_vec::ThinVec;
use crate::ast::{
    AttrArgs, AttrArgsEq, AttrItem, ExprKind, LitKind, MetaItem, MetaItemInner, MetaItemKind,
    MetaItemLit, Path, PathSegment, SMetaItem, SMetaItemInner, SMetaItemKind, SPath, Safety,
};
use crate::lists::{meta_list_items, segments_new, segments_of, segments_push, MetaItemList};
use crate::span::{span_hi, span_with_hi};
use crate::symbol::{Ident, Symbol, KW_TRUE};
use crate::token::{
    spec_uninterpolate, Delimiter, IdentIsRaw, Nonterminal, Token, TokenKind, TokenLit, TokenLitKind,
    TokenStream, TokenTree,
};

verus! {

/// The literal token that `t` stands for (`token::Lit::from_token`): a
/// literal, `true` or `false` written plainly, or a literal expression
/// passed through a macro variable.
pub open spec fn spec_token_lit(t: Token) -> Option<TokenLit> {
    let u = spec_uninterpolate(t);
    match u.kind {
        TokenKind::Ident(name, IdentIsRaw::No) => {
            if name.spec_is_bool_lit() {
                Some(bool_token_lit(name))
            } else {
                None
            }
        },
        TokenKind::Literal(l) => Some(l),
        TokenKind::Interpolated(nt) => match *nt {
            Nonterminal::NtExpr(e) => match e.kind {
                ExprKind::Lit(l) => Some(l),
                ExprKind::Other => None,
            },
            Nonterminal::NtLiteral(e) => match e.kind {
                ExprKind::Lit(l) => Some(l),
                ExprKind::Other => None,
            },
            _ => None,
        },
        _ => None,
    }
}

/// The literal token of the boolean `name` (`true` or `false`).
pub open spec fn bool_token_lit(name: Symbol) -> TokenLit {
    TokenLit {
        kind: TokenLitKind::Bool,
        symbol: name,
        suffix: None,
        value: Some(LitKind::Bool(name.index() == KW_TRUE)),
    }
}

/// The meta item literal of a literal token at `span`
/// (`MetaItemLit::from_token_lit`): none where the token is malformed.
pub open spec fn spec_meta_lit_from_token_lit(l: TokenLit, span: Span) -> Option<MetaItemLit> {
    match l.value {
        Some(kind) => Some(MetaItemLit { symbol: l.symbol, suffix: l.suffix, kind, span }),
        None => None,
    }
}

/// The meta item literal that a token stands for
/// (`MetaItemLit::from_token`).
pub open spec fn spec_meta_lit_from_token(t: Token) -> Option<MetaItemLit> {
    match spec_token_lit(t) {
        Some(l) => spec_meta_lit_from_token_lit(l, t.span),
        None => None,
    }
}

/// The span of a token tree: that of the token, or from the opening to
/// the closing delimiter (`DelimSpan::entire`).
pub open spec fn spec_tree_span(tt: TokenTree) -> Span {
    match tt {
        TokenTree::Token(t, _) => t.span,
        TokenTree::Delimited(ds, _, _) => span_with_hi(ds.open, span_hi(ds.close)),
    }
}

/// The tree is the token `,`.
pub open spec fn is_comma(tt: TokenTree) -> bool {
    tt matches TokenTree::Token(Token { kind: TokenKind::Comma, .. }, _)
}

/// The tree is the token `::`.
pub open spec fn is_path_sep(tt: TokenTree) -> bool {
    tt matches TokenTree::Token(Token { kind: TokenKind::PathSep, .. }, _)
}

/// The tree is the token `=`.
pub open spec fn is_eq(tt: TokenTree) -> bool {
    tt matches TokenTree::Token(Token { kind: TokenKind::Eq, .. }, _)
}

/// The identifier that a token tree is, with macro variables taken away.
pub open spec fn spec_tree_ident(tt: TokenTree) -> Option<Ident> {
    match tt {
        TokenTree::Token(t, _) => {
            let u = spec_uninterpolate(t);
            match u.kind {
                TokenKind::Ident(name, _) => Some(Ident { name, span: u.span }),
                _ => None,
            }
        },
        _ => None,
    }
}

/// The segments of a path read on from position `k`, after `segs`: an
/// identifier, then as long as `::` follows, `::` and another identifier.
/// Gives the segments and the position after the last identifier.
pub open spec fn spec_path_segments(ts: Seq<TokenTree>, k: int, segs: Seq<PathSegment>) -> Option<(Seq<PathSegment>, int)>
    decreases ts.len() - k,
{
    if !(0 <= k < ts.len()) {
        None
    } else {
        match spec_tree_ident(ts[k]) {
            None => None,
            Some(ident) => {
                let segs2 = segs.push(PathSegment { ident, args: None });
                if k + 1 < ts.len() && is_path_sep(ts[k + 1]) {
                    spec_path_segments(ts, k + 2, segs2)
                } else {
                    Some((segs2, k + 1))
                }
            },
        }
    }
}

/// The meta item list that the trees `ts[i..]` hold: items separated by
/// commas, with a comma after the last allowed
/// (`MetaItemKind::list_from_tokens`).
pub open spec fn spec_list(ts: Seq<TokenTree>, i: int) -> Option<Seq<SMetaItemInner>>
    decreases ts, ts.len() - i, 6int,
{
    if !(0 <= i <= ts.len()) {
        None
    } else if i == ts.len() {
        Some(Seq::empty())
    } else {
        match spec_inner(ts, i) {
            None => None,
            Some((item, j)) => {
                if !(i < j <= ts.len()) {
                    None
                } else if j == ts.len() {
                    Some(seq![item])
                } else if is_comma(ts[j]) {
                    match spec_list(ts, j + 1) {
                        Some(rest) => Some(seq![item] + rest),
                        None => None,
                    }
                } else {
                    None
                }
            },
        }
    }
}

/// The list item at position `i`, and the position after it
/// (`MetaItemInner::from_tokens`): a literal, the first item inside
/// invisible delimiters, or a meta item.
pub open spec fn spec_inner(ts: Seq<TokenTree>, i: int) -> Option<(SMetaItemInner, int)>
    decreases ts, ts.len() - i, 5int,
{
    if !(0 <= i <= ts.len()) {
        None
    } else if i < ts.len() && ts[i] is Token && spec_meta_lit_from_token(ts[i]->Token_0) is Some {
        Some((SMetaItemInner::Lit(spec_meta_lit_from_token(ts[i]->Token_0).unwrap()), i + 1))
    } else if i < ts.len() && ts[i] is Delimited && ts[i]->Delimited_1 == Delimiter::Invisible {
        match spec_inner(ts[i]->Delimited_2.trees@, 0) {
            Some((item, _)) => Some((item, i + 1)),
            None => None,
        }
    } else {
        match spec_meta_item(ts, i) {
            Some((m, j)) => Some((SMetaItemInner::MetaItem(m), j)),
            None => None,
        }
    }
}

/// The meta item at position `i`, and the position after it
/// (`MetaItem::from_tokens`): a path, then what `spec_kind` reads after
/// it; or the meta item or path that a macro variable stands for.
pub open spec fn spec_meta_item(ts: Seq<TokenTree>, i: int) -> Option<(SMetaItem, int)>
    decreases ts, ts.len() - i, 4int,
{
    if !(0 <= i < ts.len()) {
        None
    } else {
        match ts[i] {
            TokenTree::Delimited(..) => None,
            TokenTree::Token(tok, _) => {
                let u = spec_uninterpolate(tok);
                match u.kind {
                    TokenKind::Ident(name, _) => {
                        let ident = Ident { name, span: u.span };
                        if i + 1 < ts.len() && is_path_sep(ts[i + 1]) {
                            match spec_path_segments(ts, i + 2, seq![PathSegment { ident, args: None }]) {
                                Some((segs, k)) => {
                                    if i < k <= ts.len() && segs.len() > 0 {
                                        let span = span_with_hi(u.span, span_hi(segs.last().ident.span));
                                        spec_finish(ts, SPath { span, segments: segs }, k)
                                    } else {
                                        None
                                    }
                                },
                                None => None,
                            }
                        } else {
                            spec_finish(ts, SPath::from_ident(ident), i + 1)
                        }
                    },
                    TokenKind::PathSep => {
                        let root = PathSegment {
                            ident: Ident { name: Symbol { idx: crate::symbol::KW_PATH_ROOT }, span: u.span },
                            args: None,
                        };
                        match spec_path_segments(ts, i + 1, seq![root]) {
                            Some((segs, k)) => {
                                if i < k <= ts.len() && segs.len() > 0 {
                                    let span = span_with_hi(u.span, span_hi(segs.last().ident.span));
                                    spec_finish(ts, SPath { span, segments: segs }, k)
                                } else {
                                    None
                                }
                            },
                            None => None,
                        }
                    },
                    TokenKind::Interpolated(nt) => match *nt {
                        Nonterminal::NtMeta(item) => match spec_attr_args_kind(item.args) {
                            Some(kind) => Some((
                                SMetaItem { unsafety: Safety::Default, path: item.path@, kind, span: item.path.span },
                                i + 1,
                            )),
                            None => None,
                        },
                        Nonterminal::NtPath(p) => spec_finish(ts, p@, i + 1),
                        _ => None,
                    },
                    _ => None,
                }
            },
        }
    }
}

/// The meta item of `path` whose kind is read at position `k`: its span
/// runs from the path to the literal of `name = lit`, to the closing
/// parenthesis of `name(...)`, or to the end of the path.
pub open spec fn spec_finish(ts: Seq<TokenTree>, path: SPath, k: int) -> Option<(SMetaItem, int)>
    decreases ts, ts.len() - k, 3int,
{
    if !(0 <= k <= ts.len()) {
        None
    } else {
        match spec_kind(ts, k) {
            None => None,
            Some((kind, k2)) => {
                let hi = match kind {
                    SMetaItemKind::NameValue(lit) => span_hi(lit.span),
                    SMetaItemKind::List(_) => if k < ts.len() {
                        span_hi(spec_tree_span(ts[k]))
                    } else {
                        span_hi(path.span)
                    },
                    SMetaItemKind::Word => span_hi(path.span),
                };
                // A span rebuilt at its own high end is itself.
                let span = if hi == span_hi(path.span) {
                    path.span
                } else {
                    span_with_hi(path.span, hi)
                };
                Some((SMetaItem { unsafety: Safety::Default, path, kind, span }, k2))
            },
        }
    }
}

/// The kind of a meta item read at position `k`, and the position after it
/// (`MetaItemKind::from_tokens`): a list in parentheses, `= literal`, or
/// a word.
pub open spec fn spec_kind(ts: Seq<TokenTree>, k: int) -> Option<(SMetaItemKind, int)>
    decreases ts, ts.len() - k, 2int,
{
    if !(0 <= k <= ts.len()) {
        None
    } else if k == ts.len() {
        Some((SMetaItemKind::Word, k))
    } else {
        match ts[k] {
            TokenTree::Delimited(_, delim, stream) => {
                if delim == Delimiter::Parenthesis {
                    match spec_list(stream.trees@, 0) {
                        Some(items) => Some((SMetaItemKind::List(items), k + 1)),
                        None => None,
                    }
                } else {
                    None
                }
            },
            TokenTree::Token(tok, _) => {
                if tok.kind is Eq {
                    spec_name_value(ts, k + 1)
                } else {
                    Some((SMetaItemKind::Word, k))
                }
            },
        }
    }
}

/// The literal of `name = literal`, read at position `k`, and the position
/// after it (`MetaItemKind::name_value_from_tokens`).
pub open spec fn spec_name_value(ts: Seq<TokenTree>, k: int) -> Option<(SMetaItemKind, int)>
    decreases ts, ts.len() - k, 1int,
{
    if !(0 <= k < ts.len()) {
        None
    } else {
        match ts[k] {
            TokenTree::Delimited(_, delim, stream) => {
                if delim == Delimiter::Invisible {
                    match spec_name_value(stream.trees@, 0) {
                        Some((kind, _)) => Some((kind, k + 1)),
                        None => None,
                    }
                } else {
                    None
                }
            },
            TokenTree::Token(tok, _) => match spec_meta_lit_from_token(tok) {
                Some(lit) => Some((SMetaItemKind::NameValue(lit), k + 1)),
                None => None,
            },
        }
    }
}

/// The kind of meta item that attribute arguments make
/// (`MetaItemKind::from_attr_args`).
pub open spec fn spec_attr_args_kind(args: AttrArgs) -> Option<SMetaItemKind>
    decreases args, 0int, 0int,
{
    match args {
        AttrArgs::Empty => Some(SMetaItemKind::Word),
        AttrArgs::Delimited(d) => {
            if d.delim == Delimiter::Parenthesis {
                match spec_list(d.tokens.trees@, 0) {
                    Some(items) => Some(SMetaItemKind::List(items)),
                    None => None,
                }
            } else {
                None
            }
        },
        AttrArgs::Eq(_, AttrArgsEq::Ast(expr)) => match expr.kind {
            ExprKind::Lit(l) => match spec_meta_lit_from_token_lit(l, expr.span) {
                Some(lit) => Some(SMetaItemKind::NameValue(lit)),
                None => None,
            },
            ExprKind::Other => None,
        },
        AttrArgs::Eq(_, AttrArgsEq::Hir(lit)) => Some(SMetaItemKind::NameValue(lit)),
    }
}

} // verus!

verus! {

/// The meta item list that a reader gave back, as values.
pub open spec fn list_result(r: Option<MetaItemList>) -> Option<Seq<SMetaItemInner>> {
    match r {
        Some(l) => Some(meta_list_items(l)),
        None => None,
    }
}

/// A list item and the position after it, as values.
pub open spec fn inner_result(r: Option<(MetaItemInner, usize)>) -> Option<(SMetaItemInner, int)> {
    match r {
        Some((item, j)) => Some((item@, j as int)),
        None => None,
    }
}

/// A meta item and the position after it, as values.
pub open spec fn meta_result(r: Option<(MetaItem, usize)>) -> Option<(SMetaItem, int)> {
    match r {
        Some((m, j)) => Some((m@, j as int)),
        None => None,
    }
}

/// A meta item kind and the position after it, as values.
pub open spec fn kind_result(r: Option<(MetaItemKind, usize)>) -> Option<(SMetaItemKind, int)> {
    match r {
        Some((kind, j)) => Some((kind@, j as int)),
        None => None,
    }
}

/// A meta item kind, as a value.
pub open spec fn kind_opt(r: Option<MetaItemKind>) -> Option<SMetaItemKind> {
    match r {
        Some(kind) => Some(kind@),
        None => None,
    }
}

/// A meta item, as a value.
pub open spec fn meta_opt(r: Option<MetaItem>) -> Option<SMetaItem> {
    match r {
        Some(m) => Some(m@),
        None => None,
    }
}

/// `items` followed by the list `rest`, where there is one.
pub open spec fn prefix_then(items: Seq<SMetaItemInner>, rest: Option<Seq<SMetaItemInner>>) -> Option<Seq<SMetaItemInner>> {
    match rest {
        Some(r) => Some(items + r),
        None => None,
    }
}

/// The meta item that an attribute item makes, at `span` (`AttrItem::meta`).
pub open spec fn spec_attr_item_meta(item: AttrItem, span: Span) -> Option<SMetaItem> {
    match spec_attr_args_kind(item.args) {
        Some(kind) => Some(SMetaItem { unsafety: Safety::Default, path: item.path@, kind, span }),
        None => None,
    }
}

/// A path read from tokens ends after where it starts, within the trees,
/// and has a segment more than it started with.
pub proof fn lemma_path_segments_bounds(ts: Seq<TokenTree>, k: int, segs: Seq<PathSegment>)
    ensures
        spec_path_segments(ts, k, segs) matches Some((s2, k2)) ==> k < k2 <= ts.len() && s2.len() > segs.len(),
    decreases ts.len() - k,
{
    if 0 <= k < ts.len() {
        if let Some(ident) = spec_tree_ident(ts[k]) {
            let segs2 = segs.push(PathSegment { ident, args: None });
            if k + 1 < ts.len() && is_path_sep(ts[k + 1]) {
                lemma_path_segments_bounds(ts, k + 2, segs2);
            }
        }
    }
}

/// The kind reader ends where it starts or after, within the trees.
pub proof fn lemma_kind_positions(ts: Seq<TokenTree>, k: int)
    ensures
        spec_kind(ts, k) matches Some((_, j)) ==> k <= j <= ts.len(),
        spec_name_value(ts, k) matches Some((_, j)) ==> k < j <= ts.len(),
{
    if 0 <= k < ts.len() && ts[k] is Token && (ts[k]->Token_0).kind is Eq {
        assert(spec_kind(ts, k) == spec_name_value(ts, k + 1));
    }
}

/// A meta item finished at position `k` ends where its kind does.
pub proof fn lemma_finish_positions(ts: Seq<TokenTree>, path: SPath, k: int)
    ensures
        spec_finish(ts, path, k) matches Some((_, j)) ==> k <= j <= ts.len(),
{
    lemma_kind_positions(ts, k);
}

/// The meta item and list item readers end after where they start, within
/// the trees.
pub proof fn lemma_positions(ts: Seq<TokenTree>, i: int)
    ensures
        spec_inner(ts, i) matches Some((_, j)) ==> i < j <= ts.len(),
        spec_meta_item(ts, i) matches Some((_, j)) ==> i < j <= ts.len(),
{
    if 0 <= i < ts.len() {
        if let TokenTree::Token(tok, _) = ts[i] {
            let u = spec_uninterpolate(tok);
            if let TokenKind::Ident(name, _) = u.kind {
                let ident = Ident { name, span: u.span };
                if i + 1 < ts.len() && is_path_sep(ts[i + 1]) {
                    if let Some((segs, k)) = spec_path_segments(ts, i + 2, seq![PathSegment { ident, args: None }]) {
                        let span = span_with_hi(u.span, span_hi(segs.last().ident.span));
                        lemma_finish_positions(ts, SPath { span, segments: segs }, k);
                    }
                } else {
                    lemma_finish_positions(ts, SPath::from_ident(ident), i + 1);
                }
            } else if let TokenKind::PathSep = u.kind {
                let root = PathSegment {
                    ident: Ident { name: Symbol { idx: crate::symbol::KW_PATH_ROOT }, span: u.span },
                    args: None,
                };
                if let Some((segs, k)) = spec_path_segments(ts, i + 1, seq![root]) {
                    let span = span_with_hi(u.span, span_hi(segs.last().ident.span));
                    lemma_finish_positions(ts, SPath { span, segments: segs }, k);
                }
            } else if let TokenKind::Interpolated(nt) = u.kind {
                if let Nonterminal::NtPath(p) = *nt {
                    lemma_finish_positions(ts, p@, i + 1);
                }
            }
        }
    }
}

impl MetaItemLit {
    /// The meta item literal of a literal token at `span`, none where the
    /// token is malformed (`MetaItemLit::from_token_lit`).
    pub fn from_token_lit(l: TokenLit, span: Span) -> (r: Option<MetaItemLit>)
        ensures
            r == spec_meta_lit_from_token_lit(l, span),
    {
        match l.value {
            Some(kind) => Some(MetaItemLit { symbol: l.symbol, suffix: l.suffix, kind, span }),
            None => None,
        }
    }

    /// The meta item literal that a token stands for
    /// (`MetaItemLit::from_token`).
    pub fn from_token(t: &Token) -> (r: Option<MetaItemLit>)
        ensures
            r == spec_meta_lit_from_token(*t),
    {
        match token_lit(t) {
            Some(l) => MetaItemLit::from_token_lit(l, t.span),
            None => None,
        }
    }
}

/// The literal token that `t` stands for (`token::Lit::from_token`).
fn token_lit(t: &Token) -> (r: Option<TokenLit>)
    ensures
        r == spec_token_lit(*t),
{
    match &t.kind {
        TokenKind::Ident(name, IdentIsRaw::No) => if name.is_bool_lit() {
            Some(bool_lit(*name))
        } else {
            None
        },
        TokenKind::NtIdent(ident, IdentIsRaw::No) => if ident.name.is_bool_lit() {
            Some(bool_lit(ident.name))
        } else {
            None
        },
        TokenKind::Literal(l) => Some(*l),
        TokenKind::Interpolated(nt) => match &**nt {
            Nonterminal::NtExpr(e) => match e.kind {
                ExprKind::Lit(l) => Some(l),
                ExprKind::Other => None,
            },
            Nonterminal::NtLiteral(e) => match e.kind {
                ExprKind::Lit(l) => Some(l),
                ExprKind::Other => None,
            },
            _ => None,
        },
        _ => None,
    }
}

/// The literal token of `true` or `false`.
fn bool_lit(name: Symbol) -> (r: TokenLit)
    ensures
        r == bool_token_lit(name),
{
    TokenLit {
        kind: TokenLitKind::Bool,
        symbol: name,
        suffix: None,
        value: Some(LitKind::Bool(name.as_u32() == KW_TRUE)),
    }
}

/// The span of a token tree (`TokenTree::span`).
fn tree_span(tt: &TokenTree) -> (r: Span)
    ensures
        r == spec_tree_span(*tt),
{
    match tt {
        TokenTree::Token(t, _) => t.span,
        TokenTree::Delimited(ds, _, _) => ds.entire(),
    }
}

/// The identifier that a token tree is, with macro variables taken away.
fn tree_ident(tt: &TokenTree) -> (r: Option<Ident>)
    ensures
        r == spec_tree_ident(*tt),
{
    match tt {
        TokenTree::Token(t, _) => match &t.kind {
            TokenKind::Ident(name, _) => Some(Ident { name: *name, span: t.span }),
            TokenKind::NtIdent(ident, _) => Some(*ident),
            _ => None,
        },
        _ => None,
    }
}

/// Whether the tree is the token `::`.
fn tree_is_path_sep(tt: &TokenTree) -> (r: bool)
    ensures
        r == is_path_sep(*tt),
{
    match tt {
        TokenTree::Token(Token { kind: TokenKind::PathSep, .. }, _) => true,
        _ => false,
    }
}

/// Whether the tree is the token `,`.
fn tree_is_comma(tt: &TokenTree) -> (r: bool)
    ensures
        r == is_comma(*tt),
{
    match tt {
        TokenTree::Token(Token { kind: TokenKind::Comma, .. }, _) => true,
        _ => false,
    }
}

/// Reads the segments of a path that starts with `first`, from position
/// `start` on; gives them with the position after them and the span of the
/// last identifier.
fn path_segments_from(ts: &Vec<TokenTree>, start: usize, first: PathSegment) -> (r: Option<(ThinVec<PathSegment>, usize, Span)>)
    requires
        start <= ts@.len(),
    ensures
        match spec_path_segments(ts@, start as int, seq![first]) {
            Some((segs, k)) => r matches Some((v, k2, last)) && segments_of(v) == segs && k2 == k && segs.len() > 0 && last == segs.last().ident.span,
            None => r is None,
        },
{
    let mut segs = segments_new();
    segments_push(&mut segs, first);
    let mut k = start;
    proof {
        assert(segments_of(segs) =~= seq![first]);
    }
    loop
        invariant
            k <= ts@.len(),
            spec_path_segments(ts@, k as int, segments_of(segs)) == spec_path_segments(ts@, start as int, seq![first]),
        decreases ts@.len() - k,
    {
        if k >= ts.len() {
            return None;
        }
        match tree_ident(&ts[k]) {
            None => {
                return None;
            },
            Some(ident) => {
                let ghost before = segments_of(segs);
                segments_push(&mut segs, PathSegment::from_ident(ident));
                if k + 1 < ts.len() && tree_is_path_sep(&ts[k + 1]) {
                    k = k + 2;
                } else {
                    return Some((segs, k + 1, ident.span));
                }
            },
        }
    }
}

impl MetaItemKind {
    /// The meta item list that a token stream holds
    /// (`MetaItemKind::list_from_tokens`).
    pub(crate) fn list_from_tokens(tokens: &TokenStream) -> (r: Option<MetaItemList>)
        ensures
            list_result(r) == spec_list(tokens.trees@, 0),
        decreases tokens.trees@, tokens.trees@.len(), 6int,
    {
        let ts = &tokens.trees;
        let ghost all = tokens.trees@;
        let mut result = MetaItemList::new();
        let mut pos: usize = 0;
        proof {
            if let Some(rest) = spec_list(ts@, 0) {
                assert(meta_list_items(result) + rest =~= rest);
            }
        }
        while pos < ts.len()
            invariant
                ts@ == all,
                all == tokens.trees@,
                pos <= ts@.len(),
                spec_list(ts@, 0) == prefix_then(meta_list_items(result), spec_list(ts@, pos as int)),
            decreases ts@.len() - pos,
        {
            let (item, j) = match MetaItemInner::from_tokens(ts, pos) {
                Some(x) => x,
                None => {
                    return None;
                },
            };
            proof {
                lemma_positions(ts@, pos as int);
            }
            let ghost before = meta_list_items(result);
            result.push(item);
            if j < ts.len() {
                if tree_is_comma(&ts[j]) {
                    proof {
                        if let Some(rest) = spec_list(ts@, j + 1) {
                            assert(before + (seq![item@] + rest) =~= before.push(item@) + rest);
                        }
                    }
                    pos = j + 1;
                } else {
                    return None;
                }
            } else {
                proof {
                    assert(before + seq![item@] =~= before.push(item@));
                    assert(before.push(item@) + Seq::<SMetaItemInner>::empty() =~= before.push(item@));
                }
                pos = j;
            }
        }
        proof {
            assert(meta_list_items(result) + Seq::<SMetaItemInner>::empty() =~= meta_list_items(result));
        }
        Some(result)
    }

    /// The kind of a meta item read at position `k`, and the position after
    /// it (`MetaItemKind::from_tokens`).
    fn from_tokens(ts: &Vec<TokenTree>, k: usize) -> (r: Option<(MetaItemKind, usize)>)
        requires
            k <= ts@.len(),
        ensures
            kind_result(r) == spec_kind(ts@, k as int),
        decreases ts@, ts@.len() - k, 2int,
    {
        if k >= ts.len() {
            return Some((MetaItemKind::Word, k));
        }
        match &ts[k] {
            TokenTree::Delimited(_, delim, stream) => {
                if let Delimiter::Parenthesis = delim {
                    match Self::list_from_tokens(stream) {
                        Some(l) => Some((MetaItemKind::List(l), k + 1)),
                        None => None,
                    }
                } else {
                    None
                }
            },
            TokenTree::Token(tok, _) => {
                if let TokenKind::Eq = tok.kind {
                    Self::name_value_from_tokens(ts, k + 1)
                } else {
                    Some((MetaItemKind::Word, k))
                }
            },
        }
    }

    /// The literal of `name = literal`, read at position `k`, and the
    /// position after it (`MetaItemKind::name_value_from_tokens`).
    fn name_value_from_tokens(ts: &Vec<TokenTree>, k: usize) -> (r: Option<(MetaItemKind, usize)>)
        requires
            k <= ts@.len(),
        ensures
            kind_result(r) == spec_name_value(ts@, k as int),
        decreases ts@, ts@.len() - k, 1int,
    {
        if k >= ts.len() {
            return None;
        }
        match &ts[k] {
            TokenTree::Delimited(_, delim, stream) => {
                if let Delimiter::Invisible = delim {
                    match Self::name_value_from_tokens(&stream.trees, 0) {
                        Some((kind, _)) => Some((kind, k + 1)),
                        None => None,
                    }
                } else {
                    None
                }
            },
            TokenTree::Token(tok, _) => match MetaItemLit::from_token(tok) {
                Some(lit) => Some((MetaItemKind::NameValue(lit), k + 1)),
                None => None,
            },
        }
    }

    /// The kind of meta item that attribute arguments make
    /// (`MetaItemKind::from_attr_args`).
    fn from_attr_args(args: &AttrArgs) -> (r: Option<MetaItemKind>)
        ensures
            kind_opt(r) == spec_attr_args_kind(*args),
        decreases *args, 0int, 0int,
    {
        match args {
            AttrArgs::Empty => Some(MetaItemKind::Word),
            AttrArgs::Delimited(d) => {
                if let Delimiter::Parenthesis = d.delim {
                    match Self::list_from_tokens(&d.tokens) {
                        Some(l) => Some(MetaItemKind::List(l)),
                        None => None,
                    }
                } else {
                    None
                }
            },
            AttrArgs::Eq(_, AttrArgsEq::Ast(expr)) => match expr.kind {
                ExprKind::Lit(l) => match MetaItemLit::from_token_lit(l, expr.span) {
                    Some(lit) => Some(MetaItemKind::NameValue(lit)),
                    None => None,
                },
                ExprKind::Other => None,
            },
            AttrArgs::Eq(_, AttrArgsEq::Hir(lit)) => Some(MetaItemKind::NameValue(*lit)),
        }
    }
}

impl MetaItemInner {
    /// The list item at position `pos`, and the position after it
    /// (`MetaItemInner::from_tokens`).
    fn from_tokens(ts: &Vec<TokenTree>, pos: usize) -> (r: Option<(MetaItemInner, usize)>)
        requires
            pos <= ts@.len(),
        ensures
            inner_result(r) == spec_inner(ts@, pos as int),
        decreases ts@, ts@.len() - pos, 5int,
    {
        if pos < ts.len() {
            match &ts[pos] {
                TokenTree::Token(tok, _) => {
                    if let Some(lit) = MetaItemLit::from_token(tok) {
                        return Some((MetaItemInner::Lit(lit), pos + 1));
                    }
                },
                TokenTree::Delimited(_, delim, stream) => {
                    if let Delimiter::Invisible = delim {
                        return match Self::from_tokens(&stream.trees, 0) {
                            Some((item, _)) => Some((item, pos + 1)),
                            None => None,
                        };
                    }
                },
            }
        }
        match MetaItem::from_tokens(ts, pos) {
            Some((m, j)) => Some((MetaItemInner::MetaItem(m), j)),
            None => None,
        }
    }
}

impl MetaItem {
    /// The meta item at position `pos`, and the position after it
    /// (`MetaItem::from_tokens`).
    fn from_tokens(ts: &Vec<TokenTree>, pos: usize) -> (r: Option<(MetaItem, usize)>)
        requires
            pos <= ts@.len(),
        ensures
            meta_result(r) == spec_meta_item(ts@, pos as int),
        decreases ts@, ts@.len() - pos, 4int,
    {
        if pos >= ts.len() {
            return None;
        }
        match &ts[pos] {
            TokenTree::Delimited(..) => None,
            TokenTree::Token(tok, _) => {
                if let TokenKind::Interpolated(nt) = &tok.kind {
                    return match &**nt {
                        Nonterminal::NtMeta(item) => match item.meta(item.path.span) {
                            Some(m) => Some((m, pos + 1)),
                            None => None,
                        },
                        Nonterminal::NtPath(p) => Self::finish(ts, p.clone_path(), pos + 1),
                        _ => None,
                    };
                }
                if let TokenKind::PathSep = tok.kind {
                    let root = PathSegment::path_root(tok.span);
                    return match path_segments_from(ts, pos + 1, root) {
                        Some((segs, k, last)) => {
                            proof {
                                lemma_path_segments_bounds(ts@, pos + 1, seq![root]);
                            }
                            let span = crate::span::with_hi(tok.span, crate::span::hi(last));
                            Self::finish(ts, Path { span, segments: segs }, k)
                        },
                        None => None,
                    };
                }
                match tree_ident(&ts[pos]) {
                    None => None,
                    Some(ident) => {
                        if pos + 1 < ts.len() && tree_is_path_sep(&ts[pos + 1]) {
                            let first = PathSegment::from_ident(ident);
                            match path_segments_from(ts, pos + 2, first) {
                                Some((segs, k, last)) => {
                                    proof {
                                        lemma_path_segments_bounds(ts@, pos + 2, seq![first]);
                                    }
                                    let span = crate::span::with_hi(ident.span, crate::span::hi(last));
                                    Self::finish(ts, Path { span, segments: segs }, k)
                                },
                                None => None,
                            }
                        } else {
                            Self::finish(ts, Path::from_ident(ident), pos + 1)
                        }
                    },
                }
            },
        }
    }

    /// The meta item of `path` whose kind is read at position `k`.
    fn finish(ts: &Vec<TokenTree>, path: Path, k: usize) -> (r: Option<(MetaItem, usize)>)
        requires
            k <= ts@.len(),
        ensures
            meta_result(r) == spec_finish(ts@, path@, k as int),
        decreases ts@, ts@.len() - k, 3int,
    {
        let closing: Option<u32> = if k < ts.len() {
            Some(crate::span::hi(tree_span(&ts[k])))
        } else {
            None
        };
        let (kind, k2) = match MetaItemKind::from_tokens(ts, k) {
            Some(x) => x,
            None => {
                return None;
            },
        };
        let hi_pos = match &kind {
            MetaItemKind::NameValue(lit) => crate::span::hi(lit.span),
            MetaItemKind::List(_) => match closing {
                Some(c) => c,
                None => crate::span::hi(path.span),
            },
            MetaItemKind::Word => crate::span::hi(path.span),
        };
        let span = crate::span::with_hi(path.span, hi_pos);
        Some((MetaItem { unsafety: Safety::Default, path, kind, span }, k2))
    }
}

impl AttrItem {
    /// The meta item that the attribute item makes, at `span`
    /// (`AttrItem::meta`).
    pub fn meta(&self, span: Span) -> (r: Option<MetaItem>)
        ensures
            meta_opt(r) == spec_attr_item_meta(*self, span),
        decreases *self, 0int, 2int,
    {
        let path = self.path.clone_path();
        match self.meta_kind() {
            Some(kind) => Some(MetaItem { unsafety: Safety::Default, path, kind, span }),
            None => None,
        }
    }

    /// The kind of meta item that the arguments make
    /// (`AttrItem::meta_kind`).
    pub fn meta_kind(&self) -> (r: Option<MetaItemKind>)
        ensures
            kind_opt(r) == spec_attr_args_kind(self.args),
        decreases *self, 0int, 1int,
    {
        MetaItemKind::from_attr_args(&self.args)
    }
}

} // verus!
