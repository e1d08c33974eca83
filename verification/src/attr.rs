//! Functions dealing with attributes and meta items.
use vstd::prelude::*;
use std::sync::atomic::{AtomicU32, Ordering};
use rustc_span::Span;
use crate::ast::{
    AttrArgs, AttrArgsEq, AttrId, AttrItem, AttrKind, AttrStyle, Attribute, CommentKind, DelimArgs,
    Expr, ExprKind, LitKind, MetaItem, MetaItemInner, MetaItemKind, MetaItemLit, NormalAttr, Path,
    SMetaItem, SMetaItemInner, SMetaItemKind, SPath, Safety, StrStyle, ATTR_ID_MAX,
};
use crate::literal::{escape_fits, escape_string_symbol, str_escape_default};
use crate::lists::{path_symbols, set_members, AttrIdSet, MetaItemList, PathSymbols};
use crate::parse::{list_result, meta_opt, kind_opt, spec_attr_args_kind, spec_attr_item_meta, spec_list};
use crate::span::{span_hi, span_to, span_with_hi};
use crate::symbol::{Edition, Ident, Interner, Symbol, KW_EMPTY, SYM_DOC, SYM_PROC_MACRO, SYM_PROC_MACRO_ATTRIBUTE, SYM_PROC_MACRO_DERIVE};
use crate::token::{
    raw_guess_flag, same_trees, DelimSpan, Delimiter, LazyAttrTokenStream, Spacing, Token, TokenKind, TokenLit,
    TokenLitKind, TokenStream, TokenTree,
};

verus! {

/// The set of attributes that have been marked, by id.
pub struct MarkedAttrs {
    set: AttrIdSet,
}

impl View for MarkedAttrs {
    type V = Set<nat>;

    closed spec fn view(&self) -> Set<nat> {
        set_members(self.set)
    }
}

impl MarkedAttrs {
    /// No attribute marked.
    pub fn new() -> (r: MarkedAttrs)
        ensures
            r@ == Set::<nat>::empty(),
    {
        MarkedAttrs { set: AttrIdSet::new_empty() }
    }

    /// Marks `attr`.
    pub fn mark(&mut self, attr: &Attribute)
        ensures
            final(self)@ == old(self)@.insert(attr.id.value()),
    {
        self.set.insert(attr.id.as_u32());
    }

    /// Whether `attr` is marked.
    pub fn is_marked(&self, attr: &Attribute) -> (r: bool)
        ensures
            r == self@.contains(attr.id.value()),
    {
        self.set.contains(attr.id.as_u32())
    }
}

/// `r` is the id that the counter value `value` makes: none past the
/// greatest id.
pub open spec fn id_of_counter(value: u32, r: Option<AttrId>) -> bool {
    match r {
        Some(id) => value <= ATTR_ID_MAX && id.value() == value,
        None => value > ATTR_ID_MAX,
    }
}

/// Hands out attribute ids from a counter that can be shared between
/// threads.
pub struct AttrIdGenerator {
    counter: AtomicU32,
}

impl AttrIdGenerator {
    /// A generator whose first id is 0.
    pub fn new() -> (r: AttrIdGenerator) {
        AttrIdGenerator { counter: AtomicU32::new(0) }
    }

    /// The id that a value drawn from the counter makes: none past the
    /// greatest id.
    pub fn id_from_counter(value: u32) -> (r: Option<AttrId>)
        ensures
            id_of_counter(value, r),
    {
        if value != u32::MAX && value <= ATTR_ID_MAX {
            Some(AttrId::from_u32(value))
        } else {
            None
        }
    }

    /// A fresh id: the counter's value, which goes up by one. None once the
    /// counter has gone past the greatest id. Other threads may draw from
    /// the counter too, so which value comes is not known here.
    pub fn mk_attr_id(&self) -> (r: Option<AttrId>)
        ensures
            exists|value: u32| id_of_counter(value, r),
            r matches Some(id) ==> id.value() <= ATTR_ID_MAX,
    {
        let value = self.counter.fetch_add(1, Ordering::Relaxed);
        Self::id_from_counter(value)
    }
}

/// The identifier of a path that has a single segment.
pub open spec fn single_ident(p: crate::ast::SPath) -> Option<Ident> {
    if p.segments.len() == 1 {
        Some(p.segments[0].ident)
    } else {
        None
    }
}

/// The empty symbol.
pub open spec fn empty_symbol() -> Symbol {
    Symbol { idx: KW_EMPTY }
}

/// The string value of `#[attr = value]`'s value: that of a string literal.
pub open spec fn spec_eq_value_str(e: AttrArgsEq) -> Option<Symbol> {
    match e {
        AttrArgsEq::Ast(expr) => match expr.kind {
            ExprKind::Lit(l) => match l.value {
                Some(kind) => kind.spec_str(),
                None => None,
            },
            ExprKind::Other => None,
        },
        AttrArgsEq::Hir(lit) => lit.kind.spec_str(),
    }
}

/// The string value of an attribute item `#[attr = "value"]`.
pub open spec fn spec_item_value_str(item: AttrItem) -> Option<Symbol> {
    match item.args {
        AttrArgs::Eq(_, e) => spec_eq_value_str(e),
        _ => None,
    }
}

/// The meta item list of an attribute item `#[attr(...)]`.
pub open spec fn spec_item_meta_item_list(item: AttrItem) -> Option<Seq<SMetaItemInner>> {
    match item.args {
        AttrArgs::Delimited(d) => if d.delim == Delimiter::Parenthesis {
            spec_list(d.tokens.trees@, 0)
        } else {
            None
        },
        _ => None,
    }
}

/// The span of attribute arguments; the arguments are not a checked
/// literal.
pub open spec fn spec_args_span(args: AttrArgs) -> Option<Span> {
    match args {
        AttrArgs::Empty => None,
        AttrArgs::Delimited(d) => Some(span_with_hi(d.dspan.open, span_hi(d.dspan.close))),
        AttrArgs::Eq(eq_span, AttrArgsEq::Ast(expr)) => Some(span_to(eq_span, expr.span)),
        AttrArgs::Eq(_, AttrArgsEq::Hir(_)) => None,
    }
}

impl Attribute {
    /// The attribute is written `#[...]`.
    pub open spec fn is_normal(&self) -> bool {
        self.kind is Normal
    }

    /// The item of an attribute written `#[...]`.
    pub open spec fn normal_item(&self) -> AttrItem {
        self.kind->Normal_0.item
    }

    pub open spec fn spec_is_doc_comment(&self) -> bool {
        self.kind is DocComment
    }

    pub open spec fn spec_ident(&self) -> Option<Ident> {
        match self.kind {
            AttrKind::Normal(n) => single_ident(n.item.path@),
            AttrKind::DocComment(..) => None,
        }
    }

    pub open spec fn spec_name_or_empty(&self) -> Symbol {
        match self.spec_ident() {
            Some(ident) => ident.name,
            None => empty_symbol(),
        }
    }

    pub open spec fn spec_path(&self) -> Seq<Symbol> {
        match self.kind {
            AttrKind::Normal(n) => n.item.path@.segments.map_values(|s: crate::ast::PathSegment| s.ident.name),
            AttrKind::DocComment(..) => seq![Symbol { idx: SYM_DOC }],
        }
    }

    pub open spec fn spec_has_name(&self, name: Symbol) -> bool {
        match self.kind {
            AttrKind::Normal(n) => n.item.path@.is_name(name),
            AttrKind::DocComment(..) => false,
        }
    }

    pub open spec fn spec_path_matches(&self, names: Seq<Symbol>) -> bool {
        match self.kind {
            AttrKind::Normal(n) => {
                let segs = n.item.path@.segments;
                &&& segs.len() == names.len()
                &&& forall|i: int| 0 <= i < segs.len() ==> (#[trigger] segs[i]).args is None && segs[i].ident.name == names[i]
            },
            AttrKind::DocComment(..) => false,
        }
    }

    pub open spec fn spec_is_word(&self) -> bool {
        match self.kind {
            AttrKind::Normal(n) => n.item.args is Empty,
            AttrKind::DocComment(..) => false,
        }
    }

    pub open spec fn spec_meta_item_list(&self) -> Option<Seq<SMetaItemInner>> {
        match self.kind {
            AttrKind::Normal(n) => spec_item_meta_item_list(n.item),
            AttrKind::DocComment(..) => None,
        }
    }

    pub open spec fn spec_value_str(&self) -> Option<Symbol> {
        match self.kind {
            AttrKind::Normal(n) => spec_item_value_str(n.item),
            AttrKind::DocComment(..) => None,
        }
    }

    pub open spec fn spec_doc_str_and_comment_kind(&self) -> Option<(Symbol, CommentKind)> {
        match self.kind {
            AttrKind::DocComment(kind, data) => Some((data, kind)),
            AttrKind::Normal(n) => if n.item.path@.is_name(Symbol { idx: SYM_DOC }) {
                match spec_item_value_str(n.item) {
                    Some(s) => Some((s, CommentKind::Line)),
                    None => None,
                }
            } else {
                None
            },
        }
    }

    pub open spec fn spec_doc_str(&self) -> Option<Symbol> {
        match self.kind {
            AttrKind::DocComment(_, data) => Some(data),
            AttrKind::Normal(n) => if n.item.path@.is_name(Symbol { idx: SYM_DOC }) {
                spec_item_value_str(n.item)
            } else {
                None
            },
        }
    }

    pub open spec fn spec_is_proc_macro_attr(&self) -> bool {
        ||| self.spec_has_name(Symbol { idx: SYM_PROC_MACRO })
        ||| self.spec_has_name(Symbol { idx: SYM_PROC_MACRO_ATTRIBUTE })
        ||| self.spec_has_name(Symbol { idx: SYM_PROC_MACRO_DERIVE })
    }

    pub open spec fn spec_meta(&self) -> Option<SMetaItem> {
        match self.kind {
            AttrKind::Normal(n) => spec_attr_item_meta(n.item, self.span),
            AttrKind::DocComment(..) => None,
        }
    }

    pub open spec fn spec_meta_kind(&self) -> Option<SMetaItemKind> {
        match self.kind {
            AttrKind::Normal(n) => spec_attr_args_kind(n.item.args),
            AttrKind::DocComment(..) => None,
        }
    }

    /// The item of an attribute written `#[...]`; not for a doc comment.
    pub fn get_normal_item(&self) -> (r: &AttrItem)
        requires
            self.is_normal(),
        ensures
            *r == self.normal_item(),
    {
        match &self.kind {
            AttrKind::Normal(normal) => &normal.item,
            AttrKind::DocComment(..) => vstd::pervasive::unreached(),
        }
    }

    /// The item of an attribute written `#[...]`, taken out of it; not for
    /// a doc comment.
    pub fn unwrap_normal_item(self) -> (r: AttrItem)
        requires
            self.is_normal(),
        ensures
            r == self.normal_item(),
    {
        match self.kind {
            AttrKind::Normal(normal) => normal.item,
            AttrKind::DocComment(..) => vstd::pervasive::unreached(),
        }
    }

    /// Whether this is a sugared doc comment (`///` or `//!`): `#[doc = "doc"]`
    /// and `#[doc(...)]` are not.
    pub fn is_doc_comment(&self) -> (r: bool)
        ensures
            r == self.spec_is_doc_comment(),
    {
        match self.kind {
            AttrKind::Normal(..) => false,
            AttrKind::DocComment(..) => true,
        }
    }

    /// For a single-segment attribute, its name; otherwise none.
    pub fn ident(&self) -> (r: Option<Ident>)
        ensures
            r == self.spec_ident(),
    {
        match &self.kind {
            AttrKind::Normal(normal) => {
                let segments = normal.item.path.segments();
                if segments.len() == 1 {
                    Some(segments[0].ident)
                } else {
                    None
                }
            },
            AttrKind::DocComment(..) => None,
        }
    }

    /// The name of a single-segment attribute; the empty symbol otherwise.
    pub fn name_or_empty(&self) -> (r: Symbol)
        ensures
            r == self.spec_name_or_empty(),
    {
        match self.ident() {
            Some(ident) => ident.name,
            None => Ident::empty().name,
        }
    }

    /// The names of the segments of the attribute's path; `doc` for a doc
    /// comment.
    pub fn path(&self) -> (r: PathSymbols)
        ensures
            path_symbols(r) == self.spec_path(),
    {
        let mut r = PathSymbols::new();
        match &self.kind {
            AttrKind::Normal(normal) => {
                let segments = normal.item.path.segments();
                let ghost segs = segments@;
                let mut i: usize = 0;
                while i < segments.len()
                    invariant
                        segs == segments@,
                        i <= segs.len(),
                        path_symbols(r) == segs.take(i as int).map_values(|s: crate::ast::PathSegment| s.ident.name),
                    decreases segs.len() - i,
                {
                    r.push(segments[i].ident.name);
                    proof {
                        assert(segs.take(i + 1).map_values(|s: crate::ast::PathSegment| s.ident.name)
                            =~= segs.take(i as int).map_values(|s: crate::ast::PathSegment| s.ident.name).push(segs[i as int].ident.name));
                    }
                    i = i + 1;
                }
                proof {
                    assert(segs.take(i as int) =~= segs);
                }
            },
            AttrKind::DocComment(..) => {
                r.push(crate::sym::doc());
                proof {
                    assert(path_symbols(r) =~= seq![Symbol { idx: SYM_DOC }]);
                }
            },
        }
        r
    }

    /// Whether the attribute's path is the single segment `name`.
    pub fn has_name(&self, name: Symbol) -> (r: bool)
        ensures
            r == self.spec_has_name(name),
    {
        match &self.kind {
            AttrKind::Normal(normal) => normal.item.path.is_name(name),
            AttrKind::DocComment(..) => false,
        }
    }

    /// Whether the attribute's path is `name`, segment by segment, with no
    /// generic arguments.
    #[verifier::loop_isolation(false)]
    pub fn path_matches(&self, name: &[Symbol]) -> (r: bool)
        ensures
            r == self.spec_path_matches(name@),
    {
        match &self.kind {
            AttrKind::Normal(normal) => {
                let segments = normal.item.path.segments();
                if segments.len() != name.len() {
                    return false;
                }
                let mut i: usize = 0;
                while i < segments.len()
                    invariant
                        segments@.len() == name@.len(),
                        segments@ == normal.item.path@.segments,
                        i <= segments@.len(),
                        forall|j: int| 0 <= j < i ==> (#[trigger] segments@[j]).args is None && segments@[j].ident.name == name@[j],
                    decreases segments@.len() - i,
                {
                    if segments[i].args.is_some() || segments[i].ident.name != name[i] {
                        proof {
                            let segs = normal.item.path@.segments;
                            assert(!(segs[i as int].args is None && segs[i as int].ident.name == name@[i as int]));
                        }
                        return false;
                    }
                    i = i + 1;
                }
                true
            },
            AttrKind::DocComment(..) => false,
        }
    }

    /// Whether the attribute is written `#[name]`, with no arguments.
    pub fn is_word(&self) -> (r: bool)
        ensures
            r == self.spec_is_word(),
    {
        if let AttrKind::Normal(normal) = &self.kind {
            if let AttrArgs::Empty = normal.item.args {
                true
            } else {
                false
            }
        } else {
            false
        }
    }

    /// The meta items of an attribute delimited with parentheses:
    /// `#[attr(a, b = "c")]` has some, `#[attr = ""]` and `#[attr]` none.
    pub fn meta_item_list(&self) -> (r: Option<MetaItemList>)
        ensures
            list_result(r) == self.spec_meta_item_list(),
    {
        match &self.kind {
            AttrKind::Normal(normal) => normal.item.meta_item_list(),
            AttrKind::DocComment(..) => None,
        }
    }

    /// The string value of `#[attribute = "value"]`: none in any other
    /// case, such as `#[attr("value")]` or a doc comment.
    pub fn value_str(&self) -> (r: Option<Symbol>)
        ensures
            r == self.spec_value_str(),
    {
        match &self.kind {
            AttrKind::Normal(normal) => normal.item.value_str(),
            AttrKind::DocComment(..) => None,
        }
    }

    /// The text and kind of a doc comment or of `#[doc = "..."]` (a line
    /// comment); none for `#[doc(...)]` and other attributes.
    pub fn doc_str_and_comment_kind(&self) -> (r: Option<(Symbol, CommentKind)>)
        ensures
            r == self.spec_doc_str_and_comment_kind(),
    {
        match &self.kind {
            AttrKind::DocComment(kind, data) => Some((*data, *kind)),
            AttrKind::Normal(normal) => {
                if normal.item.path.is_name(crate::sym::doc()) {
                    match normal.item.value_str() {
                        Some(s) => Some((s, CommentKind::Line)),
                        None => None,
                    }
                } else {
                    None
                }
            },
        }
    }

    /// The text of a doc comment or of `#[doc = "..."]`; none for
    /// `#[doc(...)]` and other attributes.
    pub fn doc_str(&self) -> (r: Option<Symbol>)
        ensures
            r == self.spec_doc_str(),
    {
        match &self.kind {
            AttrKind::DocComment(_, data) => Some(*data),
            AttrKind::Normal(normal) => {
                if normal.item.path.is_name(crate::sym::doc()) {
                    normal.item.value_str()
                } else {
                    None
                }
            },
        }
    }

    /// Whether the documentation of the attribute may hold intra-doc links:
    /// it holds a `[`.
    pub fn may_have_doc_links(&self, interner: &Interner) -> (r: bool)
        requires
            self.spec_doc_str() matches Some(s) ==> interner.has(s),
        ensures
            r == (self.spec_doc_str() matches Some(s) && interner@[s.index() as int].contains('[')),
    {
        match self.doc_str() {
            Some(s) => crate::symbol::str_contains_char(interner.as_str(s), '['),
            None => false,
        }
    }

    /// Whether the attribute is `#[proc_macro]`, `#[proc_macro_attribute]`
    /// or `#[proc_macro_derive]`.
    pub fn is_proc_macro_attr(&self) -> (r: bool)
        ensures
            r == self.spec_is_proc_macro_attr(),
    {
        self.has_name(crate::sym::proc_macro()) || self.has_name(crate::sym::proc_macro_attribute())
            || self.has_name(crate::sym::proc_macro_derive())
    }

    /// The meta item inside the attribute, at the attribute's span.
    pub fn meta(&self) -> (r: Option<MetaItem>)
        ensures
            meta_opt(r) == self.spec_meta(),
    {
        match &self.kind {
            AttrKind::Normal(normal) => normal.item.meta(self.span),
            AttrKind::DocComment(..) => None,
        }
    }

    /// The kind of meta item inside the attribute.
    pub fn meta_kind(&self) -> (r: Option<MetaItemKind>)
        ensures
            kind_opt(r) == self.spec_meta_kind(),
    {
        match &self.kind {
            AttrKind::Normal(normal) => normal.item.meta_kind(),
            AttrKind::DocComment(..) => None,
        }
    }
}

impl Attribute {
    /// The tokens of the attribute: those it was written in, or the doc
    /// comment's token; an attribute written `#[...]` must hold its tokens.
    pub fn token_trees(&self) -> (r: Vec<TokenTree>)
        requires
            self.kind matches AttrKind::Normal(n) ==> n.tokens is Some,
        ensures
            match self.kind {
                AttrKind::Normal(n) => same_trees(n.tokens->0.stream.trees@, r@),
                AttrKind::DocComment(kind, data) => r@ == seq![
                    TokenTree::Token(
                        Token { kind: TokenKind::DocComment(kind, self.style, data), span: self.span },
                        Spacing::Alone,
                    ),
                ],
            },
    {
        match &self.kind {
            AttrKind::Normal(normal) => match &normal.tokens {
                Some(tokens) => tokens.stream.deep_clone().trees,
                None => vstd::pervasive::unreached(),
            },
            AttrKind::DocComment(comment_kind, data) => {
                let mut v: Vec<TokenTree> = Vec::new();
                v.push(TokenTree::token_alone(TokenKind::DocComment(*comment_kind, self.style, *data), self.span));
                proof {
                    assert(v@ =~= seq![
                        TokenTree::Token(
                            Token { kind: TokenKind::DocComment(*comment_kind, self.style, *data), span: self.span },
                            Spacing::Alone,
                        ),
                    ]);
                }
                v
            },
        }
    }
}

impl AttrItem {
    /// The span from the path to the end of the arguments; not for
    /// arguments that are a checked literal.
    pub fn span(&self) -> (r: Span)
        requires
            !(self.args matches AttrArgs::Eq(_, AttrArgsEq::Hir(_))),
        ensures
            r == match spec_args_span(self.args) {
                Some(a) => span_to(self.path.span, a),
                None => self.path.span,
            },
    {
        let args_span: Option<Span> = match &self.args {
            AttrArgs::Empty => None,
            AttrArgs::Delimited(d) => Some(d.dspan.entire()),
            AttrArgs::Eq(eq_span, AttrArgsEq::Ast(expr)) => Some(crate::span::to(*eq_span, expr.span)),
            AttrArgs::Eq(_, AttrArgsEq::Hir(_)) => vstd::pervasive::unreached(),
        };
        match args_span {
            Some(a) => crate::span::to(self.path.span, a),
            None => self.path.span,
        }
    }

    /// The meta items of `#[attr(...)]`; none for other arguments.
    pub fn meta_item_list(&self) -> (r: Option<MetaItemList>)
        ensures
            list_result(r) == spec_item_meta_item_list(*self),
    {
        match &self.args {
            AttrArgs::Delimited(d) => {
                if let Delimiter::Parenthesis = d.delim {
                    MetaItemKind::list_from_tokens(&d.tokens)
                } else {
                    None
                }
            },
            _ => None,
        }
    }

    /// The string value of `#[attribute = "value"]`; none for other
    /// arguments, such as `#[attr("value")]`.
    fn value_str(&self) -> (r: Option<Symbol>)
        ensures
            r == spec_item_value_str(*self),
    {
        match &self.args {
            AttrArgs::Eq(_, e) => e.value_str(),
            _ => None,
        }
    }
}

impl AttrArgsEq {
    /// The string value of a string literal.
    fn value_str(&self) -> (r: Option<Symbol>)
        ensures
            r == spec_eq_value_str(*self),
    {
        match self {
            AttrArgsEq::Ast(expr) => match expr.kind {
                ExprKind::Lit(l) => match l.value {
                    Some(kind) => kind.str(),
                    None => None,
                },
                ExprKind::Other => None,
            },
            AttrArgsEq::Hir(lit) => lit.kind.str(),
        }
    }
}

impl SMetaItem {
    pub open spec fn ident(self) -> Option<Ident> {
        single_ident(self.path)
    }

    pub open spec fn name_or_empty(self) -> Symbol {
        match self.ident() {
            Some(ident) => ident.name,
            None => empty_symbol(),
        }
    }

    pub open spec fn has_name(self, name: Symbol) -> bool {
        self.path.is_name(name)
    }

    pub open spec fn is_word(self) -> bool {
        self.kind is Word
    }

    pub open spec fn meta_item_list(self) -> Option<Seq<SMetaItemInner>> {
        match self.kind {
            SMetaItemKind::List(items) => Some(items),
            _ => None,
        }
    }

    pub open spec fn name_value_literal(self) -> Option<MetaItemLit> {
        match self.kind {
            SMetaItemKind::NameValue(lit) => Some(lit),
            _ => None,
        }
    }

    pub open spec fn name_value_literal_span(self) -> Option<Span> {
        match self.kind {
            SMetaItemKind::NameValue(lit) => Some(lit.span),
            _ => None,
        }
    }

    pub open spec fn value_str(self) -> Option<Symbol> {
        match self.kind {
            SMetaItemKind::NameValue(lit) => lit.kind.spec_str(),
            _ => None,
        }
    }
}

impl SMetaItemInner {
    pub open spec fn meta_item(self) -> Option<SMetaItem> {
        match self {
            SMetaItemInner::MetaItem(m) => Some(m),
            SMetaItemInner::Lit(_) => None,
        }
    }

    pub open spec fn lit(self) -> Option<MetaItemLit> {
        match self {
            SMetaItemInner::Lit(lit) => Some(lit),
            SMetaItemInner::MetaItem(_) => None,
        }
    }

    pub open spec fn span(self) -> Span {
        match self {
            SMetaItemInner::MetaItem(m) => m.span,
            SMetaItemInner::Lit(lit) => lit.span,
        }
    }

    pub open spec fn ident(self) -> Option<Ident> {
        match self.meta_item() {
            Some(m) => m.ident(),
            None => None,
        }
    }

    pub open spec fn name_or_empty(self) -> Symbol {
        match self.ident() {
            Some(ident) => ident.name,
            None => empty_symbol(),
        }
    }

    pub open spec fn has_name(self, name: Symbol) -> bool {
        self.meta_item() matches Some(m) && m.has_name(name)
    }

    pub open spec fn is_word(self) -> bool {
        self.meta_item() matches Some(m) && m.is_word()
    }

    pub open spec fn meta_item_list(self) -> Option<Seq<SMetaItemInner>> {
        match self.meta_item() {
            Some(m) => m.meta_item_list(),
            None => None,
        }
    }

    /// `foo(lit)`: the name `foo` and the single literal.
    pub open spec fn singleton_lit_list(self) -> Option<(Symbol, MetaItemLit)> {
        match self.meta_item() {
            Some(m) => match m.meta_item_list() {
                Some(items) => if items.len() == 1 && m.ident() is Some && items[0] is Lit {
                    Some((m.ident().unwrap().name, items[0]->Lit_0))
                } else {
                    None
                },
                None => None,
            },
            None => None,
        }
    }

    pub open spec fn name_value_literal_span(self) -> Option<Span> {
        match self.meta_item() {
            Some(m) => m.name_value_literal_span(),
            None => None,
        }
    }

    pub open spec fn value_str(self) -> Option<Symbol> {
        match self.meta_item() {
            Some(m) => m.value_str(),
            None => None,
        }
    }

    /// A meta item, or a boolean literal.
    pub open spec fn is_meta_item_or_bool(self) -> bool {
        ||| self is MetaItem
        ||| (self matches SMetaItemInner::Lit(lit) && lit.kind is Bool)
    }

    pub open spec fn is_meta_item(self) -> bool {
        self is MetaItem
    }
}

impl MetaItem {
    /// For a single-segment meta item, its name; otherwise none.
    pub fn ident(&self) -> (r: Option<Ident>)
        ensures
            r == self@.ident(),
    {
        let segments = self.path.segments();
        if segments.len() == 1 {
            Some(segments[0].ident)
        } else {
            None
        }
    }

    /// The name of a single-segment meta item; the empty symbol otherwise.
    pub fn name_or_empty(&self) -> (r: Symbol)
        ensures
            r == self@.name_or_empty(),
    {
        match self.ident() {
            Some(ident) => ident.name,
            None => Ident::empty().name,
        }
    }

    /// Whether the meta item's path is the single segment `name`.
    pub fn has_name(&self, name: Symbol) -> (r: bool)
        ensures
            r == self@.has_name(name),
    {
        self.path.is_name(name)
    }

    /// Whether the meta item is a word: no `= value`, no list.
    pub fn is_word(&self) -> (r: bool)
        ensures
            r == self@.is_word(),
    {
        if let MetaItemKind::Word = self.kind {
            true
        } else {
            false
        }
    }

    /// The items of `name(...)`.
    pub fn meta_item_list(&self) -> (r: Option<&[MetaItemInner]>)
        ensures
            match self@.meta_item_list() {
                Some(items) => r matches Some(s) && s@.map_values(|x: MetaItemInner| x@) == items,
                None => r is None,
            },
    {
        match &self.kind {
            MetaItemKind::List(l) => Some(l.as_slice()),
            _ => None,
        }
    }

    /// The literal of `name = "value"`.
    pub fn name_value_literal(&self) -> (r: Option<&MetaItemLit>)
        ensures
            match self@.name_value_literal() {
                Some(lit) => r matches Some(l) && *l == lit,
                None => r is None,
            },
    {
        match &self.kind {
            MetaItemKind::NameValue(v) => Some(v),
            _ => None,
        }
    }

    /// The span of the value in `name = "value"`, such as that of `"foo"`
    /// in `#[doc(alias = "foo")]`.
    pub fn name_value_literal_span(&self) -> (r: Option<Span>)
        ensures
            r == self@.name_value_literal_span(),
    {
        match self.name_value_literal() {
            Some(lit) => Some(lit.span),
            None => None,
        }
    }

    /// The string value of `name = "value"`; none for other meta items,
    /// such as `name("value")`.
    pub fn value_str(&self) -> (r: Option<Symbol>)
        ensures
            r == self@.value_str(),
    {
        match &self.kind {
            MetaItemKind::NameValue(v) => v.kind.str(),
            _ => None,
        }
    }
}

impl MetaItemInner {
    /// The span of the item.
    pub fn span(&self) -> (r: Span)
        ensures
            r == self@.span(),
    {
        match self {
            MetaItemInner::MetaItem(item) => item.span,
            MetaItemInner::Lit(lit) => lit.span,
        }
    }

    /// For a single-segment meta item, its name; otherwise none.
    pub fn ident(&self) -> (r: Option<Ident>)
        ensures
            r == self@.ident(),
    {
        match self.meta_item() {
            Some(meta_item) => meta_item.ident(),
            None => None,
        }
    }

    /// The name of a single-segment meta item; the empty symbol otherwise.
    pub fn name_or_empty(&self) -> (r: Symbol)
        ensures
            r == self@.name_or_empty(),
    {
        match self.ident() {
            Some(ident) => ident.name,
            None => Ident::empty().name,
        }
    }

    /// Whether this item is a meta item named `name`.
    pub fn has_name(&self, name: Symbol) -> (r: bool)
        ensures
            r == self@.has_name(name),
    {
        match self.meta_item() {
            Some(meta_item) => meta_item.has_name(name),
            None => false,
        }
    }

    /// Whether this item is a meta item that is a word.
    pub fn is_word(&self) -> (r: bool)
        ensures
            r == self@.is_word(),
    {
        match self.meta_item() {
            Some(meta_item) => meta_item.is_word(),
            None => false,
        }
    }

    /// The items of a meta item `name(...)`.
    pub fn meta_item_list(&self) -> (r: Option<&[MetaItemInner]>)
        ensures
            match self@.meta_item_list() {
                Some(items) => r matches Some(s) && s@.map_values(|x: MetaItemInner| x@) == items,
                None => r is None,
            },
    {
        match self.meta_item() {
            Some(meta_item) => meta_item.meta_item_list(),
            None => None,
        }
    }

    /// For a singleton list `foo(lit)`, the name `foo` and the literal.
    pub fn singleton_lit_list(&self) -> (r: Option<(Symbol, &MetaItemLit)>)
        ensures
            match self@.singleton_lit_list() {
                Some((name, lit)) => r matches Some((n, l)) && n == name && *l == lit,
                None => r is None,
            },
    {
        match self.meta_item() {
            Some(meta_item) => match meta_item.meta_item_list() {
                Some(meta_item_list) => {
                    if meta_item_list.len() == 1 {
                        proof {
                            assert(meta_item_list@.map_values(|x: MetaItemInner| x@)[0] == meta_item_list@[0]@);
                        }
                        match meta_item.ident() {
                            Some(ident) => match meta_item_list[0].lit() {
                                Some(lit) => Some((ident.name, lit)),
                                None => None,
                            },
                            None => None,
                        }
                    } else {
                        None
                    }
                },
                None => None,
            },
            None => None,
        }
    }

    /// The span of the value of a meta item `name = "value"`.
    pub fn name_value_literal_span(&self) -> (r: Option<Span>)
        ensures
            r == self@.name_value_literal_span(),
    {
        match self.meta_item() {
            Some(meta_item) => meta_item.name_value_literal_span(),
            None => None,
        }
    }

    /// The string value of a meta item `name = "value"`; none otherwise.
    pub fn value_str(&self) -> (r: Option<Symbol>)
        ensures
            r == self@.value_str(),
    {
        match self.meta_item() {
            Some(meta_item) => meta_item.value_str(),
            None => None,
        }
    }

    /// The literal, where the item is one.
    pub fn lit(&self) -> (r: Option<&MetaItemLit>)
        ensures
            match self@.lit() {
                Some(lit) => r matches Some(l) && *l == lit,
                None => r is None,
            },
    {
        match self {
            MetaItemInner::Lit(lit) => Some(lit),
            _ => None,
        }
    }

    /// The item itself, where it is a meta item or a boolean literal.
    pub fn meta_item_or_bool(&self) -> (r: Option<&MetaItemInner>)
        ensures
            self@.is_meta_item_or_bool() ==> (r matches Some(x) && *x == *self),
            !self@.is_meta_item_or_bool() ==> r is None,
    {
        match self {
            MetaItemInner::MetaItem(_item) => Some(self),
            MetaItemInner::Lit(MetaItemLit { kind: LitKind::Bool(_), .. }) => Some(self),
            _ => None,
        }
    }

    /// The meta item, where the item is one.
    pub fn meta_item(&self) -> (r: Option<&MetaItem>)
        ensures
            match self {
                MetaItemInner::MetaItem(m) => r matches Some(x) && *x == m,
                MetaItemInner::Lit(_) => r is None,
            },
    {
        match self {
            MetaItemInner::MetaItem(item) => Some(item),
            _ => None,
        }
    }

    /// Whether the item is a meta item.
    pub fn is_meta_item(&self) -> (r: bool)
        ensures
            r == self@.is_meta_item(),
    {
        self.meta_item().is_some()
    }
}

/// The attribute was made with style `style` and span `span`, and a valid
/// id.
pub open spec fn made_with(a: Attribute, style: AttrStyle, span: Span) -> bool {
    &&& a.style == style
    &&& a.span == span
    &&& a.id.value() <= ATTR_ID_MAX
}

/// `item` is `#[name]` at `span`.
pub open spec fn is_word_item(item: AttrItem, unsafety: Safety, name: Symbol, span: Span) -> bool {
    &&& item.unsafety == unsafety
    &&& item.path@ == SPath::from_ident(Ident { name, span })
    &&& item.args is Empty
}

/// `item` is `#[outer(inner)]` at `span`.
pub open spec fn is_nested_word_item(item: AttrItem, unsafety: Safety, outer: Symbol, inner: Symbol, span: Span, edition: Edition) -> bool {
    &&& item.unsafety == unsafety
    &&& item.path@ == SPath::from_ident(Ident { name: outer, span })
    &&& item.args matches AttrArgs::Delimited(d)
    &&& d.dspan == DelimSpan { open: span, close: span }
    &&& d.delim == Delimiter::Parenthesis
    &&& d.tokens.trees@ == seq![
        TokenTree::Token(
            Token { kind: TokenKind::Ident(inner, raw_guess_flag(Ident { name: inner, span }, edition)), span },
            Spacing::Alone,
        ),
    ]
}

/// `item` is `#[name = "val"]` at `span`, the literal written `text`.
pub open spec fn is_name_value_str_item(item: AttrItem, unsafety: Safety, name: Symbol, text: Symbol, val: Symbol, span: Span) -> bool {
    &&& item.unsafety == unsafety
    &&& item.path@ == SPath::from_ident(Ident { name, span })
    &&& item.args matches AttrArgs::Eq(eq_span, AttrArgsEq::Ast(expr))
    &&& eq_span == span
    &&& *expr == Expr {
        kind: ExprKind::Lit(TokenLit {
            kind: TokenLitKind::Str,
            symbol: text,
            suffix: None,
            value: Some(LitKind::Str(val, StrStyle::Cooked)),
        }),
        span,
    }
}

/// The normal attribute `a` holds `item` and no tokens.
pub open spec fn holds_item(a: Attribute) -> Option<AttrItem> {
    match a.kind {
        AttrKind::Normal(n) => if n.tokens is None {
            Some(n.item)
        } else {
            None
        },
        AttrKind::DocComment(..) => None,
    }
}

/// The id of the attribute that a maker gave back, if it gave one.
pub open spec fn attr_id_of(r: Option<Attribute>) -> Option<AttrId> {
    match r {
        Some(a) => Some(a.id),
        None => None,
    }
}

/// The doc comment of kind `comment_kind` and text `data` with the id `id`.
pub fn mk_doc_comment_with_id(comment_kind: CommentKind, style: AttrStyle, data: Symbol, span: Span, id: AttrId) -> (a: Attribute)
    ensures
        a == (Attribute { kind: AttrKind::DocComment(comment_kind, data), id, style, span }),
{
    Attribute { kind: AttrKind::DocComment(comment_kind, data), id, style, span }
}

/// The attribute of `item` and `tokens` with the id `id`.
pub fn mk_attr_from_item_with_id(item: AttrItem, tokens: Option<LazyAttrTokenStream>, style: AttrStyle, span: Span, id: AttrId) -> (a: Attribute)
    ensures
        a == (Attribute { kind: AttrKind::Normal(Box::new(NormalAttr { item, tokens })), id, style, span }),
{
    Attribute { kind: AttrKind::Normal(Box::new(NormalAttr { item, tokens })), id, style, span }
}

/// A doc comment of kind `comment_kind` and text `data`, with a fresh id;
/// none once the ids have run out.
pub fn mk_doc_comment(g: &AttrIdGenerator, comment_kind: CommentKind, style: AttrStyle, data: Symbol, span: Span) -> (r: Option<Attribute>)
    ensures
        exists|value: u32| #[trigger] id_of_counter(value, attr_id_of(r)),
        r matches Some(a) ==> a == (Attribute { kind: AttrKind::DocComment(comment_kind, data), id: a.id, style, span }),
        r matches Some(a) ==> a.kind == AttrKind::DocComment(comment_kind, data) && made_with(a, style, span),
{
    match g.mk_attr_id() {
        Some(id) => Some(mk_doc_comment_with_id(comment_kind, style, data, span, id)),
        None => None,
    }
}

/// The attribute `#[path args]`, with a fresh id; none once the ids have
/// run out.
pub fn mk_attr(g: &AttrIdGenerator, style: AttrStyle, unsafety: Safety, path: Path, args: AttrArgs, span: Span) -> (r: Option<Attribute>)
    ensures
        exists|value: u32| #[trigger] id_of_counter(value, attr_id_of(r)),
        r matches Some(a) ==> a.kind == AttrKind::Normal(
            Box::new(NormalAttr { item: AttrItem { unsafety, path, args }, tokens: None }),
        ) && made_with(a, style, span),
{
    mk_attr_from_item(g, AttrItem { unsafety, path, args }, None, style, span)
}

/// The attribute of `item` and `tokens`, with a fresh id; none once the
/// ids have run out.
pub fn mk_attr_from_item(g: &AttrIdGenerator, item: AttrItem, tokens: Option<LazyAttrTokenStream>, style: AttrStyle, span: Span) -> (r: Option<Attribute>)
    ensures
        exists|value: u32| #[trigger] id_of_counter(value, attr_id_of(r)),
        r matches Some(a) ==> a == (Attribute { kind: AttrKind::Normal(Box::new(NormalAttr { item, tokens })), id: a.id, style, span }),
        r matches Some(a) ==> a.kind == AttrKind::Normal(Box::new(NormalAttr { item, tokens })) && made_with(a, style, span),
{
    match g.mk_attr_id() {
        Some(id) => Some(mk_attr_from_item_with_id(item, tokens, style, span, id)),
        None => None,
    }
}

/// The attribute `#[name]`, with a fresh id; none once the ids have run
/// out.
pub fn mk_attr_word(g: &AttrIdGenerator, style: AttrStyle, unsafety: Safety, name: Symbol, span: Span) -> (r: Option<Attribute>)
    ensures
        exists|value: u32| #[trigger] id_of_counter(value, attr_id_of(r)),
        r matches Some(a) ==> holds_item(a) matches Some(item) && is_word_item(item, unsafety, name, span) && made_with(a, style, span),
{
    let path = Path::from_ident(Ident::new(name, span));
    let args = AttrArgs::Empty;
    mk_attr(g, style, unsafety, path, args, span)
}

/// The attribute `#[outer(inner)]`, with a fresh id; none once the ids have
/// run out. `edition` is the edition of `span`: `inner` is written raw where
/// it is a keyword there.
pub fn mk_attr_nested_word(
    g: &AttrIdGenerator,
    style: AttrStyle,
    unsafety: Safety,
    outer: Symbol,
    inner: Symbol,
    span: Span,
    edition: Edition,
) -> (r: Option<Attribute>)
    ensures
        exists|value: u32| #[trigger] id_of_counter(value, attr_id_of(r)),
        r matches Some(a) ==> holds_item(a) matches Some(item) && is_nested_word_item(item, unsafety, outer, inner, span, edition) && made_with(a, style, span),
{
    let mut trees: Vec<TokenTree> = Vec::new();
    trees.push(TokenTree::Token(Token::from_ast_ident(Ident::new(inner, span), edition), Spacing::Alone));
    let inner_tokens = TokenStream::new(trees);
    let outer_ident = Ident::new(outer, span);
    let path = Path::from_ident(outer_ident);
    let attr_args = AttrArgs::Delimited(DelimArgs {
        dspan: DelimSpan::from_single(span),
        delim: Delimiter::Parenthesis,
        tokens: inner_tokens,
    });
    proof {
        assert(trees@ =~= seq![
            TokenTree::Token(
                Token { kind: TokenKind::Ident(inner, raw_guess_flag(Ident { name: inner, span }, edition)), span },
                Spacing::Alone,
            ),
        ]);
    }
    mk_attr(g, style, unsafety, path, attr_args, span)
}

/// The attribute `#[name = "val"]`, with a fresh id; none once the ids have
/// run out. The literal is written with the text of `val` escaped, which it
/// denotes; that text is interned.
pub fn mk_attr_name_value_str(
    g: &AttrIdGenerator,
    style: AttrStyle,
    unsafety: Safety,
    name: Symbol,
    val: Symbol,
    span: Span,
    interner: &mut Interner,
) -> (r: Option<Attribute>)
    requires
        old(interner).wf(),
        old(interner).has(val),
        escape_fits(*old(interner), val),
    ensures
        final(interner).wf(),
        old(interner)@.is_prefix_of(final(interner)@),
        exists|value: u32| #[trigger] id_of_counter(value, attr_id_of(r)),
        r matches Some(a) ==> holds_item(a) matches Some(item) && made_with(a, style, span)
            && (exists|text: Symbol| #[trigger] is_name_value_str_item(item, unsafety, name, text, val, span)
                && final(interner)@[text.index() as int] == str_escape_default(old(interner)@[val.index() as int])),
{
    let text = escape_string_symbol(interner, val);
    let lit = TokenLit {
        kind: TokenLitKind::Str,
        symbol: text,
        suffix: None,
        value: Some(LitKind::Str(val, StrStyle::Cooked)),
    };
    let expr = Expr { kind: ExprKind::Lit(lit), span };
    let path = Path::from_ident(Ident::new(name, span));
    let args = AttrArgs::Eq(span, AttrArgsEq::Ast(Box::new(expr)));
    let r = mk_attr(g, style, unsafety, path, args, span);
    proof {
        if r is Some {
            let item = holds_item(r->0).unwrap();
            assert(is_name_value_str_item(item, unsafety, name, text, val, span));
        }
    }
    r
}

/// The attributes in `attrs` named `name`, in order.
pub open spec fn named(attrs: Seq<Attribute>, name: Symbol) -> Seq<Attribute>
    decreases attrs.len(),
{
    if attrs.len() == 0 {
        Seq::empty()
    } else {
        let rest = named(attrs.drop_last(), name);
        if attrs.last().spec_has_name(name) {
            rest.push(attrs.last())
        } else {
            rest
        }
    }
}

/// The first attribute in `attrs` named `name`.
pub open spec fn spec_find_by_name(attrs: Seq<Attribute>, name: Symbol) -> Option<Attribute> {
    let found = named(attrs, name);
    if found.len() > 0 {
        Some(found[0])
    } else {
        None
    }
}

/// The attributes named `name` in two sequences are those of the first
/// followed by those of the second.
pub proof fn lemma_named_append(a: Seq<Attribute>, b: Seq<Attribute>, name: Symbol)
    ensures
        named(a + b, name) == named(a, name) + named(b, name),
    decreases b.len(),
{
    if b.len() == 0 {
        assert(a + b =~= a);
        assert(named(a, name) + named(b, name) =~= named(a, name));
    } else {
        lemma_named_append(a, b.drop_last(), name);
        assert((a + b).drop_last() =~= a + b.drop_last());
        assert((a + b).last() == b.last());
        if b.last().spec_has_name(name) {
            assert(named(a, name) + named(b.drop_last(), name).push(b.last())
                =~= (named(a, name) + named(b.drop_last(), name)).push(b.last()));
        }
    }
}

/// The attributes in `attrs` named `name`, in order.
pub fn filter_by_name<'a>(attrs: &'a [Attribute], name: Symbol) -> (r: Vec<&'a Attribute>)
    ensures
        r@.map_values(|a: &Attribute| *a) == named(attrs@, name),
{
    let mut r: Vec<&'a Attribute> = Vec::new();
    let mut i: usize = 0;
    while i < attrs.len()
        invariant
            i <= attrs@.len(),
            r@.map_values(|a: &Attribute| *a) == named(attrs@.take(i as int), name),
        decreases attrs@.len() - i,
    {
        let ghost before = r@.map_values(|a: &Attribute| *a);
        proof {
            assert(attrs@.take(i + 1).drop_last() =~= attrs@.take(i as int));
        }
        if attrs[i].has_name(name) {
            r.push(&attrs[i]);
            proof {
                assert(r@.map_values(|a: &Attribute| *a) =~= before.push(attrs@[i as int]));
            }
        }
        i = i + 1;
    }
    proof {
        assert(attrs@.take(i as int) =~= attrs@);
    }
    r
}

/// The first attribute in `attrs` named `name`.
pub fn find_by_name<'a>(attrs: &'a [Attribute], name: Symbol) -> (r: Option<&'a Attribute>)
    ensures
        match spec_find_by_name(attrs@, name) {
            Some(a) => r matches Some(x) && *x == a,
            None => r is None,
        },
{
    let mut i: usize = 0;
    while i < attrs.len()
        invariant
            i <= attrs@.len(),
            named(attrs@.take(i as int), name).len() == 0,
        decreases attrs@.len() - i,
    {
        proof {
            assert(attrs@.take(i + 1).drop_last() =~= attrs@.take(i as int));
        }
        if attrs[i].has_name(name) {
            proof {
                lemma_named_append(attrs@.take(i + 1), attrs@.skip(i + 1), name);
                assert(attrs@.take(i + 1) + attrs@.skip(i + 1) =~= attrs@);
                assert(named(attrs@.take(i + 1), name) =~= seq![attrs@[i as int]]);
            }
            return Some(&attrs[i]);
        }
        i = i + 1;
    }
    proof {
        assert(attrs@.take(i as int) =~= attrs@);
    }
    None
}

/// The string value of the first attribute in `attrs` named `name`.
pub fn first_attr_value_str_by_name(attrs: &[Attribute], name: Symbol) -> (r: Option<Symbol>)
    ensures
        r == match spec_find_by_name(attrs@, name) {
            Some(a) => a.spec_value_str(),
            None => None,
        },
{
    match find_by_name(attrs, name) {
        Some(attr) => attr.value_str(),
        None => None,
    }
}

/// Whether some attribute in `attrs` is named `name`.
pub fn contains_name(attrs: &[Attribute], name: Symbol) -> (r: bool)
    ensures
        r == spec_find_by_name(attrs@, name) is Some,
{
    find_by_name(attrs, name).is_some()
}

/// Whether some item in `items` is a meta item named `name`.
pub fn list_contains_name(items: &[MetaItemInner], name: Symbol) -> (r: bool)
    ensures
        r == exists|k: int| 0 <= k < items@.len() && (#[trigger] items@[k])@.has_name(name),
{
    let mut i: usize = 0;
    while i < items.len()
        invariant
            i <= items@.len(),
            forall|k: int| 0 <= k < i ==> !(#[trigger] items@[k])@.has_name(name),
        decreases items@.len() - i,
    {
        if items[i].has_name(name) {
            return true;
        }
        i = i + 1;
    }
    false
}

} // verus!
