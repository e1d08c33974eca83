use rustc_ast::ast::{
    AttrArgs, AttrArgsEq, AttrItem, AttrKind, AttrStyle, Attribute, CommentKind, DelimArgs, Expr,
    ExprKind, LitKind, MetaItemInner, MetaItemKind, NormalAttr, Path, Safety, StrStyle,
};
use rustc_ast::attr::{
    contains_name, filter_by_name, find_by_name, first_attr_value_str_by_name, list_contains_name,
    mk_attr_from_item, mk_attr_from_item_with_id, mk_attr_name_value_str, mk_attr_nested_word,
    mk_attr_word, mk_doc_comment, mk_doc_comment_with_id, AttrIdGenerator, MarkedAttrs,
};
use rustc_ast::kw;
use rustc_ast::sym;
use rustc_ast::symbol::{Edition, Ident, Interner, Symbol};
use rustc_ast::token::{
    DelimSpan, Delimiter, IdentIsRaw, LazyAttrTokenStream, Nonterminal, Spacing, Token, TokenKind,
    TokenLit, TokenLitKind, TokenStream, TokenTree,
};
use rustc_span::{BytePos, Span};

fn sp(lo: u32, hi: u32) -> Span {
    Span::new(BytePos(lo), BytePos(hi))
}

fn tok(kind: TokenKind, lo: u32, hi: u32) -> TokenTree {
    TokenTree::Token(Token { kind, span: sp(lo, hi) }, Spacing::Alone)
}

fn ident(name: Symbol, lo: u32, hi: u32) -> TokenTree {
    tok(TokenKind::Ident(name, IdentIsRaw::No), lo, hi)
}

fn str_lit(interner: &mut Interner, text: &str) -> TokenLit {
    let symbol = interner.intern(text);
    TokenLit { kind: TokenLitKind::Str, symbol, suffix: None, value: Some(LitKind::Str(symbol, StrStyle::Cooked)) }
}

fn lit_tok(l: TokenLit, lo: u32, hi: u32) -> TokenTree {
    tok(TokenKind::Literal(l), lo, hi)
}

fn paren(trees: Vec<TokenTree>, lo: u32, hi: u32) -> TokenTree {
    TokenTree::Delimited(DelimSpan { open: sp(lo, lo + 1), close: sp(hi - 1, hi) }, Delimiter::Parenthesis, TokenStream::new(trees))
}

fn normal(path: Path, args: AttrArgs, span: Span) -> Attribute {
    Attribute {
        kind: AttrKind::Normal(Box::new(NormalAttr { item: AttrItem { unsafety: Safety::Default, path, args }, tokens: None })),
        id: rustc_ast::ast::AttrId::from_u32(0),
        style: AttrStyle::Outer,
        span,
    }
}

fn delimited(trees: Vec<TokenTree>, delim: Delimiter, lo: u32, hi: u32) -> AttrArgs {
    AttrArgs::Delimited(DelimArgs {
        dspan: DelimSpan { open: sp(lo, lo + 1), close: sp(hi - 1, hi) },
        delim,
        tokens: TokenStream::new(trees),
    })
}

fn eq_lit(l: TokenLit, lo: u32, hi: u32) -> AttrArgs {
    AttrArgs::Eq(sp(lo, lo + 1), AttrArgsEq::Ast(Box::new(Expr { kind: ExprKind::Lit(l), span: sp(lo + 2, hi) })))
}

fn path_of(name: Symbol, lo: u32, hi: u32) -> Path {
    Path::from_ident(Ident::new(name, sp(lo, hi)))
}

/// `#[attr(a, b = "c")]`
fn attr_a_b_c(i: &mut Interner) -> Attribute {
    let attr = i.intern("attr");
    let a = i.intern("a");
    let b = i.intern("b");
    let c = str_lit(i, "c");
    let trees = vec![
        ident(a, 7, 8),
        tok(TokenKind::Comma, 8, 9),
        ident(b, 10, 11),
        tok(TokenKind::Eq, 12, 13),
        lit_tok(c, 14, 17),
    ];
    normal(path_of(attr, 2, 6), delimited(trees, Delimiter::Parenthesis, 6, 18), sp(0, 19))
}

#[test]
fn meta_item_list_of_parenthesized_attribute() {
    let mut i = Interner::fresh();
    let attr = attr_a_b_c(&mut i);
    let list = attr.meta_item_list().expect("a list");
    let meta = attr.meta().expect("a meta item");
    let items = meta.meta_item_list().expect("a list");
    assert!(list_contains_name(items, i.intern("a")));
    assert_eq!(items.len(), 2);
    assert!(items[0].is_word());
    assert_eq!(items[0].name_or_empty(), i.intern("a"));
    assert_eq!(items[1].name_or_empty(), i.intern("b"));
    assert_eq!(items[1].value_str(), Some(i.intern("c")));
    let _ = list;
}

#[test]
fn meta_item_list_none_for_eq_and_word() {
    let mut i = Interner::fresh();
    let attr = i.intern("attr");
    let empty = str_lit(&mut i, "");
    let eq = normal(path_of(attr, 2, 6), eq_lit(empty, 7, 10), sp(0, 11));
    assert!(eq.meta_item_list().is_none());
    let word = normal(path_of(attr, 2, 6), AttrArgs::Empty, sp(0, 7));
    assert!(word.meta_item_list().is_none());
    assert!(word.is_word());
    assert!(!eq.is_word());
}

#[test]
fn value_str_of_name_value() {
    let mut i = Interner::fresh();
    let attribute = i.intern("attribute");
    let value = str_lit(&mut i, "value");
    let attr = normal(path_of(attribute, 2, 11), eq_lit(value, 12, 20), sp(0, 21));
    assert_eq!(attr.value_str(), Some(i.intern("value")));
    let meta = attr.meta().unwrap();
    assert_eq!(meta.value_str(), Some(i.intern("value")));
    assert_eq!(meta.name_value_literal_span(), Some(sp(14, 20)));
}

#[test]
fn value_str_none_for_list() {
    let mut i = Interner::fresh();
    let name = i.intern("attr");
    let value = str_lit(&mut i, "value");
    let attr = normal(path_of(name, 2, 6), delimited(vec![lit_tok(value, 7, 14)], Delimiter::Parenthesis, 6, 15), sp(0, 16));
    assert_eq!(attr.value_str(), None);
    let items = attr.meta().unwrap();
    let list = items.meta_item_list().unwrap();
    assert_eq!(list.len(), 1);
    assert!(list[0].lit().is_some());
    assert!(!list[0].is_meta_item());
}

#[test]
fn doc_str_and_comment_kind_examples() {
    let mut i = Interner::fresh();
    let g = AttrIdGenerator::new();
    let doc = i.intern("doc");
    let line = mk_doc_comment(&g, CommentKind::Line, AttrStyle::Outer, doc, sp(0, 6)).unwrap();
    assert_eq!(line.doc_str_and_comment_kind(), Some((doc, CommentKind::Line)));
    let block = mk_doc_comment(&g, CommentKind::Block, AttrStyle::Outer, doc, sp(0, 10)).unwrap();
    assert_eq!(block.doc_str_and_comment_kind(), Some((doc, CommentKind::Block)));
    let sugar = mk_attr_name_value_str(&g, AttrStyle::Outer, Safety::Default, sym::doc(), doc, sp(0, 14), &mut i).unwrap();
    assert_eq!(sugar.doc_str_and_comment_kind(), Some((doc, CommentKind::Line)));
    assert_eq!(sugar.doc_str(), Some(doc));
    let x = i.intern("hidden");
    let list = mk_attr_nested_word(&g, AttrStyle::Outer, Safety::Default, sym::doc(), x, sp(0, 14), Edition::Edition2021).unwrap();
    assert_eq!(list.doc_str_and_comment_kind(), None);
    assert_eq!(list.doc_str(), None);
    assert!(line.is_doc_comment());
    assert!(!sugar.is_doc_comment());
    assert_eq!(line.doc_str(), Some(doc));
    assert_eq!(line.value_str(), None);
}

#[test]
fn doc_links() {
    let mut i = Interner::fresh();
    let g = AttrIdGenerator::new();
    let with = i.intern("see [`Vec`]");
    let without = i.intern("plain text");
    let a = mk_doc_comment(&g, CommentKind::Line, AttrStyle::Outer, with, sp(0, 6)).unwrap();
    let b = mk_doc_comment(&g, CommentKind::Line, AttrStyle::Outer, without, sp(0, 6)).unwrap();
    assert!(a.may_have_doc_links(&i));
    assert!(!b.may_have_doc_links(&i));
    let c = mk_attr_word(&g, AttrStyle::Outer, Safety::Default, i.intern("inline"), sp(0, 6)).unwrap();
    assert!(!c.may_have_doc_links(&i));
}

#[test]
fn proc_macro_attrs() {
    let mut i = Interner::fresh();
    let g = AttrIdGenerator::new();
    let pm = mk_attr_word(&g, AttrStyle::Outer, Safety::Default, sym::proc_macro(), sp(0, 6)).unwrap();
    let pmd = mk_attr_nested_word(&g, AttrStyle::Outer, Safety::Default, sym::proc_macro_derive(), i.intern("Foo"), sp(0, 6), Edition::Edition2021).unwrap();
    let other = mk_attr_word(&g, AttrStyle::Outer, Safety::Default, i.intern("test"), sp(0, 6)).unwrap();
    assert!(pm.is_proc_macro_attr());
    assert!(pmd.is_proc_macro_attr());
    assert!(!other.is_proc_macro_attr());
    assert_eq!(i.intern("proc_macro"), sym::proc_macro());
    assert_eq!(i.intern("doc"), sym::doc());
}

#[test]
fn attr_ids_count_up() {
    let g = AttrIdGenerator::new();
    assert_eq!(g.mk_attr_id().unwrap().as_u32(), 0);
    assert_eq!(g.mk_attr_id().unwrap().as_u32(), 1);
    assert_eq!(g.mk_attr_id().unwrap().as_u32(), 2);
    assert!(AttrIdGenerator::id_from_counter(u32::MAX).is_none());
    assert!(AttrIdGenerator::id_from_counter(0xFFFF_FF01).is_none());
    assert_eq!(AttrIdGenerator::id_from_counter(0xFFFF_FF00).unwrap().as_u32(), 0xFFFF_FF00);
}

#[test]
fn marked_attrs() {
    let mut i = Interner::fresh();
    let g = AttrIdGenerator::new();
    let a = mk_attr_word(&g, AttrStyle::Outer, Safety::Default, i.intern("a"), sp(0, 1)).unwrap();
    let b = mk_attr_word(&g, AttrStyle::Outer, Safety::Default, i.intern("b"), sp(0, 1)).unwrap();
    let mut marks = MarkedAttrs::new();
    assert!(!marks.is_marked(&a));
    marks.mark(&a);
    assert!(marks.is_marked(&a));
    assert!(!marks.is_marked(&b));
    marks.mark(&a);
    assert!(marks.is_marked(&a));
}

#[test]
fn interner_round_trip() {
    let mut i = Interner::fresh();
    let n = i.len();
    let s = i.intern("serde");
    assert_eq!(i.as_str(s), "serde");
    assert_eq!(i.len(), n + 1);
    let again = i.intern("serde");
    assert_eq!(s, again);
    assert_eq!(i.len(), n + 1);
    assert_eq!(i.intern(""), kw::Empty());
    assert_eq!(i.intern("true"), kw::True());
    assert_eq!(i.intern("false"), kw::False());
    assert_eq!(i.as_str(kw::PathRoot()), "{{root}}");
}

#[test]
fn word_attribute() {
    let mut i = Interner::fresh();
    let g = AttrIdGenerator::new();
    let inline = i.intern("inline");
    let attr = mk_attr_word(&g, AttrStyle::Outer, Safety::Default, inline, sp(2, 8)).unwrap();
    assert!(attr.has_name(inline));
    assert!(attr.is_word());
    assert_eq!(attr.ident().unwrap().name, inline);
    assert_eq!(attr.name_or_empty(), inline);
    assert_eq!(attr.path().as_slice(), &[inline]);
    assert!(attr.path_matches(&[inline]));
    assert!(!attr.path_matches(&[inline, inline]));
    assert!(matches!(attr.meta_kind(), Some(MetaItemKind::Word)));
    let meta = attr.meta().unwrap();
    assert!(meta.is_word());
    assert!(meta.has_name(inline));
    assert_eq!(attr.value_str(), None);
}

#[test]
fn nested_word_attribute() {
    let mut i = Interner::fresh();
    let g = AttrIdGenerator::new();
    let derive = i.intern("derive");
    let debug = i.intern("Debug");
    let attr = mk_attr_nested_word(&g, AttrStyle::Outer, Safety::Default, derive, debug, sp(2, 15), Edition::Edition2021).unwrap();
    assert!(attr.has_name(derive));
    let meta = attr.meta().unwrap();
    let items = meta.meta_item_list().unwrap();
    assert_eq!(items.len(), 1);
    assert!(items[0].is_word());
    assert!(items[0].has_name(debug));
    assert!(list_contains_name(items, debug));
    assert!(!list_contains_name(items, derive));
}

#[test]
fn nested_keyword_stays_a_word() {
    let i = Interner::fresh();
    let g = AttrIdGenerator::new();
    let attr = mk_attr_nested_word(&g, AttrStyle::Outer, Safety::Default, sym::doc(), kw::True(), sp(0, 10), Edition::Edition2021).unwrap();
    let meta = attr.meta().unwrap();
    let items = meta.meta_item_list().unwrap();
    assert_eq!(items.len(), 1);
    assert!(items[0].is_meta_item());
    assert!(items[0].has_name(kw::True()));
    let _ = i;
}

#[test]
fn name_value_str_attribute_escapes() {
    let mut i = Interner::fresh();
    let g = AttrIdGenerator::new();
    let name = i.intern("cfg");
    let val = i.intern("a\"b\n");
    let attr = mk_attr_name_value_str(&g, AttrStyle::Inner, Safety::Default, name, val, sp(0, 20), &mut i).unwrap();
    assert_eq!(attr.value_str(), Some(val));
    assert!(attr.has_name(name));
    match &attr.kind {
        AttrKind::Normal(n) => match &n.item.args {
            AttrArgs::Eq(_, AttrArgsEq::Ast(expr)) => match expr.kind {
                ExprKind::Lit(l) => assert_eq!(i.as_str(l.symbol), "a\\\"b\\n"),
                ExprKind::Other => panic!("not a literal"),
            },
            _ => panic!("not name = value"),
        },
        _ => panic!("not normal"),
    }
    assert_eq!(attr.style, AttrStyle::Inner);
}

#[test]
fn lookups_by_name() {
    let mut i = Interner::fresh();
    let g = AttrIdGenerator::new();
    let a = i.intern("a");
    let b = i.intern("b");
    let x = i.intern("x");
    let y = i.intern("y");
    let attrs = vec![
        mk_attr_word(&g, AttrStyle::Outer, Safety::Default, a, sp(0, 1)).unwrap(),
        mk_attr_name_value_str(&g, AttrStyle::Outer, Safety::Default, b, x, sp(0, 1), &mut i).unwrap(),
        mk_attr_name_value_str(&g, AttrStyle::Outer, Safety::Default, b, y, sp(0, 1), &mut i).unwrap(),
    ];
    assert_eq!(filter_by_name(&attrs, b).len(), 2);
    assert_eq!(filter_by_name(&attrs, a).len(), 1);
    assert_eq!(find_by_name(&attrs, b).unwrap().id, attrs[1].id);
    assert_eq!(first_attr_value_str_by_name(&attrs, b), Some(x));
    assert_eq!(first_attr_value_str_by_name(&attrs, a), None);
    assert!(contains_name(&attrs, a));
    assert!(!contains_name(&attrs, i.intern("c")));
    assert!(find_by_name(&attrs, i.intern("c")).is_none());
}

#[test]
fn paths_with_separators() {
    let mut i = Interner::fresh();
    let attr = i.intern("attr");
    let a = i.intern("a");
    let b = i.intern("b");
    let c = i.intern("c");
    // #[attr(a::b, ::c = "v")]
    let v = str_lit(&mut i, "v");
    let trees = vec![
        ident(a, 7, 8),
        tok(TokenKind::PathSep, 8, 10),
        ident(b, 10, 11),
        tok(TokenKind::Comma, 11, 12),
        tok(TokenKind::PathSep, 13, 15),
        ident(c, 15, 16),
        tok(TokenKind::Eq, 17, 18),
        lit_tok(v, 19, 22),
    ];
    let attr = normal(path_of(attr, 2, 6), delimited(trees, Delimiter::Parenthesis, 6, 23), sp(0, 24));
    let meta = attr.meta().unwrap();
    let items = meta.meta_item_list().unwrap();
    assert_eq!(items.len(), 2);
    let first = items[0].meta_item().unwrap();
    assert_eq!(first.path.segments().len(), 2);
    assert_eq!(first.path.segments()[1].ident.name, b);
    assert!(first.ident().is_none());
    assert_eq!(first.name_or_empty(), kw::Empty());
    assert_eq!(first.span, sp(7, 11));
    let second = items[1].meta_item().unwrap();
    assert_eq!(second.path.segments()[0].ident.name, kw::PathRoot());
    assert_eq!(second.path.segments()[1].ident.name, c);
    assert_eq!(second.value_str(), Some(i.intern("v")));
    assert_eq!(second.span, sp(13, 22));
}

#[test]
fn malformed_lists() {
    let mut i = Interner::fresh();
    let attr = i.intern("attr");
    let a = i.intern("a");
    let b = i.intern("b");
    // missing comma: #[attr(a b)]
    let t1 = normal(path_of(attr, 0, 4), delimited(vec![ident(a, 5, 6), ident(b, 7, 8)], Delimiter::Parenthesis, 4, 9), sp(0, 9));
    assert!(t1.meta_item_list().is_none());
    assert!(t1.meta().is_none());
    // trailing comma is fine: #[attr(a,)]
    let t2 = normal(path_of(attr, 0, 4), delimited(vec![ident(a, 5, 6), tok(TokenKind::Comma, 6, 7)], Delimiter::Parenthesis, 4, 8), sp(0, 8));
    assert!(t2.meta_item_list().is_some());
    // brackets make no list: #[attr[a]]
    let t3 = normal(path_of(attr, 0, 4), delimited(vec![ident(a, 5, 6)], Delimiter::Bracket, 4, 7), sp(0, 7));
    assert!(t3.meta_item_list().is_none());
    assert!(t3.meta_kind().is_none());
    // a path that ends in `::`: #[attr(a::)]
    let t4 = normal(path_of(attr, 0, 4), delimited(vec![ident(a, 5, 6), tok(TokenKind::PathSep, 6, 8)], Delimiter::Parenthesis, 4, 9), sp(0, 9));
    assert!(t4.meta_item_list().is_none());
    // `=` with no literal: #[attr(a = b)]
    let t5 = normal(path_of(attr, 0, 4), delimited(vec![ident(a, 5, 6), tok(TokenKind::Eq, 7, 8), ident(b, 9, 10)], Delimiter::Parenthesis, 4, 11), sp(0, 11));
    assert!(t5.meta_item_list().is_none());
    // a literal that is not well formed: #[attr = 1x]
    let bad = TokenLit { kind: TokenLitKind::Integer, symbol: i.intern("1x"), suffix: None, value: None };
    let t6 = normal(path_of(attr, 0, 4), eq_lit(bad, 5, 8), sp(0, 8));
    assert!(t6.meta().is_none());
    assert!(t6.value_str().is_none());
}

#[test]
fn nested_lists_and_booleans() {
    let mut i = Interner::fresh();
    let attr = i.intern("attr");
    let a = i.intern("a");
    let b = i.intern("b");
    // #[attr(a(true), b)]
    let inner = paren(vec![ident(kw::True(), 7, 11)], 6, 12);
    let trees = vec![ident(a, 5, 6), inner, tok(TokenKind::Comma, 12, 13), ident(b, 14, 15)];
    let attr = normal(path_of(attr, 0, 4), delimited(trees, Delimiter::Parenthesis, 4, 16), sp(0, 16));
    let meta = attr.meta().unwrap();
    let items = meta.meta_item_list().unwrap();
    assert_eq!(items.len(), 2);
    let (name, lit) = items[0].singleton_lit_list().unwrap();
    assert_eq!(name, a);
    assert!(matches!(lit.kind, LitKind::Bool(true)));
    assert_eq!(items[0].meta_item().unwrap().span, sp(5, 12));
    let inner_items = items[0].meta_item_list().unwrap();
    assert!(inner_items[0].meta_item_or_bool().is_some());
    assert!(items[1].singleton_lit_list().is_none());
    assert!(items[1].meta_item_or_bool().is_some());
}

#[test]
fn literals_that_are_not_bool() {
    let mut i = Interner::fresh();
    let attr = i.intern("attr");
    let s = str_lit(&mut i, "s");
    let trees = vec![lit_tok(s, 5, 8)];
    let attr = normal(path_of(attr, 0, 4), delimited(trees, Delimiter::Parenthesis, 4, 9), sp(0, 9));
    let meta = attr.meta().unwrap();
    let items = meta.meta_item_list().unwrap();
    assert!(items[0].meta_item_or_bool().is_none());
    assert_eq!(items[0].span(), sp(5, 8));
    assert!(items[0].ident().is_none());
    assert!(!items[0].has_name(i.intern("s")));
}

#[test]
fn interpolated_fragments() {
    let mut i = Interner::fresh();
    let attr = i.intern("attr");
    let a = i.intern("a");
    let m = i.intern("m");
    // an interpolated meta item `m = "v"`, and a path `a`
    let v = str_lit(&mut i, "v");
    let meta_item = AttrItem { unsafety: Safety::Default, path: path_of(m, 10, 11), args: eq_lit(v, 12, 16) };
    let nt_meta = tok(TokenKind::Interpolated(Box::new(Nonterminal::NtMeta(Box::new(meta_item)))), 10, 16);
    let nt_path = tok(TokenKind::Interpolated(Box::new(Nonterminal::NtPath(Box::new(path_of(a, 20, 21))))), 20, 21);
    let nt_ident = tok(TokenKind::NtIdent(Ident::new(a, sp(30, 31)), IdentIsRaw::No), 30, 31);
    let trees = vec![nt_meta, tok(TokenKind::Comma, 16, 17), nt_path, tok(TokenKind::Comma, 21, 22), nt_ident];
    let attr = normal(path_of(attr, 0, 4), delimited(trees, Delimiter::Parenthesis, 4, 40), sp(0, 40));
    let meta = attr.meta().unwrap();
    let items = meta.meta_item_list().unwrap();
    assert_eq!(items.len(), 3);
    assert_eq!(items[0].value_str(), Some(i.intern("v")));
    assert!(items[0].has_name(m));
    assert!(items[1].has_name(a));
    assert!(items[2].has_name(a));
    assert_eq!(items[2].meta_item().unwrap().span, sp(30, 31));
}

#[test]
fn invisible_groups() {
    let mut i = Interner::fresh();
    let attr = i.intern("attr");
    let a = i.intern("a");
    let v = str_lit(&mut i, "v");
    let invisible_value = TokenTree::Delimited(DelimSpan { open: sp(9, 9), close: sp(12, 12) }, Delimiter::Invisible, TokenStream::new(vec![lit_tok(v, 9, 12)]));
    let invisible_item = TokenTree::Delimited(DelimSpan { open: sp(14, 14), close: sp(15, 15) }, Delimiter::Invisible, TokenStream::new(vec![ident(a, 14, 15)]));
    let trees = vec![ident(a, 5, 6), tok(TokenKind::Eq, 7, 8), invisible_value, tok(TokenKind::Comma, 12, 13), invisible_item];
    let attr = normal(path_of(attr, 0, 4), delimited(trees, Delimiter::Parenthesis, 4, 16), sp(0, 16));
    let meta = attr.meta().unwrap();
    let items = meta.meta_item_list().unwrap();
    assert_eq!(items.len(), 2);
    assert_eq!(items[0].value_str(), Some(i.intern("v")));
    assert!(items[1].is_word());
}

#[test]
fn attr_item_spans() {
    let mut i = Interner::fresh();
    let name = i.intern("attr");
    let v = str_lit(&mut i, "v");
    let item = AttrItem { unsafety: Safety::Default, path: path_of(name, 2, 6), args: eq_lit(v, 7, 12) };
    assert_eq!(item.span(), sp(2, 12));
    let word = AttrItem { unsafety: Safety::Default, path: path_of(name, 2, 6), args: AttrArgs::Empty };
    assert_eq!(word.span(), sp(2, 6));
    let list = AttrItem { unsafety: Safety::Default, path: path_of(name, 2, 6), args: delimited(vec![], Delimiter::Parenthesis, 6, 8) };
    assert_eq!(list.span(), sp(2, 8));
    assert!(list.meta_item_list().is_some());
}

#[test]
fn token_trees_of_attributes() {
    let mut i = Interner::fresh();
    let g = AttrIdGenerator::new();
    let text = i.intern("docs");
    let doc = mk_doc_comment(&g, CommentKind::Line, AttrStyle::Inner, text, sp(0, 8)).unwrap();
    let trees = doc.token_trees();
    assert_eq!(trees.len(), 1);
    match &trees[0] {
        TokenTree::Token(t, Spacing::Alone) => match t.kind {
            TokenKind::DocComment(CommentKind::Line, AttrStyle::Inner, s) => assert_eq!(s, text),
            _ => panic!("not a doc comment token"),
        },
        _ => panic!("not a token"),
    }
    let name = i.intern("attr");
    let stream = TokenStream::new(vec![tok(TokenKind::Pound, 0, 1), paren(vec![ident(name, 2, 6)], 1, 7)]);
    let attr = Attribute {
        kind: AttrKind::Normal(Box::new(NormalAttr {
            item: AttrItem { unsafety: Safety::Default, path: path_of(name, 2, 6), args: AttrArgs::Empty },
            tokens: Some(LazyAttrTokenStream { stream }),
        })),
        id: rustc_ast::ast::AttrId::from_u32(3),
        style: AttrStyle::Outer,
        span: sp(0, 7),
    };
    let trees = attr.token_trees();
    assert_eq!(trees.len(), 2);
    assert!(matches!(&trees[1], TokenTree::Delimited(_, Delimiter::Parenthesis, s) if s.trees.len() == 1));
}

#[test]
fn normal_items() {
    let mut i = Interner::fresh();
    let g = AttrIdGenerator::new();
    let name = i.intern("test");
    let attr = mk_attr_word(&g, AttrStyle::Outer, Safety::Default, name, sp(0, 4)).unwrap();
    assert!(attr.get_normal_item().path.is_name(name));
    let item = attr.unwrap_normal_item();
    assert!(matches!(item.meta_kind(), Some(MetaItemKind::Word)));
    assert!(item.meta(sp(0, 4)).unwrap().has_name(name));
}

#[test]
fn inner_item_accessors() {
    let mut i = Interner::fresh();
    let g = AttrIdGenerator::new();
    let outer = i.intern("outer");
    let inner = i.intern("inner");
    let attr = mk_attr_nested_word(&g, AttrStyle::Outer, Safety::Default, outer, inner, sp(0, 12), Edition::Edition2021).unwrap();
    let meta = attr.meta().unwrap();
    let item: &MetaItemInner = &meta.meta_item_list().unwrap()[0];
    assert_eq!(item.ident().unwrap().name, inner);
    assert_eq!(item.name_or_empty(), inner);
    assert!(item.meta_item_list().is_none());
    assert!(item.name_value_literal_span().is_none());
    assert!(item.value_str().is_none());
    assert!(item.lit().is_none());
    assert_eq!(item.span(), sp(0, 12));
    assert!(meta.name_value_literal().is_none());
}

#[test]
fn word_list_reads_back() {
    let mut i = Interner::fresh();
    let attr = i.intern("attr");
    let names = ["a", "b", "c", "d"];
    let mut trees = Vec::new();
    for (k, n) in names.iter().enumerate() {
        let s = i.intern(n);
        let lo = 5 + 3 * k as u32;
        if k > 0 {
            trees.push(tok(TokenKind::Comma, lo - 2, lo - 1));
        }
        trees.push(ident(s, lo, lo + 1));
    }
    let attr = normal(path_of(attr, 0, 4), delimited(trees, Delimiter::Parenthesis, 4, 20), sp(0, 20));
    let meta = attr.meta().unwrap();
    let items = meta.meta_item_list().unwrap();
    assert_eq!(items.len(), names.len());
    for (k, n) in names.iter().enumerate() {
        assert!(items[k].is_word());
        assert_eq!(items[k].name_or_empty(), i.intern(n));
        let lo = 5 + 3 * k as u32;
        assert_eq!(items[k].span(), sp(lo, lo + 1));
    }
}

#[test]
fn marking_leaves_other_ids() {
    let g = AttrIdGenerator::new();
    let mut i = Interner::fresh();
    let attrs: Vec<Attribute> = (0..5).map(|k| mk_attr_word(&g, AttrStyle::Outer, Safety::Default, i.intern(&format!("a{}", k)), sp(0, 1)).unwrap()).collect();
    let mut marks = MarkedAttrs::new();
    marks.mark(&attrs[3]);
    for (k, a) in attrs.iter().enumerate() {
        assert_eq!(marks.is_marked(a), k == 3);
    }
}

#[test]
fn empty_ident_and_raw_guess() {
    let mut i = Interner::fresh();
    let e = Ident::empty();
    assert_eq!(e.name, kw::Empty());
    assert_eq!(e.span, rustc_span::DUMMY_SP);
    let e15 = Edition::Edition2015;
    let e18 = Edition::Edition2018;
    let e21 = Edition::Edition2021;
    let e24 = Edition::Edition2024;
    assert!(Ident::new(kw::True(), sp(0, 4)).is_raw_guess(e15));
    assert!(Ident::new(i.intern("match"), sp(0, 5)).is_raw_guess(e15));
    assert!(!Ident::new(i.intern("self"), sp(0, 4)).is_raw_guess(e21));
    assert!(!Ident::new(i.intern("name"), sp(0, 4)).is_raw_guess(e24));
    // `async`, `await`, `dyn` and `try` are reserved from 2018 on, `gen` from 2024 on.
    for kw_text in ["async", "await", "dyn", "try"] {
        let s = i.intern(kw_text);
        assert!(!Ident::new(s, sp(0, 5)).is_raw_guess(e15));
        assert!(Ident::new(s, sp(0, 5)).is_raw_guess(e18));
        assert!(Ident::new(s, sp(0, 5)).is_raw_guess(e21));
        assert!(Ident::new(s, sp(0, 5)).is_raw_guess(e24));
    }
    let gen = i.intern("gen");
    assert!(!Ident::new(gen, sp(0, 3)).is_raw_guess(e15));
    assert!(!Ident::new(gen, sp(0, 3)).is_raw_guess(e21));
    assert!(Ident::new(gen, sp(0, 3)).is_raw_guess(e24));
    let t = Token::from_ast_ident(Ident::new(i.intern("yield"), sp(1, 6)), e15);
    assert!(matches!(t.kind, TokenKind::Ident(_, IdentIsRaw::Yes)));
    assert_eq!(t.span, sp(1, 6));
}

#[test]
fn delim_span_entire() {
    let d = DelimSpan { open: sp(3, 4), close: sp(9, 10) };
    assert_eq!(d.entire(), sp(3, 10));
    let s = DelimSpan::from_single(sp(5, 7));
    assert_eq!(s.open, sp(5, 7));
    assert_eq!(s.close, sp(5, 7));
}

fn nested_inner_raw(attr: &Attribute) -> IdentIsRaw {
    match &attr.get_normal_item().args {
        AttrArgs::Delimited(d) => match &d.tokens.trees[0] {
            TokenTree::Token(Token { kind: TokenKind::Ident(_, raw), .. }, _) => *raw,
            _ => panic!("the inner tree is not an identifier"),
        },
        _ => panic!("the arguments are not delimited"),
    }
}

#[test]
fn nested_word_raw_by_edition() {
    let mut i = Interner::fresh();
    let g = AttrIdGenerator::new();
    let outer = i.intern("outer");
    let asy = i.intern("async");
    let a15 = mk_attr_nested_word(&g, AttrStyle::Outer, Safety::Default, outer, asy, sp(0, 14), Edition::Edition2015).unwrap();
    let a18 = mk_attr_nested_word(&g, AttrStyle::Outer, Safety::Default, outer, asy, sp(0, 14), Edition::Edition2018).unwrap();
    assert_eq!(nested_inner_raw(&a15), IdentIsRaw::No);
    assert_eq!(nested_inner_raw(&a18), IdentIsRaw::Yes);
    let gen = i.intern("gen");
    let g21 = mk_attr_nested_word(&g, AttrStyle::Outer, Safety::Default, outer, gen, sp(0, 12), Edition::Edition2021).unwrap();
    let g24 = mk_attr_nested_word(&g, AttrStyle::Outer, Safety::Default, outer, gen, sp(0, 12), Edition::Edition2024).unwrap();
    assert_eq!(nested_inner_raw(&g21), IdentIsRaw::No);
    assert_eq!(nested_inner_raw(&g24), IdentIsRaw::Yes);
    // A raw inner word still reads back as a word of that name.
    let meta = a18.meta().unwrap();
    let items = meta.meta_item_list().unwrap();
    assert!(items[0].has_name(asy));
}

#[test]
fn makers_draw_ids_in_turn() {
    let mut i = Interner::fresh();
    let g = AttrIdGenerator::new();
    let name = i.intern("a");
    let a0 = mk_attr_word(&g, AttrStyle::Outer, Safety::Default, name, sp(0, 1)).unwrap();
    let a1 = mk_doc_comment(&g, CommentKind::Line, AttrStyle::Inner, name, sp(2, 3)).unwrap();
    assert_eq!(a0.id.as_u32(), 0);
    assert_eq!(a1.id.as_u32(), 1);
    assert_eq!(a1.style, AttrStyle::Inner);
    assert_eq!(a1.span, sp(2, 3));
    assert!(a0.has_name(name));
    let item = AttrItem { unsafety: Safety::Default, path: Path::from_ident(Ident::new(name, sp(0, 1))), args: AttrArgs::Empty };
    let a2 = mk_attr_from_item(&g, item, None, AttrStyle::Outer, sp(0, 1)).unwrap();
    assert_eq!(a2.id.as_u32(), 2);
    assert!(a2.has_name(name));
}

#[test]
fn builders_keep_the_given_id() {
    let mut i = Interner::fresh();
    let g = AttrIdGenerator::new();
    let name = i.intern("b");
    let id = g.mk_attr_id().unwrap();
    let d = mk_doc_comment_with_id(CommentKind::Block, AttrStyle::Outer, name, sp(4, 9), id);
    assert_eq!(d.id, id);
    assert_eq!(d.doc_str(), Some(name));
    assert_eq!(d.span, sp(4, 9));
    let item = AttrItem { unsafety: Safety::Default, path: Path::from_ident(Ident::new(name, sp(0, 1))), args: AttrArgs::Empty };
    let n = mk_attr_from_item_with_id(item, None, AttrStyle::Inner, sp(0, 1), id);
    assert_eq!(n.id, id);
    assert_eq!(n.style, AttrStyle::Inner);
    assert!(n.has_name(name));
}
