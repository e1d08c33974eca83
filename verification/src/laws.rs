//! Properties that hold of attributes and meta items across the
//! operations of the library.
use vstd::prelude::*;
use rustc_span::Span;
use crate::ast::{AttrStyle, Attribute, CommentKind, AttrKind, PathSegment, SMetaItem, SMetaItemInner, SMetaItemKind, SPath, Safety};
use crate::attr::{
    holds_item, is_name_value_str_item, is_nested_word_item, is_word_item, made_with, named,
    spec_find_by_name,
};
use crate::parse::{spec_list, spec_inner, spec_meta_item, spec_finish, spec_kind, spec_meta_lit_from_token, spec_path_segments, spec_token_lit, spec_tree_ident, is_path_sep, is_comma};
use crate::span::{span_hi, span_with_hi};
use crate::symbol::{is_first_index_of, Edition, Ident, Symbol, KW_PATH_ROOT, SYM_DOC, SYM_PROC_MACRO, SYM_PROC_MACRO_ATTRIBUTE, SYM_PROC_MACRO_DERIVE};
use crate::token::{raw_guess_flag, spec_uninterpolate, Spacing, Token, TokenKind, TokenTree};

verus! {

/// A meta item read as a single word spans exactly its path.
pub proof fn law_word_item_spans_its_path(ts: Seq<TokenTree>, path: SPath, k: int)
    requires
        spec_finish(ts, path, k) matches Some((m, _)) && m.kind is Word,
    ensures
        spec_finish(ts, path, k) matches Some((m, _)) && m.span == path.span,
{
}

/// An attribute is named `name` exactly when it has a single segment and
/// that segment is `name`.
pub proof fn law_has_name_is_single_ident(attr: Attribute, name: Symbol)
    ensures
        attr.spec_has_name(name) <==> (attr.spec_ident() matches Some(id) && id.name == name),
{
}

/// The text of an attribute's documentation is the text part of its
/// documentation and comment kind.
pub proof fn law_doc_str_is_text_of_doc_str_and_comment_kind(attr: Attribute)
    ensures
        attr.spec_doc_str() == match attr.spec_doc_str_and_comment_kind() {
            Some((s, _)) => Some(s),
            None => None,
        },
{
}

/// A doc comment has documentation, is not a word, and has no meta item,
/// no list and no string value.
pub proof fn law_doc_comment_has_no_meta(attr: Attribute)
    requires
        attr.spec_is_doc_comment(),
    ensures
        attr.spec_doc_str() is Some,
        !attr.spec_is_word(),
        attr.spec_meta() is None,
        attr.spec_meta_kind() is None,
        attr.spec_meta_item_list() is None,
        attr.spec_value_str() is None,
        attr.spec_path() == seq![Symbol { idx: SYM_DOC }],
{
}

/// The meta item of an attribute exists exactly when its kind does, and
/// has that kind.
pub proof fn law_meta_has_meta_kind(attr: Attribute)
    ensures
        attr.spec_meta() is Some <==> attr.spec_meta_kind() is Some,
        attr.spec_meta() matches Some(m) ==> attr.spec_meta_kind() == Some(m.kind),
{
}

/// The meta item list of an attribute is the list its meta item holds.
pub proof fn law_meta_item_list_is_list_kind(attr: Attribute)
    ensures
        attr.spec_meta_item_list() matches Some(items) ==> attr.spec_meta_kind() == Some(SMetaItemKind::List(items)),
{
}

/// The string value of an attribute is that of its meta item.
pub proof fn law_value_str_is_meta_value_str(attr: Attribute)
    ensures
        attr.spec_value_str() == match attr.spec_meta() {
            Some(m) => m.value_str(),
            None => None,
        },
{
}

/// A path that matches `[name]` is named `name`; one named `name` without
/// generic arguments matches `[name]`.
pub proof fn law_path_matches_single(attr: Attribute, name: Symbol)
    ensures
        attr.spec_path_matches(seq![name]) ==> attr.spec_has_name(name),
        attr.spec_has_name(name) && attr.normal_item().path@.segments[0].args is None
            ==> attr.spec_path_matches(seq![name]),
{
    if attr.spec_path_matches(seq![name]) {
        let segs = attr.normal_item().path@.segments;
        assert(segs[0].ident.name == seq![name][0]);
    }
}

/// An attribute named `name` has the path `[name]`.
pub proof fn law_has_name_path(attr: Attribute, name: Symbol)
    requires
        attr.spec_has_name(name),
    ensures
        attr.spec_path() == seq![name],
{
    assert(attr.spec_path() =~= seq![name]);
}

/// A list item named `name`, or that is a word, or that has a name or a
/// string value, is a meta item; an item is a literal exactly when it is
/// not a meta item.
pub proof fn law_inner_kinds(item: SMetaItemInner, name: Symbol)
    ensures
        item.has_name(name) ==> item.is_meta_item(),
        item.is_word() ==> item.is_meta_item(),
        item.ident() is Some ==> item.is_meta_item(),
        item.value_str() is Some ==> item.is_meta_item(),
        item.lit() is Some <==> !item.is_meta_item(),
        item.is_meta_item() ==> item.is_meta_item_or_bool(),
{
}

/// `#[name]`, as made: it is named `name`, is a word, has the identifier
/// `name`, the path `[name]`, the meta item kind of a word, and no list,
/// string value or documentation.
pub proof fn law_mk_attr_word(attr: Attribute, style: AttrStyle, unsafety: Safety, name: Symbol, span: Span)
    requires
        holds_item(attr) matches Some(item) && is_word_item(item, unsafety, name, span),
        made_with(attr, style, span),
    ensures
        attr.spec_has_name(name),
        attr.spec_is_word(),
        attr.spec_ident() == Some(Ident { name, span }),
        attr.spec_path() == seq![name],
        attr.spec_meta_kind() == Some(SMetaItemKind::Word),
        attr.spec_meta_item_list() is None,
        attr.spec_value_str() is None,
        !attr.spec_is_doc_comment(),
{
    assert(attr.spec_path() =~= seq![name]);
}

/// `#[outer(inner)]`, as made: it is named `outer`, and its list holds one
/// item, the word `inner` (a keyword is written raw, so that `true` and
/// `false` stay words).
pub proof fn law_mk_attr_nested_word(attr: Attribute, style: AttrStyle, unsafety: Safety, outer: Symbol, inner: Symbol, span: Span, edition: Edition)
    requires
        holds_item(attr) matches Some(item) && is_nested_word_item(item, unsafety, outer, inner, span, edition),
        made_with(attr, style, span),
    ensures
        attr.spec_has_name(outer),
        attr.spec_meta_item_list() == Some(seq![
            SMetaItemInner::MetaItem(SMetaItem {
                unsafety: Safety::Default,
                path: SPath::from_ident(Ident { name: inner, span }),
                kind: SMetaItemKind::Word,
                span,
            }),
        ]),
        attr.spec_meta_item_list() matches Some(items) && items.len() == 1 && items[0].has_name(inner) && items[0].is_word(),
        attr.spec_value_str() is None,
{
    let item = holds_item(attr).unwrap();
    let d = item.args->Delimited_0;
    let ts = d.tokens.trees@;
    let tt = ts[0];
    let tok = Token { kind: TokenKind::Ident(inner, raw_guess_flag(Ident { name: inner, span }, edition)), span };
    assert(tt == TokenTree::Token(tok, Spacing::Alone));
    assert(spec_uninterpolate(tok) == tok);
    assert(spec_token_lit(tok) is None);
    assert(spec_meta_lit_from_token(tok) is None);
    assert(spec_kind(ts, 1) == Some((SMetaItemKind::Word, 1int)));
    let ident = Ident { name: inner, span };
    assert(spec_finish(ts, SPath::from_ident(ident), 1) == Some((
        SMetaItem {
            unsafety: Safety::Default,
            path: SPath::from_ident(ident),
            kind: SMetaItemKind::Word,
            span,
        },
        1int,
    )));
    assert(spec_meta_item(ts, 0) is Some);
    assert(spec_inner(ts, 0) is Some);
    assert(spec_list(ts, 1) == Some(Seq::<SMetaItemInner>::empty()));
    let expected = seq![
        SMetaItemInner::MetaItem(SMetaItem {
            unsafety: Safety::Default,
            path: SPath::from_ident(ident),
            kind: SMetaItemKind::Word,
            span,
        }),
    ];
    assert(spec_list(ts, 0) == Some(expected));
}

/// `#[name = "val"]`, as made: it is named `name`, and its string value is
/// `val`; made with the name `doc`, its documentation is `val`.
pub proof fn law_mk_attr_name_value_str(attr: Attribute, style: AttrStyle, unsafety: Safety, name: Symbol, text: Symbol, val: Symbol, span: Span)
    requires
        holds_item(attr) matches Some(item) && is_name_value_str_item(item, unsafety, name, text, val, span),
        made_with(attr, style, span),
    ensures
        attr.spec_has_name(name),
        attr.spec_value_str() == Some(val),
        !attr.spec_is_word(),
        name.index() == SYM_DOC ==> attr.spec_doc_str() == Some(val),
        name.index() == SYM_DOC ==> attr.spec_doc_str_and_comment_kind() == Some((val, CommentKind::Line)),
{
}

/// A doc comment, as made: its documentation is its text, with its kind.
pub proof fn law_mk_doc_comment(attr: Attribute, style: AttrStyle, comment_kind: CommentKind, data: Symbol, span: Span)
    requires
        attr.kind == AttrKind::DocComment(comment_kind, data),
        made_with(attr, style, span),
    ensures
        attr.spec_is_doc_comment(),
        attr.spec_doc_str() == Some(data),
        attr.spec_doc_str_and_comment_kind() == Some((data, comment_kind)),
{
}

/// Every attribute that `filter_by_name` gives is named `name`, and one of
/// them is given exactly when some attribute is named `name`.
pub proof fn law_named_attrs(attrs: Seq<Attribute>, name: Symbol)
    ensures
        forall|k: int| 0 <= k < named(attrs, name).len() ==> (#[trigger] named(attrs, name)[k]).spec_has_name(name),
        named(attrs, name).len() > 0 <==> exists|k: int| 0 <= k < attrs.len() && (#[trigger] attrs[k]).spec_has_name(name),
    decreases attrs.len(),
{
    if attrs.len() > 0 {
        law_named_attrs(attrs.drop_last(), name);
        if exists|k: int| 0 <= k < attrs.drop_last().len() && (#[trigger] attrs.drop_last()[k]).spec_has_name(name) {
            let k = choose|k: int| 0 <= k < attrs.drop_last().len() && (#[trigger] attrs.drop_last()[k]).spec_has_name(name);
            assert(attrs[k] == attrs.drop_last()[k]);
        }
        if exists|k: int| 0 <= k < attrs.len() && (#[trigger] attrs[k]).spec_has_name(name) {
            let k = choose|k: int| 0 <= k < attrs.len() && (#[trigger] attrs[k]).spec_has_name(name);
            if k < attrs.len() - 1 {
                assert(attrs.drop_last()[k] == attrs[k]);
            }
        }
    }
}

/// `find_by_name` gives the first attribute named `name`: one is found
/// exactly when some attribute has the name, and the one found has it and
/// comes before every other that has it.
pub proof fn law_find_by_name_is_first(attrs: Seq<Attribute>, name: Symbol)
    ensures
        spec_find_by_name(attrs, name) is Some <==> exists|k: int| 0 <= k < attrs.len() && (#[trigger] attrs[k]).spec_has_name(name),
        spec_find_by_name(attrs, name) matches Some(a) ==> exists|k: int| 0 <= k < attrs.len() && #[trigger] attrs[k] == a
            && a.spec_has_name(name) && forall|j: int| 0 <= j < k ==> !(#[trigger] attrs[j]).spec_has_name(name),
    decreases attrs.len(),
{
    law_named_attrs(attrs, name);
    if attrs.len() > 0 {
        law_find_by_name_is_first(attrs.drop_last(), name);
        let init = attrs.drop_last();
        if spec_find_by_name(init, name) is Some {
            let a = spec_find_by_name(init, name).unwrap();
            let k = choose|k: int| 0 <= k < init.len() && #[trigger] init[k] == a && a.spec_has_name(name)
                && forall|j: int| 0 <= j < k ==> !(#[trigger] init[j]).spec_has_name(name);
            assert(named(attrs, name)[0] == named(init, name)[0]);
            assert(attrs[k] == init[k]);
            assert forall|j: int| 0 <= j < k implies !(#[trigger] attrs[j]).spec_has_name(name) by {
                assert(attrs[j] == init[j]);
            }
        } else if spec_find_by_name(attrs, name) is Some {
            let k = attrs.len() - 1;
            assert(named(init, name).len() == 0);
            assert forall|j: int| 0 <= j < k implies !(#[trigger] attrs[j]).spec_has_name(name) by {
                assert(attrs[j] == init[j]);
                if attrs[j].spec_has_name(name) {
                    assert(init[j].spec_has_name(name));
                }
            }
        }
    }
}

/// Interning is a function of the text: a text has one first index, and
/// an index is the first of one text.
pub proof fn law_interned_symbol_is_unique(t: Seq<Seq<char>>, a: Seq<char>, b: Seq<char>, i: int, j: int)
    requires
        is_first_index_of(t, a, i),
        is_first_index_of(t, b, j),
    ensures
        i == j <==> a == b,
{
    if a == b && i != j {
        if i < j {
            assert(t[i] == b);
        } else {
            assert(t[j] == a);
        }
    }
}

/// The token tree of the word `id`, raw where it is a keyword.
pub open spec fn word_tree(id: Ident, edition: Edition) -> TokenTree {
    TokenTree::Token(Token { kind: TokenKind::Ident(id.name, raw_guess_flag(id, edition)), span: id.span }, Spacing::Alone)
}

/// The token tree of a comma at `span`.
pub open spec fn comma_tree(span: Span) -> TokenTree {
    TokenTree::Token(Token { kind: TokenKind::Comma, span }, Spacing::Alone)
}

/// The trees of the words `ids` separated by commas at `comma`:
/// `a, b, c`; keywords of `edition` are written raw.
pub open spec fn word_trees(ids: Seq<Ident>, comma: Span, edition: Edition) -> Seq<TokenTree> {
    Seq::new((2 * ids.len() - 1) as nat, |p: int| if p % 2 == 0 { word_tree(ids[p / 2], edition) } else { comma_tree(comma) })
}

/// The list item that the word `id` reads as.
pub open spec fn word_item(id: Ident) -> SMetaItemInner {
    SMetaItemInner::MetaItem(SMetaItem {
        unsafety: Safety::Default,
        path: SPath::from_ident(id),
        kind: SMetaItemKind::Word,
        span: id.span,
    })
}

/// Words separated by commas read as a list of those words, in order.
pub proof fn law_word_list_reads_back(ids: Seq<Ident>, comma: Span, edition: Edition)
    requires
        ids.len() > 0,
    ensures
        spec_list(word_trees(ids, comma, edition), 0) == Some(ids.map_values(|id: Ident| word_item(id))),
{
    lemma_word_list_from(ids, comma, edition, 0);
    assert(ids.skip(0) =~= ids);
}

/// From the `k`th word on, the words read as the list of the remaining
/// words.
proof fn lemma_word_list_from(ids: Seq<Ident>, comma: Span, edition: Edition, k: int)
    requires
        0 <= k < ids.len(),
    ensures
        spec_list(word_trees(ids, comma, edition), 2 * k) == Some(ids.skip(k).map_values(|id: Ident| word_item(id))),
    decreases ids.len() - k,
{
    let ts = word_trees(ids, comma, edition);
    let n = ids.len();
    let p = 2 * k;
    assert(ts.len() == 2 * n - 1);
    assert(p % 2 == 0 && p / 2 == k);
    let id = ids[k];
    let tok = Token { kind: TokenKind::Ident(id.name, raw_guess_flag(id, edition)), span: id.span };
    assert(ts[p] == TokenTree::Token(tok, Spacing::Alone));
    assert(spec_uninterpolate(tok) == tok);
    assert(spec_token_lit(tok) is None);
    assert(spec_meta_lit_from_token(tok) is None);
    if p + 1 < ts.len() {
        assert((p + 1) % 2 == 1);
        assert(ts[p + 1] == comma_tree(comma));
        assert(!is_path_sep(ts[p + 1]));
        assert(is_comma(ts[p + 1]));
    }
    assert(spec_kind(ts, p + 1) == Some((SMetaItemKind::Word, p + 1)));
    assert(spec_finish(ts, SPath::from_ident(id), p + 1) == Some((
        SMetaItem {
            unsafety: Safety::Default,
            path: SPath::from_ident(id),
            kind: SMetaItemKind::Word,
            span: id.span,
        },
        p + 1,
    )));
    assert(Ident { name: id.name, span: id.span } == id);
    assert(spec_meta_item(ts, p) == Some((
        SMetaItem {
            unsafety: Safety::Default,
            path: SPath::from_ident(id),
            kind: SMetaItemKind::Word,
            span: id.span,
        },
        p + 1,
    )));
    assert(spec_inner(ts, p) == Some((word_item(id), p + 1)));
    let rest = ids.skip(k).map_values(|id: Ident| word_item(id));
    if k + 1 < n {
        lemma_word_list_from(ids, comma, edition, k + 1);
        assert(rest =~= seq![word_item(id)] + ids.skip(k + 1).map_values(|id: Ident| word_item(id)));
    } else {
        assert(rest =~= seq![word_item(id)]);
    }
}

/// Marking an attribute marks it, and leaves the marks of other ids as
/// they were.
pub proof fn law_mark_then_is_marked(marked: Set<nat>, a: Attribute, b: Attribute)
    ensures
        marked.insert(a.id.value()).contains(a.id.value()),
        b.id.value() != a.id.value() ==> (marked.insert(a.id.value()).contains(b.id.value()) == marked.contains(b.id.value())),
{
}

/// The trees from position `k` on are the identifiers `ids` separated by
/// `::`, and no `::` follows the last of them: `x1 :: x2 :: ... :: xn`.
pub open spec fn reads_as_path(ts: Seq<TokenTree>, k: int, ids: Seq<Ident>) -> bool
    decreases ids.len(),
{
    if ids.len() == 0 {
        false
    } else {
        &&& 0 <= k < ts.len()
        &&& spec_tree_ident(ts[k]) == Some(ids[0])
        &&& if ids.len() == 1 {
            k + 1 == ts.len() || !is_path_sep(ts[k + 1])
        } else {
            k + 1 < ts.len() && is_path_sep(ts[k + 1]) && reads_as_path(ts, k + 2, ids.drop_first())
        }
    }
}

/// The path segments of the identifiers `ids`, in order, without
/// generic arguments.
pub open spec fn idents_as_segments(ids: Seq<Ident>) -> Seq<PathSegment> {
    ids.map_values(|id: Ident| PathSegment { ident: id, args: None })
}

/// Reading `x1 :: x2 :: ... :: xn` gives one segment per identifier, in
/// order, after those read before, and stops after `xn`.
pub proof fn law_path_reads_every_segment(ts: Seq<TokenTree>, k: int, ids: Seq<Ident>, segs: Seq<PathSegment>)
    requires
        reads_as_path(ts, k, ids),
    ensures
        spec_path_segments(ts, k, segs) == Some((segs + idents_as_segments(ids), k + 2 * ids.len() - 1)),
    decreases ids.len(),
{
    let seg0 = PathSegment { ident: ids[0], args: None };
    if ids.len() > 1 {
        law_path_reads_every_segment(ts, k + 2, ids.drop_first(), segs.push(seg0));
        assert(segs.push(seg0) + idents_as_segments(ids.drop_first()) =~= segs + idents_as_segments(ids));
    } else {
        assert(segs.push(seg0) =~= segs + idents_as_segments(ids));
    }
}

/// A meta item written `x1 :: x2 :: ... :: xn` (n at least 2) has the path
/// of exactly the segments `x1` .. `xn`, spanning from `x1` to `xn`; what
/// follows the path is read after `xn`.
pub proof fn law_meta_item_path_has_every_segment(ts: Seq<TokenTree>, i: int, ids: Seq<Ident>)
    requires
        ids.len() >= 2,
        reads_as_path(ts, i, ids),
    ensures
        spec_meta_item(ts, i) == spec_finish(
            ts,
            SPath { span: span_with_hi(ids[0].span, span_hi(ids.last().span)), segments: idents_as_segments(ids) },
            i + 2 * ids.len() - 1,
        ),
{
    let seg0 = PathSegment { ident: ids[0], args: None };
    law_path_reads_every_segment(ts, i + 2, ids.drop_first(), seq![seg0]);
    assert(seq![seg0] + idents_as_segments(ids.drop_first()) =~= idents_as_segments(ids));
}

/// A meta item written `:: x1 :: ... :: xn` has the path of the root
/// segment `{{root}}` at the leading `::`, then exactly the segments `x1`
/// .. `xn`.
pub proof fn law_meta_item_rooted_path_has_every_segment(ts: Seq<TokenTree>, i: int, ids: Seq<Ident>)
    requires
        0 <= i < ts.len(),
        is_path_sep(ts[i]),
        reads_as_path(ts, i + 1, ids),
    ensures
        ({
            let root = PathSegment {
                ident: Ident { name: Symbol { idx: KW_PATH_ROOT }, span: ts[i]->Token_0.span },
                args: None,
            };
            spec_meta_item(ts, i) == spec_finish(
                ts,
                SPath { span: span_with_hi(ts[i]->Token_0.span, span_hi(ids.last().span)), segments: seq![root] + idents_as_segments(ids) },
                i + 2 * ids.len(),
            )
        }),
{
    let root = PathSegment {
        ident: Ident { name: Symbol { idx: KW_PATH_ROOT }, span: ts[i]->Token_0.span },
        args: None,
    };
    law_path_reads_every_segment(ts, i + 1, ids, seq![root]);
    assert((seq![root] + idents_as_segments(ids)).last() == idents_as_segments(ids).last());
}

/// Only doc comments and `#[doc = "..."]` are documentation: a doc comment
/// gives its text and kind, `#[doc = "text"]` gives its string value as a
/// line comment, and any other attribute gives none.
pub proof fn law_doc_str_only_of_doc(attr: Attribute)
    ensures
        attr.kind matches AttrKind::DocComment(k, data) ==> attr.spec_doc_str() == Some(data)
            && attr.spec_doc_str_and_comment_kind() == Some((data, k)),
        attr.kind is Normal && attr.spec_has_name(Symbol { idx: SYM_DOC }) ==> attr.spec_doc_str() == attr.spec_value_str()
            && attr.spec_doc_str_and_comment_kind() == (match attr.spec_value_str() {
                Some(s) => Some((s, CommentKind::Line)),
                None => None,
            }),
        attr.kind is Normal && !attr.spec_has_name(Symbol { idx: SYM_DOC }) ==> attr.spec_doc_str() is None
            && attr.spec_doc_str_and_comment_kind() is None,
{
}

/// The path of a normal attribute lists the name of each of its segments,
/// in order, and a path with no generic arguments matches that list; a doc
/// comment's path is `doc`.
pub proof fn law_path_lists_every_segment(attr: Attribute)
    ensures
        attr.kind matches AttrKind::Normal(n) ==> {
            let segs = n.item.path@.segments;
            &&& attr.spec_path().len() == segs.len()
            &&& forall|i: int| 0 <= i < segs.len() ==> #[trigger] attr.spec_path()[i] == segs[i].ident.name
            &&& (forall|i: int| 0 <= i < segs.len() ==> (#[trigger] segs[i]).args is None)
                ==> attr.spec_path_matches(attr.spec_path())
        },
        attr.kind is DocComment ==> attr.spec_path() == seq![Symbol { idx: SYM_DOC }],
{
}

/// An attribute is a proc-macro attribute exactly when its path is the
/// single identifier `proc_macro`, `proc_macro_attribute` or
/// `proc_macro_derive`.
pub proof fn law_proc_macro_attr_names(attr: Attribute)
    ensures
        attr.spec_is_proc_macro_attr() <==> (attr.spec_ident() matches Some(id) && (
            id.name == Symbol { idx: SYM_PROC_MACRO }
            || id.name == Symbol { idx: SYM_PROC_MACRO_ATTRIBUTE }
            || id.name == Symbol { idx: SYM_PROC_MACRO_DERIVE })),
{
}

} // verus!
