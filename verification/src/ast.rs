//! The syntax tree of attributes and meta items.
use vstd::prelude::*;
use rustc_span::Span;
use thin_vec::ThinVec;
use crate::lists::{
    meta_list_items, segments_clone, segments_new, segments_of, segments_push, segments_slice,
    MetaItemList,
};
use crate::symbol::{Ident, Symbol};
use crate::token::{Delimiter, DelimSpan, LazyAttrTokenStream, TokenLit, TokenStream};

verus! {

/// The greatest value of an attribute id.
pub const ATTR_ID_MAX: u32 = 0xFFFF_FF00;

/// The identity of an attribute, unique within a crate; at most
/// [`ATTR_ID_MAX`].
#[derive(Clone, Copy, PartialEq, Eq, Structural, Debug, Hash)]
pub struct AttrId {
    id: u32,
}

impl AttrId {
    #[verifier::type_invariant]
    spec fn inv(self) -> bool {
        self.id <= ATTR_ID_MAX
    }

    /// The value of the id.
    pub closed spec fn value(self) -> nat {
        self.id as nat
    }

    /// The id with value `value` (`AttrId::from_u32`).
    pub fn from_u32(value: u32) -> (r: AttrId)
        requires
            value <= ATTR_ID_MAX,
        ensures
            r.value() == value,
    {
        AttrId { id: value }
    }

    /// The value of the id, which is at most [`ATTR_ID_MAX`].
    pub fn as_u32(self) -> (r: u32)
        ensures
            r == self.value(),
            r <= ATTR_ID_MAX,
    {
        proof {
            use_type_invariant(self);
        }
        self.id
    }
}

/// Whether an attribute applies to the item it stands in (`#![...]`) or to
/// the item that follows it (`#[...]`).
#[derive(Clone, Copy, PartialEq, Eq, Structural, Debug)]
pub enum AttrStyle {
    Outer,
    Inner,
}

/// The kind of a doc comment: `///` or `/** ... */`.
#[derive(Clone, Copy, PartialEq, Eq, Structural, Debug)]
pub enum CommentKind {
    Line,
    Block,
}

/// The safety of an attribute: `#[unsafe(...)]`, `#[safe(...)]` or neither.
#[derive(Clone, Copy, Debug)]
pub enum Safety {
    Unsafe(Span),
    Safe(Span),
    Default,
}

/// The generic arguments of a path segment (`<T>` or `(A) -> B`), kept
/// by their span.
#[derive(Clone, Copy, Debug)]
pub struct GenericArgs {
    pub span: Span,
}

/// A segment of a path: an identifier, with generic arguments where it has
/// any.
#[derive(Clone, Copy, Debug)]
pub struct PathSegment {
    pub ident: Ident,
    pub args: Option<GenericArgs>,
}

impl PathSegment {
    /// The segment made of `ident` alone (`PathSegment::from_ident`).
    pub fn from_ident(ident: Ident) -> (r: PathSegment)
        ensures
            r.ident == ident,
            r.args is None,
    {
        PathSegment { ident, args: None }
    }

    /// The segment `{{root}}` at `span` (`PathSegment::path_root`).
    pub fn path_root(span: Span) -> (r: PathSegment)
        ensures
            r.ident.name.index() == crate::symbol::KW_PATH_ROOT,
            r.ident.span == span,
            r.args is None,
    {
        PathSegment::from_ident(Ident::new(Symbol { idx: crate::symbol::KW_PATH_ROOT }, span))
    }
}

/// A path such as `std::cmp::PartialEq`.
#[derive(Debug)]
pub struct Path {
    pub span: Span,
    pub segments: ThinVec<PathSegment>,
}

/// A path as a value: its span and its segments.
pub struct SPath {
    pub span: Span,
    pub segments: Seq<PathSegment>,
}

impl View for Path {
    type V = SPath;

    open spec fn view(&self) -> SPath {
        SPath { span: self.span, segments: segments_of(self.segments) }
    }
}

impl Path {
    /// The path of the single segment `ident` (`Path::from_ident`).
    pub fn from_ident(ident: Ident) -> (r: Path)
        ensures
            r@ == SPath::from_ident(ident),
    {
        let mut segments = segments_new();
        segments_push(&mut segments, PathSegment::from_ident(ident));
        proof {
            assert(segments_of(segments) =~= seq![PathSegment { ident, args: None }]);
        }
        Path { span: ident.span, segments }
    }

    /// A copy of the path (`Path::clone`).
    pub fn clone_path(&self) -> (r: Path)
        ensures
            r@ == self@,
    {
        Path { span: self.span, segments: segments_clone(&self.segments) }
    }

    /// Whether the path is the single segment `name` (`path == name`).
    pub fn is_name(&self, name: Symbol) -> (r: bool)
        ensures
            r == self@.is_name(name),
    {
        let segments = self.segments();
        segments.len() == 1 && segments[0].ident.name == name
    }

    /// The segments of the path, in order.
    pub fn segments(&self) -> (r: &[PathSegment])
        ensures
            r@ == self@.segments,
    {
        segments_slice(&self.segments)
    }
}

impl SPath {
    /// The path is the single segment `name`, whatever its generic
    /// arguments (`path == name`).
    pub open spec fn is_name(self, name: Symbol) -> bool {
        self.segments.len() == 1 && self.segments[0].ident.name == name
    }

    /// The path of the single segment `ident`.
    pub open spec fn from_ident(ident: Ident) -> SPath {
        SPath { span: ident.span, segments: seq![PathSegment { ident, args: None }] }
    }
}

/// The style of a string literal: cooked (`"..."`) or raw with a number of
/// `#`s (`r#"..."#`).
#[derive(Clone, Copy, PartialEq, Eq, Structural, Debug)]
pub enum StrStyle {
    Cooked,
    Raw(u8),
}

/// The value of a literal.
#[derive(Clone, Copy, Debug)]
pub enum LitKind {
    /// A string, with its contents unescaped.
    Str(Symbol, StrStyle),
    /// A byte string.
    ByteStr(StrStyle),
    /// A C string.
    CStr(StrStyle),
    Byte(u8),
    Char(char),
    Int(u128),
    /// A float, kept as its text.
    Float(Symbol),
    Bool(bool),
    /// A literal whose token was already reported as an error.
    Error,
}

impl LitKind {
    /// The string value of a string literal.
    pub open spec fn spec_str(self) -> Option<Symbol> {
        match self {
            LitKind::Str(s, _) => Some(s),
            _ => None,
        }
    }

    /// `LitKind::str`: the string value of a string literal.
    pub fn str(&self) -> (r: Option<Symbol>)
        ensures
            r == self.spec_str(),
    {
        match self {
            LitKind::Str(s, _) => Some(*s),
            _ => None,
        }
    }
}

/// A literal in a meta item: its text, suffix, value and span.
#[derive(Clone, Copy, Debug)]
pub struct MetaItemLit {
    pub symbol: Symbol,
    pub suffix: Option<Symbol>,
    pub kind: LitKind,
    pub span: Span,
}

/// The kinds of expressions; an attribute reads literals only.
#[derive(Clone, Copy, Debug)]
pub enum ExprKind {
    Lit(TokenLit),
    /// Any expression other than a literal.
    Other,
}

/// An expression and its span.
#[derive(Clone, Copy, Debug)]
pub struct Expr {
    pub kind: ExprKind,
    pub span: Span,
}

/// The value after `=` in `#[attr = value]`: an expression as parsed, or a
/// literal once it has been checked.
#[derive(Debug)]
pub enum AttrArgsEq {
    Ast(Box<Expr>),
    Hir(MetaItemLit),
}

/// The delimited arguments of `#[attr(...)]`, `#[attr[...]]` or
/// `#[attr{...}]`.
#[derive(Debug)]
pub struct DelimArgs {
    pub dspan: DelimSpan,
    pub delim: Delimiter,
    pub tokens: TokenStream,
}

/// The arguments of an attribute.
#[derive(Debug)]
pub enum AttrArgs {
    /// `#[attr]`
    Empty,
    /// `#[attr(...)]` and the like.
    Delimited(DelimArgs),
    /// `#[attr = value]`, with the span of the `=`.
    Eq(Span, AttrArgsEq),
}

/// The path and arguments of an attribute.
#[derive(Debug)]
pub struct AttrItem {
    pub unsafety: Safety,
    pub path: Path,
    pub args: AttrArgs,
}

/// An attribute written as `#[...]`, with the tokens it was written in.
#[derive(Debug)]
pub struct NormalAttr {
    pub item: AttrItem,
    pub tokens: Option<LazyAttrTokenStream>,
}

/// An attribute: `#[...]`, or a doc comment with its text.
#[derive(Debug)]
pub enum AttrKind {
    Normal(Box<NormalAttr>),
    DocComment(CommentKind, Symbol),
}

/// An attribute, with its id, style and span.
#[derive(Debug)]
pub struct Attribute {
    pub kind: AttrKind,
    pub id: AttrId,
    pub style: AttrStyle,
    pub span: Span,
}

/// A meta item: the structured form of an attribute, such as `name`,
/// `name = "value"` or `name(a, b = "c")`.
#[derive(Debug)]
pub struct MetaItem {
    pub unsafety: Safety,
    pub path: Path,
    pub kind: MetaItemKind,
    pub span: Span,
}

/// The kind of a meta item.
#[derive(Debug)]
pub enum MetaItemKind {
    /// `name`
    Word,
    /// `name(a, b = "c")`
    List(MetaItemList),
    /// `name = "value"`
    NameValue(MetaItemLit),
}

/// An item of a meta item list: a meta item or a literal.
#[derive(Debug)]
pub enum MetaItemInner {
    MetaItem(MetaItem),
    Lit(MetaItemLit),
}

/// A meta item as a value.
pub struct SMetaItem {
    pub unsafety: Safety,
    pub path: SPath,
    pub kind: SMetaItemKind,
    pub span: Span,
}

/// The kind of a meta item as a value; a list holds its items as values.
pub enum SMetaItemKind {
    Word,
    List(Seq<SMetaItemInner>),
    NameValue(MetaItemLit),
}

/// An item of a meta item list as a value.
pub enum SMetaItemInner {
    MetaItem(SMetaItem),
    Lit(MetaItemLit),
}

impl View for MetaItemKind {
    type V = SMetaItemKind;

    open spec fn view(&self) -> SMetaItemKind {
        match self {
            MetaItemKind::Word => SMetaItemKind::Word,
            MetaItemKind::List(l) => SMetaItemKind::List(meta_list_items(*l)),
            MetaItemKind::NameValue(lit) => SMetaItemKind::NameValue(*lit),
        }
    }
}

impl View for MetaItem {
    type V = SMetaItem;

    open spec fn view(&self) -> SMetaItem {
        SMetaItem { unsafety: self.unsafety, path: self.path@, kind: self.kind@, span: self.span }
    }
}

impl View for MetaItemInner {
    type V = SMetaItemInner;

    open spec fn view(&self) -> SMetaItemInner {
        match self {
            MetaItemInner::MetaItem(m) => SMetaItemInner::MetaItem(m@),
            MetaItemInner::Lit(lit) => SMetaItemInner::Lit(*lit),
        }
    }
}

} // verus!
