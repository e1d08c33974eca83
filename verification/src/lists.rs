//! The outside collections that the syntax tree keeps its sequences in:
//! `thin_vec::ThinVec`, `smallvec::SmallVec` and
//! `rustc_index::bit_set::GrowableBitSet`.
use vstd::prelude::*;
use thin_vec::ThinVec;
use smallvec::SmallVec;
use ra_ap_rustc_index::bit_set::GrowableBitSet;
use crate::ast::{MetaItemInner, PathSegment, SMetaItemInner};
use crate::symbol::Symbol;

verus! {

#[verifier::external_type_specification]
#[verifier::external_body]
#[verifier::reject_recursive_types(T)]
pub struct ExThinVec<T>(ThinVec<T>);

/// The segments that a `ThinVec` of path segments holds, in order.
pub uninterp spec fn segments_of(v: ThinVec<PathSegment>) -> Seq<PathSegment>;

/// `ThinVec::new`: an empty vector.
#[verifier::external_body]
pub(crate) fn segments_new() -> (r: ThinVec<PathSegment>)
    ensures
        segments_of(r) == Seq::<PathSegment>::empty(),
{
    ThinVec::new()
}

/// `ThinVec::push`: appends `s` at the end.
#[verifier::external_body]
pub(crate) fn segments_push(v: &mut ThinVec<PathSegment>, s: PathSegment)
    ensures
        segments_of(*final(v)) == segments_of(*old(v)).push(s),
{
    v.push(s)
}

/// `ThinVec::as_slice`: the segments, in order.
#[verifier::external_body]
pub(crate) fn segments_slice(v: &ThinVec<PathSegment>) -> (r: &[PathSegment])
    ensures
        r@ == segments_of(*v),
{
    v.as_slice()
}

/// `ThinVec::clone`: a vector of the same segments (a segment is `Copy`,
/// so its clone is itself).
#[verifier::external_body]
pub(crate) fn segments_clone(v: &ThinVec<PathSegment>) -> (r: ThinVec<PathSegment>)
    ensures
        segments_of(r) == segments_of(*v),
{
    v.clone()
}

/// The items of a meta item list. It holds a `ThinVec`; since a meta item
/// holds lists of meta items, the vector stands behind this struct.
#[verifier::external_body]
#[derive(Debug)]
pub struct MetaItemList {
    items: ThinVec<MetaItemInner>,
}

/// The items that a meta item list holds, in order, as values.
pub uninterp spec fn meta_list_items(l: MetaItemList) -> Seq<SMetaItemInner>;

impl MetaItemList {
    /// `ThinVec::new`: an empty list.
    #[verifier::external_body]
    pub(crate) fn new() -> (r: MetaItemList)
        ensures
            meta_list_items(r) == Seq::<SMetaItemInner>::empty(),
    {
        MetaItemList { items: ThinVec::new() }
    }

    /// `ThinVec::push`: appends `item` at the end.
    #[verifier::external_body]
    pub(crate) fn push(&mut self, item: MetaItemInner)
        ensures
            meta_list_items(*final(self)) == meta_list_items(*old(self)).push(item@),
    {
        self.items.push(item)
    }

    /// `ThinVec::as_slice`: the items, in order.
    #[verifier::external_body]
    pub(crate) fn as_slice(&self) -> (r: &[MetaItemInner])
        ensures
            r@.map_values(|x: MetaItemInner| x@) == meta_list_items(*self),
    {
        self.items.as_slice()
    }
}

/// The symbols of a path. It holds a `SmallVec<[Symbol; 1]>`, whose
/// declaration Verus refuses (its parameter is bound by an outside trait).
#[verifier::external_body]
#[derive(Debug)]
pub struct PathSymbols {
    syms: SmallVec<[Symbol; 1]>,
}

/// The symbols that a `PathSymbols` holds, in order.
pub uninterp spec fn path_symbols(p: PathSymbols) -> Seq<Symbol>;

impl PathSymbols {
    /// `SmallVec::new`: no symbols.
    #[verifier::external_body]
    pub(crate) fn new() -> (r: PathSymbols)
        ensures
            path_symbols(r) == Seq::<Symbol>::empty(),
    {
        PathSymbols { syms: SmallVec::new() }
    }

    /// `SmallVec::push`: appends `s` at the end.
    #[verifier::external_body]
    pub(crate) fn push(&mut self, s: Symbol)
        ensures
            path_symbols(*final(self)) == path_symbols(*old(self)).push(s),
    {
        self.syms.push(s)
    }

    /// `SmallVec::as_slice`: the symbols, in order.
    #[verifier::external_body]
    pub(crate) fn slice(&self) -> (r: &[Symbol])
        ensures
            r@ == path_symbols(*self),
    {
        self.syms.as_slice()
    }

    /// The symbols, in order.
    pub fn as_slice(&self) -> (r: &[Symbol])
        ensures
            r@ == path_symbols(*self),
    {
        self.slice()
    }
}

/// A set of attribute ids. It holds a `GrowableBitSet<usize>`, whose
/// declaration Verus refuses (its parameter is bound by an outside trait).
#[verifier::external_body]
pub struct AttrIdSet {
    bits: GrowableBitSet<usize>,
}

/// The indices that an `AttrIdSet` holds.
pub uninterp spec fn set_members(s: AttrIdSet) -> Set<nat>;

impl AttrIdSet {
    /// `GrowableBitSet::new_empty`: the empty set.
    #[verifier::external_body]
    pub(crate) fn new_empty() -> (r: AttrIdSet)
        ensures
            set_members(r) == Set::<nat>::empty(),
    {
        AttrIdSet { bits: GrowableBitSet::new_empty() }
    }

    /// `GrowableBitSet::insert`: adds `i`; returns whether the set changed.
    #[verifier::external_body]
    pub(crate) fn insert(&mut self, i: u32) -> (changed: bool)
        requires
            i < u32::MAX,
        ensures
            set_members(*final(self)) == set_members(*old(self)).insert(i as nat),
            changed == !set_members(*old(self)).contains(i as nat),
    {
        self.bits.insert(i as usize)
    }

    /// `GrowableBitSet::contains`: whether `i` is in the set.
    #[verifier::external_body]
    pub(crate) fn contains(&self, i: u32) -> (r: bool)
        ensures
            r == set_members(*self).contains(i as nat),
    {
        self.bits.contains(i as usize)
    }
}

} // verus!
