//! Handles: opaque values that identify resources owned by the operating
//! system. Each kind of resource has a type of its own, so a handle of one
//! kind cannot be passed where another kind is expected.
use vstd::prelude::*;

verus! {

/// What every kind of handle offers.
///
/// A handle holds one machine word. The word zero is the null handle, which
/// identifies nothing; two handles of one kind are equal exactly when their
/// words are.
pub trait Handle: Sized {
    /// The word this handle holds.
    spec fn raw(&self) -> usize;

    /// The handle of this kind that holds `p`.
    spec fn spec_from_ptr(p: usize) -> Self;

    /// Whether this handle is the null handle.
    spec fn spec_is_null(&self) -> bool;

    /// A handle built from a word holds that word, and is null exactly when
    /// the word is zero.
    proof fn lemma_from_ptr(p: usize)
        ensures
            Self::spec_from_ptr(p).raw() == p,
            Self::spec_from_ptr(p).spec_is_null() <==> p == 0,
    ;

    /// A handle is determined by its word.
    proof fn lemma_raw_determines(&self)
        ensures
            *self == Self::spec_from_ptr(self.raw()),
    ;

    /// Wraps a raw value into a handle.
    fn from_ptr(p: usize) -> (h: Self)
        ensures
            h == Self::spec_from_ptr(p),
    ;

    /// Returns the raw value this handle wraps.
    fn as_ptr(&self) -> (p: usize)
        ensures
            p == self.raw(),
    ;

    /// Tells if the handle is invalid (null).
    fn is_null(&self) -> (b: bool)
        ensures
            b == self.spec_is_null(),
    ;
}

/// For every kind of handle: the handle built from `p` reports null exactly
/// when `p` is zero, and gives `p` back unchanged.
pub proof fn lemma_null_iff_zero<H: Handle>(p: usize)
    ensures
        H::spec_from_ptr(p).spec_is_null() <==> p == 0,
        H::spec_from_ptr(p).raw() == p,
{
    H::lemma_from_ptr(p);
}

/// For every kind of handle: whether a handle reports null depends on its
/// word alone, and the word zero is the only one that does.
pub proof fn lemma_is_null_means_zero<H: Handle>(h: H)
    ensures
        h.spec_is_null() <==> h.raw() == 0,
{
    h.lemma_raw_determines();
    H::lemma_from_ptr(h.raw());
}

/// Handle to a window.
#[derive(Clone, Copy, PartialEq, Eq, Structural, Debug)]
pub struct HWND(usize);

impl Handle for HWND {
    closed spec fn raw(&self) -> usize {
        self.0
    }

    closed spec fn spec_from_ptr(p: usize) -> Self {
        HWND(p)
    }

    closed spec fn spec_is_null(&self) -> bool {
        self.0 == 0
    }

    proof fn lemma_from_ptr(p: usize) {
    }

    proof fn lemma_raw_determines(&self) {
    }

    fn from_ptr(p: usize) -> (h: Self) {
        HWND(p)
    }

    fn as_ptr(&self) -> (p: usize) {
        self.0
    }

    fn is_null(&self) -> (b: bool) {
        self.0 == 0
    }
}

impl Default for HWND {
    /// The null handle.
    fn default() -> (h: Self)
        ensures
            h == Self::spec_from_ptr(0),
            h.spec_is_null(),
    {
        HWND(0)
    }
}

/// Handle to an item of a tree-view control.
#[derive(Clone, Copy, PartialEq, Eq, Structural, Debug)]
pub struct HTREEITEM(usize);

impl Handle for HTREEITEM {
    closed spec fn raw(&self) -> usize {
        self.0
    }

    closed spec fn spec_from_ptr(p: usize) -> Self {
        HTREEITEM(p)
    }

    closed spec fn spec_is_null(&self) -> bool {
        self.0 == 0
    }

    proof fn lemma_from_ptr(p: usize) {
    }

    proof fn lemma_raw_determines(&self) {
    }

    fn from_ptr(p: usize) -> (h: Self) {
        HTREEITEM(p)
    }

    fn as_ptr(&self) -> (p: usize) {
        self.0
    }

    fn is_null(&self) -> (b: bool) {
        self.0 == 0
    }
}

impl Default for HTREEITEM {
    /// The null handle.
    fn default() -> (h: Self)
        ensures
            h == Self::spec_from_ptr(0),
            h.spec_is_null(),
    {
        HTREEITEM(0)
    }
}

/// Handle to a graphics object of any kind.
#[derive(Clone, Copy, PartialEq, Eq, Structural, Debug)]
pub struct HGDIOBJ(usize);

impl Handle for HGDIOBJ {
    closed spec fn raw(&self) -> usize {
        self.0
    }

    closed spec fn spec_from_ptr(p: usize) -> Self {
        HGDIOBJ(p)
    }

    closed spec fn spec_is_null(&self) -> bool {
        self.0 == 0
    }

    proof fn lemma_from_ptr(p: usize) {
    }

    proof fn lemma_raw_determines(&self) {
    }

    fn from_ptr(p: usize) -> (h: Self) {
        HGDIOBJ(p)
    }

    fn as_ptr(&self) -> (p: usize) {
        self.0
    }

    fn is_null(&self) -> (b: bool) {
        self.0 == 0
    }
}

impl Default for HGDIOBJ {
    /// The null handle.
    fn default() -> (h: Self)
        ensures
            h == Self::spec_from_ptr(0),
            h.spec_is_null(),
    {
        HGDIOBJ(0)
    }
}

/// Handle to a brush.
#[derive(Clone, Copy, PartialEq, Eq, Structural, Debug)]
pub struct HBRUSH(usize);

impl Handle for HBRUSH {
    closed spec fn raw(&self) -> usize {
        self.0
    }

    closed spec fn spec_from_ptr(p: usize) -> Self {
        HBRUSH(p)
    }

    closed spec fn spec_is_null(&self) -> bool {
        self.0 == 0
    }

    proof fn lemma_from_ptr(p: usize) {
    }

    proof fn lemma_raw_determines(&self) {
    }

    fn from_ptr(p: usize) -> (h: Self) {
        HBRUSH(p)
    }

    fn as_ptr(&self) -> (p: usize) {
        self.0
    }

    fn is_null(&self) -> (b: bool) {
        self.0 == 0
    }
}

impl Default for HBRUSH {
    /// The null handle.
    fn default() -> (h: Self)
        ensures
            h == Self::spec_from_ptr(0),
            h.spec_is_null(),
    {
        HBRUSH(0)
    }
}

impl From<HBRUSH> for HGDIOBJ {
    /// The same object seen as a graphics object of no particular kind.
    fn from(h: HBRUSH) -> (g: HGDIOBJ) {
        HGDIOBJ(h.0)
    }
}

impl vstd::std_specs::convert::FromSpecImpl<HBRUSH> for HGDIOBJ {
    open spec fn obeys_from_spec() -> bool {
        true
    }

    open spec fn from_spec(h: HBRUSH) -> HGDIOBJ {
        HGDIOBJ::spec_from_ptr(h.raw())
    }
}

impl From<HGDIOBJ> for HBRUSH {
    /// A graphics object seen as a brush.
    fn from(hgdiobj: HGDIOBJ) -> (h: HBRUSH) {
        HBRUSH(hgdiobj.0)
    }
}

impl vstd::std_specs::convert::FromSpecImpl<HGDIOBJ> for HBRUSH {
    open spec fn obeys_from_spec() -> bool {
        true
    }

    open spec fn from_spec(hgdiobj: HGDIOBJ) -> HBRUSH {
        HBRUSH::spec_from_ptr(hgdiobj.raw())
    }
}

/// Converting a brush to a graphics object and back gives the brush again,
/// and so does the other direction; the word that the handle holds is the
/// same throughout.
pub proof fn lemma_hgdiobj_roundtrip(h: HBRUSH, g: HGDIOBJ)
    ensures
        HGDIOBJ::spec_from_ptr(h.raw()).raw() == h.raw(),
        HBRUSH::spec_from_ptr(g.raw()).raw() == g.raw(),
        HBRUSH::spec_from_ptr(HGDIOBJ::spec_from_ptr(h.raw()).raw()) == h,
        HGDIOBJ::spec_from_ptr(HBRUSH::spec_from_ptr(g.raw()).raw()) == g,
{
}

} // verus!
