//! Interface references: pointers to foreign objects that are called
//! through a table of functions and that count the references to them.
use vstd::prelude::*;

use crate::co::S_OK;
use crate::handles::Handle;

verus! {

/// The status code that every call through a virtual table returns.
pub type HRES = u32;

/// The status code of a call that failed.
#[derive(Clone, Copy, PartialEq, Eq, Structural, Debug)]
pub struct HRESULT {
    pub code: u32,
}

/// Result of a call through a virtual table.
pub type HrResult<T> = Result<T, HRESULT>;

/// What a status code means: success for the success code, and for every
/// other code the failure that carries it.
pub open spec fn hrresult_of(hr: HRES) -> HrResult<()> {
    if hr == S_OK {
        Ok(())
    } else {
        Err(HRESULT { code: hr })
    }
}

/// Reads the status code of a call as a result.
pub fn ok_to_hrresult(hr: HRES) -> (r: HrResult<()>)
    ensures
        r == hrresult_of(hr),
{
    if hr == S_OK {
        Ok(())
    } else {
        Err(HRESULT { code: hr })
    }
}

/// A pointer to a foreign object.
#[derive(Clone, Copy, PartialEq, Eq, Structural, Debug)]
pub struct ComPtr(usize);

impl Handle for ComPtr {
    closed spec fn raw(&self) -> usize {
        self.0
    }

    closed spec fn spec_from_ptr(p: usize) -> Self {
        ComPtr(p)
    }

    closed spec fn spec_is_null(&self) -> bool {
        self.0 == 0
    }

    proof fn lemma_from_ptr(p: usize) {
    }

    proof fn lemma_raw_determines(&self) {
    }

    fn from_ptr(p: usize) -> (h: Self) {
        ComPtr(p)
    }

    fn as_ptr(&self) -> (p: usize) {
        self.0
    }

    fn is_null(&self) -> (b: bool) {
        self.0 == 0
    }
}

impl ComPtr {
    /// The pointer to no object.
    pub fn null() -> (p: ComPtr)
        ensures
            p == Self::spec_from_ptr(0),
            p.spec_is_null(),
    {
        ComPtr(0)
    }
}

/// The virtual table of the interface that every object has: the places of
/// its functions in the table, in the order in which they are declared.
#[derive(Clone, Copy, PartialEq, Eq, Structural, Debug)]
pub struct IUnknownVT {
    pub QueryInterface: usize,
    pub AddRef: usize,
    pub Release: usize,
}

impl IUnknownVT {
    /// The number of functions in the table.
    pub const LEN: usize = 3;

    /// The table as it is laid out.
    pub open spec fn layout() -> IUnknownVT {
        IUnknownVT { QueryInterface: 0, AddRef: 1, Release: 2 }
    }

    /// The table as it is laid out.
    pub fn new() -> (vt: IUnknownVT)
        ensures
            vt == Self::layout(),
    {
        IUnknownVT { QueryInterface: 0, AddRef: 1, Release: 2 }
    }
}

/// One call through a virtual table: the object, the place of the function
/// in the table, and the arguments that follow the object.
#[derive(Debug)]
pub struct VtCall<A> {
    pub this: ComPtr,
    pub slot: usize,
    pub args: A,
}

/// The two functions by which references to an object are counted.
#[derive(Clone, Copy, PartialEq, Eq, Structural, Debug)]
pub enum RefCall {
    /// One more reference is held.
    AddRef,
    /// One reference is given up.
    Release,
}

/// The call that counts one more reference to the object at `this`.
pub open spec fn add_ref_call(this: ComPtr) -> VtCall<RefCall> {
    VtCall { this, slot: IUnknownVT::layout().AddRef, args: RefCall::AddRef }
}

/// The call that gives up one reference to the object at `this`.
pub open spec fn release_call(this: ComPtr) -> VtCall<RefCall> {
    VtCall { this, slot: IUnknownVT::layout().Release, args: RefCall::Release }
}

/// The calls by which a reference to the object at `this` is duplicated:
/// one that counts the new reference, unless there is no object.
pub open spec fn duplicate_calls(this: ComPtr) -> Seq<VtCall<RefCall>> {
    if this.spec_is_null() {
        Seq::empty()
    } else {
        seq![add_ref_call(this)]
    }
}

/// The calls by which a reference to the object at `this` is given up: one
/// that releases it, unless there is no object.
pub open spec fn release_calls(this: ComPtr) -> Seq<VtCall<RefCall>> {
    if this.spec_is_null() {
        Seq::empty()
    } else {
        seq![release_call(this)]
    }
}

/// The count of references to the object at `p`, after `call` was made on
/// a count of `count`.
pub open spec fn count_after_call(count: int, p: ComPtr, call: VtCall<RefCall>) -> int {
    if call.this != p {
        count
    } else {
        match call.args {
            RefCall::AddRef => count + 1,
            RefCall::Release => count - 1,
        }
    }
}

/// The count of references to the object at `p`, after `calls` were made in
/// order on a count of `count`.
pub open spec fn count_after_calls(count: int, p: ComPtr, calls: Seq<VtCall<RefCall>>) -> int
    decreases calls.len(),
{
    if calls.len() == 0 {
        count
    } else {
        count_after_call(count_after_calls(count, p, calls.drop_last()), p, calls.last())
    }
}

/// The lowest count of references to the object at `p` that is reached
/// while `calls` are made in order on a count of `count`.
pub open spec fn lowest_count(count: int, p: ComPtr, calls: Seq<VtCall<RefCall>>) -> int
    decreases calls.len(),
{
    if calls.len() == 0 {
        count
    } else {
        let before = lowest_count(count, p, calls.drop_last());
        let end = count_after_calls(count, p, calls);
        if end < before {
            end
        } else {
            before
        }
    }
}

/// A reference to a foreign object, under one of its interfaces.
///
/// Each value holds one counted reference to its object: the one that it
/// was made with, which it gives up when it is released.
pub trait ole_IUnknown: Sized {
    /// The pointer to the object.
    spec fn spec_ptr(&self) -> ComPtr;

    /// The reference that holds `ptr`.
    spec fn spec_from(ptr: ComPtr) -> Self;

    /// A reference is determined by its pointer.
    proof fn lemma_from(ptr: ComPtr)
        ensures
            Self::spec_from(ptr).spec_ptr() == ptr,
    ;

    /// Wraps a pointer that the foreign side handed out, together with the
    /// counted reference that came with it.
    fn from_ptr(ptr: ComPtr) -> (r: Self)
        ensures
            r == Self::spec_from(ptr),
    ;

    /// The pointer to the object.
    fn ptr(&self) -> (p: ComPtr)
        ensures
            p == self.spec_ptr(),
    ;

    /// A second reference to the same object, and the call that counts it,
    /// which is to be made before the new reference is used. For a
    /// reference to no object there is nothing to count.
    fn duplicate(&self) -> (r: (Self, Option<VtCall<RefCall>>))
        ensures
            r.0 == Self::spec_from(self.spec_ptr()),
            r.1 is Some <==> !self.spec_ptr().spec_is_null(),
            r.1 matches Some(call) ==> duplicate_calls(self.spec_ptr()) == seq![call],
            r.1 is None ==> duplicate_calls(self.spec_ptr()) == Seq::<VtCall<RefCall>>::empty(),
    {
        let p = self.ptr();
        if p.is_null() {
            (Self::from_ptr(p), None)
        } else {
            (
                Self::from_ptr(p),
                Some(VtCall { this: p, slot: IUnknownVT::new().AddRef, args: RefCall::AddRef }),
            )
        }
    }

    /// Gives the reference up: the value is gone, and the call that
    /// releases the counted reference is handed back, to be made once. For
    /// a reference to no object there is nothing to release.
    fn release(self) -> (r: Option<VtCall<RefCall>>)
        ensures
            r is Some <==> !self.spec_ptr().spec_is_null(),
            r matches Some(call) ==> release_calls(self.spec_ptr()) == seq![call],
            r is None ==> release_calls(self.spec_ptr()) == Seq::<VtCall<RefCall>>::empty(),
    {
        let p = self.ptr();
        if p.is_null() {
            None
        } else {
            Some(VtCall { this: p, slot: IUnknownVT::new().Release, args: RefCall::Release })
        }
    }
}

/// What the status code `hr` of a call that hands out an object means,
/// where `out` is the pointer that the call wrote: a reference to that
/// object for the success code, and for every other code the failure that
/// carries it, without any object.
pub open spec fn queried_of<I: ole_IUnknown>(hr: HRES, out: ComPtr) -> HrResult<I> {
    if hr == S_OK {
        Ok(I::spec_from(out))
    } else {
        Err(HRESULT { code: hr })
    }
}

/// Reads the status code of a call that hands out an object as a result. On success the counted reference that came with `out` belongs
/// to the reference that is returned.
pub fn ok_to_hrresult_queried<I: ole_IUnknown>(hr: HRES, out: ComPtr) -> (r: HrResult<I>)
    ensures
        r == queried_of::<I>(hr, out),
{
    match ok_to_hrresult(hr) {
        Ok(_) => Ok(I::from_ptr(out)),
        Err(e) => Err(e),
    }
}

/// A call that returns the success code yields no error, and where it
/// hands out an object, a reference to just that object, which is not null
/// if what the call wrote is not. A call that returns another code yields
/// the failure that carries exactly that code, and no object.
pub proof fn lemma_status_decides<I: ole_IUnknown>(hr: HRES, out: ComPtr)
    ensures
        hr == S_OK ==> hrresult_of(hr) is Ok,
        hr == S_OK ==> (queried_of::<I>(hr, out) matches Ok(obj) && obj.spec_ptr() == out && (
        !out.spec_is_null() ==> !obj.spec_ptr().spec_is_null())),
        hr != S_OK ==> hrresult_of(hr) == Err::<(), HRESULT>(HRESULT { code: hr }),
        hr != S_OK ==> queried_of::<I>(hr, out) == Err::<I, HRESULT>(HRESULT { code: hr }),
{
    I::lemma_from(out);
}

/// Duplicating a reference and releasing both copies leaves the count of
/// the object where releasing the one reference would have left it; and on
/// the way the count never falls below that. While one of the two copies
/// is still held, the count is what it was before the duplication.
pub proof fn lemma_no_premature_release(p: ComPtr, count: int)
    ensures
        count_after_calls(count, p, duplicate_calls(p) + release_calls(p) + release_calls(p))
            == count_after_calls(count, p, release_calls(p)),
        lowest_count(count, p, duplicate_calls(p) + release_calls(p) + release_calls(p))
            >= count_after_calls(count, p, release_calls(p)),
        count_after_calls(count, p, duplicate_calls(p) + release_calls(p)) == count,
        lowest_count(count, p, duplicate_calls(p) + release_calls(p)) == count,
{
    let d = duplicate_calls(p);
    let r = release_calls(p);
    if p.spec_is_null() {
        assert(d + r + r =~= Seq::<VtCall<RefCall>>::empty());
        assert(d + r =~= Seq::<VtCall<RefCall>>::empty());
    } else {
        let a = add_ref_call(p);
        let b = release_call(p);
        let s0 = Seq::<VtCall<RefCall>>::empty();
        let s1 = seq![a];
        let s2 = seq![a, b];
        let s3 = seq![a, b, b];
        assert(d + r =~= s2);
        assert(d + r + r =~= s3);
        assert(s1.drop_last() =~= s0);
        assert(s2.drop_last() =~= s1);
        assert(s3.drop_last() =~= s2);
        assert(r.drop_last() =~= s0);
        assert(count_after_calls(count, p, s0) == count);
        assert(count_after_calls(count, p, s1) == count + 1);
        assert(count_after_calls(count, p, s2) == count);
        assert(count_after_calls(count, p, s3) == count - 1);
        assert(count_after_calls(count, p, r) == count - 1);
        assert(lowest_count(count, p, s0) == count);
        assert(lowest_count(count, p, s1) == count);
        assert(lowest_count(count, p, s2) == count);
        assert(lowest_count(count, p, s3) == count - 1);
    }
}

} // verus!
