//! The filter graph: the interface through which filters are added to a
//! graph, removed from it and looked up in it.
use vstd::prelude::*;

use crate::ole::{
    ok_to_hrresult_queried, ole_IUnknown, queried_of, ComPtr, HrResult, IUnknownVT, VtCall, HRES,
};
use crate::wstring::{wide_of, WString};

verus! {

/// The virtual table of the filter graph: the places of its functions in
/// the table, in the order in which they are declared, after those of the
/// interface that every object has.
#[derive(Clone, Copy, PartialEq, Eq, Structural, Debug)]
pub struct IFilterGraphVT {
    pub IUnknownVT: IUnknownVT,
    pub AddFilter: usize,
    pub RemoveFilter: usize,
    pub EnumFilters: usize,
    pub FindFilterByName: usize,
    pub ConnectDirect: usize,
    pub Reconnect: usize,
    pub Disconnect: usize,
    pub SetDefaultSyncSource: usize,
}

impl IFilterGraphVT {
    /// The number of functions in the table.
    pub const LEN: usize = 11;

    /// The table as it is laid out.
    pub open spec fn layout() -> IFilterGraphVT {
        IFilterGraphVT {
            IUnknownVT: IUnknownVT::layout(),
            AddFilter: 3,
            RemoveFilter: 4,
            EnumFilters: 5,
            FindFilterByName: 6,
            ConnectDirect: 7,
            Reconnect: 8,
            Disconnect: 9,
            SetDefaultSyncSource: 10,
        }
    }

    /// The places of the table in the order of declaration.
    pub open spec fn slots(self) -> Seq<usize> {
        seq![
            self.IUnknownVT.QueryInterface,
            self.IUnknownVT.AddRef,
            self.IUnknownVT.Release,
            self.AddFilter,
            self.RemoveFilter,
            self.EnumFilters,
            self.FindFilterByName,
            self.ConnectDirect,
            self.Reconnect,
            self.Disconnect,
            self.SetDefaultSyncSource,
        ]
    }

    /// The table as it is laid out.
    pub fn new() -> (vt: IFilterGraphVT)
        ensures
            vt == Self::layout(),
    {
        IFilterGraphVT {
            IUnknownVT: IUnknownVT::new(),
            AddFilter: 3,
            RemoveFilter: 4,
            EnumFilters: 5,
            FindFilterByName: 6,
            ConnectDirect: 7,
            Reconnect: 8,
            Disconnect: 9,
            SetDefaultSyncSource: 10,
        }
    }
}

/// The functions of the table stand one after the other, without gap, in
/// the order of their declaration: the function declared at position `i`
/// has the place `i`.
pub proof fn lemma_layout_is_dense()
    ensures
        IFilterGraphVT::layout().slots().len() == IFilterGraphVT::LEN,
        forall|i: int|
            0 <= i < IFilterGraphVT::LEN ==> #[trigger] IFilterGraphVT::layout().slots()[i] == i,
{
}

/// The arguments of a call to the filter graph, after the object itself.
#[derive(Debug)]
pub enum FilterGraphArgs {
    /// Add `filter` to the graph under `name`.
    AddFilter { filter: ComPtr, name: WString },
    /// Remove `filter` from the graph.
    RemoveFilter { filter: ComPtr },
    /// Hand out an enumerator of the filters of the graph.
    EnumFilters,
    /// Hand out the filter that was added under `name`.
    FindFilterByName { name: WString },
    /// Make the reference clock of the graph its default one.
    SetDefaultSyncSource,
}

/// A reference to a filter graph.
#[derive(Debug)]
pub struct IFilterGraph(ComPtr);

/// A reference to a filter.
#[derive(Debug)]
pub struct IBaseFilter(ComPtr);

/// A reference to an enumerator of filters.
#[derive(Debug)]
pub struct IEnumFilters(ComPtr);

impl ole_IUnknown for IFilterGraph {
    closed spec fn spec_ptr(&self) -> ComPtr {
        self.0
    }

    closed spec fn spec_from(ptr: ComPtr) -> Self {
        IFilterGraph(ptr)
    }

    proof fn lemma_from(ptr: ComPtr) {
    }

    fn from_ptr(ptr: ComPtr) -> (r: Self) {
        IFilterGraph(ptr)
    }

    fn ptr(&self) -> (p: ComPtr) {
        self.0
    }
}

impl ole_IUnknown for IBaseFilter {
    closed spec fn spec_ptr(&self) -> ComPtr {
        self.0
    }

    closed spec fn spec_from(ptr: ComPtr) -> Self {
        IBaseFilter(ptr)
    }

    proof fn lemma_from(ptr: ComPtr) {
    }

    fn from_ptr(ptr: ComPtr) -> (r: Self) {
        IBaseFilter(ptr)
    }

    fn ptr(&self) -> (p: ComPtr) {
        self.0
    }
}

impl ole_IUnknown for IEnumFilters {
    closed spec fn spec_ptr(&self) -> ComPtr {
        self.0
    }

    closed spec fn spec_from(ptr: ComPtr) -> Self {
        IEnumFilters(ptr)
    }

    proof fn lemma_from(ptr: ComPtr) {
    }

    fn from_ptr(ptr: ComPtr) -> (r: Self) {
        IEnumFilters(ptr)
    }

    fn ptr(&self) -> (p: ComPtr) {
        self.0
    }
}

impl dshow_IFilterGraph for IFilterGraph {}

/// The methods of the filter graph.
///
/// Each method builds the call that is to be made through the virtual
/// table. A call that hands out nothing answers with a status code, which
/// `ok_to_hrresult` reads; for a call that hands out an object there
/// is a second method here, named after the first, that reads the answer.
pub trait dshow_IFilterGraph: ole_IUnknown {
    /// The call that adds `filter` to the graph under `name`.
    fn AddFilter(&self, filter: &IBaseFilter, name: &str) -> (call: VtCall<FilterGraphArgs>)
        ensures
            call.this == self.spec_ptr(),
            call.slot == IFilterGraphVT::layout().AddFilter,
            call.args matches FilterGraphArgs::AddFilter { filter: f, name: n } && f
                == filter.spec_ptr() && n@ == wide_of(name@),
    {
        VtCall {
            this: self.ptr(),
            slot: IFilterGraphVT::new().AddFilter,
            args: FilterGraphArgs::AddFilter {
                filter: filter.ptr(),
                name: WString::from_str(name),
            },
        }
    }

    /// The call that hands out an enumerator of the filters of the graph.
    fn EnumFilters(&self) -> (call: VtCall<FilterGraphArgs>)
        ensures
            call.this == self.spec_ptr(),
            call.slot == IFilterGraphVT::layout().EnumFilters,
            call.args is EnumFilters,
    {
        VtCall {
            this: self.ptr(),
            slot: IFilterGraphVT::new().EnumFilters,
            args: FilterGraphArgs::EnumFilters,
        }
    }

    /// Reads the answer to the call of `EnumFilters`: the status code `hr`
    /// and the pointer `out` that the call wrote.
    fn EnumFilters_reply(&self, hr: HRES, out: ComPtr) -> (r: HrResult<IEnumFilters>)
        ensures
            r == queried_of::<IEnumFilters>(hr, out),
    {
        ok_to_hrresult_queried::<IEnumFilters>(hr, out)
    }

    /// The call that hands out the filter that was added under `name`.
    fn FindFilterByName(&self, name: &str) -> (call: VtCall<FilterGraphArgs>)
        ensures
            call.this == self.spec_ptr(),
            call.slot == IFilterGraphVT::layout().FindFilterByName,
            call.args matches FilterGraphArgs::FindFilterByName { name: n } && n@ == wide_of(
                name@,
            ),
    {
        VtCall {
            this: self.ptr(),
            slot: IFilterGraphVT::new().FindFilterByName,
            args: FilterGraphArgs::FindFilterByName { name: WString::from_str(name) },
        }
    }

    /// Reads the answer to the call of `FindFilterByName`: the status code
    /// `hr` and the pointer `out` that the call wrote.
    fn FindFilterByName_reply(&self, hr: HRES, out: ComPtr) -> (r: HrResult<IBaseFilter>)
        ensures
            r == queried_of::<IBaseFilter>(hr, out),
    {
        ok_to_hrresult_queried::<IBaseFilter>(hr, out)
    }

    /// The call that removes `filter` from the graph.
    fn RemoveFilter(&self, filter: &IBaseFilter) -> (call: VtCall<FilterGraphArgs>)
        ensures
            call.this == self.spec_ptr(),
            call.slot == IFilterGraphVT::layout().RemoveFilter,
            call.args matches FilterGraphArgs::RemoveFilter { filter: f } && f
                == filter.spec_ptr(),
    {
        VtCall {
            this: self.ptr(),
            slot: IFilterGraphVT::new().RemoveFilter,
            args: FilterGraphArgs::RemoveFilter { filter: filter.ptr() },
        }
    }

    /// The call that makes the reference clock of the graph its default
    /// one.
    fn SetDefaultSyncSource(&self) -> (call: VtCall<FilterGraphArgs>)
        ensures
            call.this == self.spec_ptr(),
            call.slot == IFilterGraphVT::layout().SetDefaultSyncSource,
            call.args is SetDefaultSyncSource,
    {
        VtCall {
            this: self.ptr(),
            slot: IFilterGraphVT::new().SetDefaultSyncSource,
            args: FilterGraphArgs::SetDefaultSyncSource,
        }
    }
}

} // verus!
