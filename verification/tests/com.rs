use winsafe::co::{E_FAIL, E_NOINTERFACE, E_POINTER, S_OK, VFW_E_NOT_FOUND};
use winsafe::dshow::{
    dshow_IFilterGraph, FilterGraphArgs, IBaseFilter, IEnumFilters, IFilterGraph, IFilterGraphVT,
};
use winsafe::handles::Handle;
use winsafe::ole::{
    ok_to_hrresult, ok_to_hrresult_queried, ole_IUnknown, ComPtr, IUnknownVT, RefCall, VtCall,
    HRESULT,
};

fn graph() -> IFilterGraph {
    IFilterGraph::from_ptr(ComPtr::from_ptr(0xA000))
}

fn filter() -> IBaseFilter {
    IBaseFilter::from_ptr(ComPtr::from_ptr(0xB000))
}

fn count_after(start: i64, p: ComPtr, calls: &[VtCall<RefCall>]) -> (i64, i64) {
    let mut count = start;
    let mut lowest = start;
    for call in calls {
        if call.this == p {
            match call.args {
                RefCall::AddRef => count += 1,
                RefCall::Release => count -= 1,
            }
        }
        lowest = lowest.min(count);
    }
    (count, lowest)
}

#[test]
fn success_code_is_ok() {
    assert_eq!(ok_to_hrresult(S_OK), Ok(()));
    assert_eq!(ok_to_hrresult(0), Ok(()));
}

#[test]
fn every_other_code_is_the_failure_that_carries_it() {
    for code in [1u32, E_FAIL, E_NOINTERFACE, E_POINTER, VFW_E_NOT_FOUND, u32::MAX] {
        assert_eq!(ok_to_hrresult(code), Err(HRESULT { code }));
    }
    assert_eq!(E_FAIL, 0x8000_4005);
    assert_eq!(ok_to_hrresult(0x8000_4005), Err(HRESULT { code: 0x8000_4005 }));
}

#[test]
fn success_hands_out_the_object() {
    let out = ComPtr::from_ptr(0xC000);
    let r = ok_to_hrresult_queried::<IBaseFilter>(S_OK, out);
    let obj = r.unwrap();
    assert_eq!(obj.ptr(), out);
    assert!(!obj.ptr().is_null());
}

#[test]
fn failure_hands_out_no_object() {
    let out = ComPtr::from_ptr(0xC000);
    match ok_to_hrresult_queried::<IBaseFilter>(E_FAIL, out) {
        Err(e) => assert_eq!(e, HRESULT { code: E_FAIL }),
        Ok(_) => panic!("a failure hands out no object"),
    }
    match ok_to_hrresult_queried::<IEnumFilters>(VFW_E_NOT_FOUND, ComPtr::null()) {
        Err(e) => assert_eq!(e.code, 0x8004_0216),
        Ok(_) => panic!("a failure hands out no object"),
    }
}

#[test]
fn virtual_tables_are_laid_out_in_order() {
    let u = IUnknownVT::new();
    assert_eq!((u.QueryInterface, u.AddRef, u.Release), (0, 1, 2));
    assert_eq!(IUnknownVT::LEN, 3);
    let vt = IFilterGraphVT::new();
    assert_eq!(vt.IUnknownVT, u);
    let slots = [
        vt.IUnknownVT.QueryInterface,
        vt.IUnknownVT.AddRef,
        vt.IUnknownVT.Release,
        vt.AddFilter,
        vt.RemoveFilter,
        vt.EnumFilters,
        vt.FindFilterByName,
        vt.ConnectDirect,
        vt.Reconnect,
        vt.Disconnect,
        vt.SetDefaultSyncSource,
    ];
    assert_eq!(slots.len(), IFilterGraphVT::LEN);
    for (i, slot) in slots.iter().enumerate() {
        assert_eq!(*slot, i);
    }
}

#[test]
fn add_filter_call() {
    let call = graph().AddFilter(&filter(), "src");
    assert_eq!(call.this, ComPtr::from_ptr(0xA000));
    assert_eq!(call.slot, 3);
    match call.args {
        FilterGraphArgs::AddFilter { filter, name } => {
            assert_eq!(filter, ComPtr::from_ptr(0xB000));
            assert_eq!(name.as_slice(), &[0x73, 0x72, 0x63, 0]);
        },
        _ => panic!("the call adds a filter"),
    }
}

#[test]
fn remove_filter_call() {
    let call = graph().RemoveFilter(&filter());
    assert_eq!(call.this, ComPtr::from_ptr(0xA000));
    assert_eq!(call.slot, 4);
    match call.args {
        FilterGraphArgs::RemoveFilter { filter } => assert_eq!(filter, ComPtr::from_ptr(0xB000)),
        _ => panic!("the call removes a filter"),
    }
}

#[test]
fn enum_filters_call_and_reply() {
    let g = graph();
    let call = g.EnumFilters();
    assert_eq!(call.this, ComPtr::from_ptr(0xA000));
    assert_eq!(call.slot, 5);
    assert!(matches!(call.args, FilterGraphArgs::EnumFilters));
    let e = g.EnumFilters_reply(S_OK, ComPtr::from_ptr(0xE000)).unwrap();
    assert_eq!(e.ptr(), ComPtr::from_ptr(0xE000));
    match g.EnumFilters_reply(E_POINTER, ComPtr::from_ptr(0xE000)) {
        Err(e) => assert_eq!(e, HRESULT { code: E_POINTER }),
        Ok(_) => panic!("a failure hands out no object"),
    }
}

#[test]
fn find_filter_by_name_call_and_reply() {
    let g = graph();
    let call = g.FindFilterByName("\u{1F3A5}");
    assert_eq!(call.this, ComPtr::from_ptr(0xA000));
    assert_eq!(call.slot, 6);
    match call.args {
        FilterGraphArgs::FindFilterByName { name } => {
            assert_eq!(name.as_slice(), &[0xD83C, 0xDFA5, 0]);
            assert_eq!(name.to_string(), "\u{1F3A5}");
        },
        _ => panic!("the call looks a filter up"),
    }
    let f = g.FindFilterByName_reply(S_OK, ComPtr::from_ptr(0xF000)).unwrap();
    assert_eq!(f.ptr(), ComPtr::from_ptr(0xF000));
    match g.FindFilterByName_reply(VFW_E_NOT_FOUND, ComPtr::null()) {
        Err(e) => assert_eq!(e, HRESULT { code: VFW_E_NOT_FOUND }),
        Ok(_) => panic!("a failure hands out no object"),
    }
}

#[test]
fn set_default_sync_source_call() {
    let call = graph().SetDefaultSyncSource();
    assert_eq!(call.this, ComPtr::from_ptr(0xA000));
    assert_eq!(call.slot, 10);
    assert!(matches!(call.args, FilterGraphArgs::SetDefaultSyncSource));
}

#[test]
fn duplicate_counts_one_reference() {
    let g = graph();
    let (copy, call) = g.duplicate();
    assert_eq!(copy.ptr(), g.ptr());
    let call = call.unwrap();
    assert_eq!(call.this, ComPtr::from_ptr(0xA000));
    assert_eq!(call.slot, 1);
    assert_eq!(call.args, RefCall::AddRef);
}

#[test]
fn release_gives_one_reference_up() {
    let call = graph().release().unwrap();
    assert_eq!(call.this, ComPtr::from_ptr(0xA000));
    assert_eq!(call.slot, 2);
    assert_eq!(call.args, RefCall::Release);
}

#[test]
fn reference_to_no_object_counts_nothing() {
    let none = IFilterGraph::from_ptr(ComPtr::null());
    let (copy, call) = none.duplicate();
    assert!(call.is_none());
    assert!(copy.ptr().is_null());
    assert!(copy.release().is_none());
    assert!(none.release().is_none());
}

#[test]
fn duplicating_and_releasing_both_is_not_premature() {
    let p = ComPtr::from_ptr(0xA000);
    let g = graph();
    let (copy, add) = g.duplicate();
    let mut calls: Vec<VtCall<RefCall>> = Vec::new();
    calls.push(add.unwrap());
    assert_eq!(count_after(1, p, &calls), (2, 1));
    calls.push(copy.release().unwrap());
    assert_eq!(count_after(1, p, &calls), (1, 1));
    calls.push(g.release().unwrap());
    assert_eq!(count_after(1, p, &calls), (0, 0));

    let single = [graph().release().unwrap()];
    assert_eq!(count_after(1, p, &single), (0, 0));
    assert_eq!(count_after(1, p, &calls).0, count_after(1, p, &single).0);
    assert_eq!(count_after(1, ComPtr::from_ptr(0xB000), &calls), (1, 1));
}
