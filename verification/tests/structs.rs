use winsafe::co::{TVI_FIRST, TVI_LAST, TVI_ROOT, TVI_SORT};
use winsafe::handles::{Handle, HTREEITEM};
use winsafe::structs::{
    resource_id_from_word, resource_id_to_word, TreeitemTvi, POINT, SIZE, TVINSERTSTRUCT, TVITEMEX,
};
use winsafe::wstring::WString;

#[test]
fn point_and_size_default_to_zero() {
    assert_eq!(POINT::default(), POINT { x: 0, y: 0 });
    assert_eq!(SIZE::default(), SIZE { cx: 0, cy: 0 });
    assert_eq!(POINT::new(3, -4), POINT { x: 3, y: -4 });
    assert_eq!(SIZE::new(5, 6), SIZE { cx: 5, cy: 6 });
}

#[test]
fn tvitemex_defaults_to_zero() {
    let t = TVITEMEX::default();
    assert_eq!(t.mask, 0);
    assert!(t.hItem.is_null());
    assert_eq!(t.state, 0);
    assert_eq!(t.stateMask, 0);
    assert!(t.pszText.is_none());
    assert_eq!(t.cchTextMax, 0);
    assert_eq!(t.iImage, 0);
    assert_eq!(t.iSelectedImage, 0);
    assert_eq!(t.cChildren, 0);
    assert_eq!(t.lParam, 0);
    assert_eq!(t.pszText(), None);
}

#[test]
fn tvitemex_text_is_set_with_its_length() {
    let mut t = TVITEMEX::default();
    t.mask = 9;
    t.iImage = 4;
    t.set_pszText(Some(WString::from_str("node")));
    assert_eq!(t.cchTextMax, 5);
    assert_eq!(t.pszText(), Some(String::from("node")));
    assert_eq!(t.mask, 9);
    assert_eq!(t.iImage, 4);
    t.set_pszText(Some(WString::new_alloc_buf(261)));
    assert_eq!(t.cchTextMax, 261);
    assert_eq!(t.pszText(), Some(String::new()));
    t.set_pszText(None);
    assert_eq!(t.cchTextMax, 0);
    assert_eq!(t.pszText(), None);
}

#[test]
fn tvinsertstruct_defaults_to_zero() {
    let t = TVINSERTSTRUCT::default();
    assert!(t.hParent.is_null());
    assert_eq!(t.hInsertAfter, 0);
    assert_eq!(t.itemex.mask, 0);
    assert!(t.itemex.pszText.is_none());
    assert_eq!(t.hInsertAfter(), TreeitemTvi::Treeitem(HTREEITEM::default()));
}

#[test]
fn insert_after_is_read_back_as_it_was_set() {
    let mut t = TVINSERTSTRUCT::default();
    for tvi in [TVI_ROOT, TVI_FIRST, TVI_LAST, TVI_SORT] {
        t.set_hInsertAfter(TreeitemTvi::Tvi(tvi));
        assert_eq!(t.hInsertAfter, tvi);
        assert_eq!(t.hInsertAfter(), TreeitemTvi::Tvi(tvi));
    }
    assert_eq!(TVI_ROOT, -65536);
    assert_eq!(TVI_FIRST, -65535);
    assert_eq!(TVI_LAST, -65534);
    assert_eq!(TVI_SORT, -65533);
    let item = HTREEITEM::from_ptr(0x5000);
    t.set_hInsertAfter(TreeitemTvi::Treeitem(item));
    assert_eq!(t.hInsertAfter, 0x5000);
    assert_eq!(t.hInsertAfter(), TreeitemTvi::Treeitem(item));
    assert!(t.hParent.is_null());
}

#[test]
fn insert_after_reads_an_item_with_the_word_of_a_constant_as_the_constant() {
    let mut t = TVINSERTSTRUCT::default();
    let odd = HTREEITEM::from_ptr(TVI_LAST as usize);
    t.set_hInsertAfter(TreeitemTvi::Treeitem(odd));
    assert_eq!(t.hInsertAfter(), TreeitemTvi::Tvi(TVI_LAST));
}

#[test]
fn resource_identifier_goes_into_a_word_and_comes_back() {
    assert_eq!(resource_id_to_word(0), 0);
    assert_eq!(resource_id_to_word(101), 101);
    assert_eq!(resource_id_to_word(65_535), 65_535);
    for id in [0u16, 1, 101, 32_768, 65_535] {
        assert_eq!(resource_id_from_word(resource_id_to_word(id)), id);
    }
    assert_eq!(resource_id_from_word(0x1_0065), 0x65);
    assert_eq!(resource_id_from_word(usize::MAX), 65_535);
}
