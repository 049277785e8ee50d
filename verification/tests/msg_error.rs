use winsafe::gui::msg_error::{MsgError, MsgResult};
use winsafe::msg::WndMsg;

#[test]
fn msg_error_keeps_the_message_and_the_source() {
    let msg = WndMsg { msg_id: 0x0110, wparam: 1, lparam: -2 };
    let e = MsgError::new(msg, String::from("file not found"));
    assert_eq!(e.src_msg(), msg);
    assert_eq!(e.src_msg().wparam, 1);
    assert_eq!(e.src_msg().lparam, -2);
    assert_eq!(e.source(), "file not found");
}

#[test]
fn msg_error_describes_itself() {
    let e = MsgError::new(WndMsg { msg_id: 272, wparam: 0, lparam: 0 }, String::from("boom"));
    assert_eq!(e.to_string(), "WM 272 - boom");
    let e = MsgError::new(WndMsg { msg_id: 0, wparam: 0, lparam: 0 }, String::new());
    assert_eq!(e.to_string(), "WM 0 - ");
    let e = MsgError::new(WndMsg { msg_id: 7, wparam: 0, lparam: 0 }, String::from("x"));
    assert_eq!(e.to_string(), "WM 7 - x");
    let e = MsgError::new(WndMsg { msg_id: 10, wparam: 0, lparam: 0 }, String::from("x"));
    assert_eq!(e.to_string(), "WM 10 - x");
    let e = MsgError::new(WndMsg { msg_id: u32::MAX, wparam: 0, lparam: 0 }, String::from("\u{e9}"));
    assert_eq!(e.to_string(), "WM 4294967295 - \u{e9}");
}

#[test]
fn msg_error_description_agrees_with_the_standard_formatter() {
    for id in [0u32, 1, 9, 10, 99, 100, 1000, 0x0085, 0x1132, 65_535, 1_000_000_007, u32::MAX] {
        let e = MsgError::new(WndMsg { msg_id: id, wparam: 0, lparam: 0 }, String::from("why"));
        assert_eq!(e.to_string(), format!("WM {} - {}", id, "why"));
    }
}

#[test]
fn msg_result_carries_the_error() {
    let r: MsgResult<u8> = Err(MsgError::new(
        WndMsg { msg_id: 1, wparam: 0, lparam: 0 },
        String::from("no"),
    ));
    match r {
        Err(e) => assert_eq!(e.to_string(), "WM 1 - no"),
        Ok(_) => panic!("the result is an error"),
    }
    let ok: MsgResult<u8> = Ok(3);
    assert_eq!(ok.unwrap(), 3);
}
