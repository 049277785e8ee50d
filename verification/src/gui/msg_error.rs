//! The error of a message handler.
use vstd::prelude::*;
use vstd::string::*;

use crate::msg::WndMsg;
use crate::wstring::{char_from_u32, string_push};

verus! {

/// Result of the handling of a window message.
pub type MsgResult<T> = Result<T, MsgError>;

/// The character that stands for the digit `d`.
pub open spec fn digit_char(d: nat) -> char
    recommends
        d < 10,
{
    (48 + d) as char
}

/// The decimal notation of `n`, without leading zeros.
pub open spec fn decimal_of(n: nat) -> Seq<char>
    decreases n,
{
    if n < 10 {
        seq![digit_char(n)]
    } else {
        decimal_of(n / 10).push(digit_char(n % 10))
    }
}

/// The description of an error that occurred while the message `msg_id`
/// was handled, and whose own description is `source`.
pub open spec fn description_of(msg_id: u32, source: Seq<char>) -> Seq<char> {
    "WM "@ + decimal_of(msg_id as nat) + " - "@ + source
}

/// Appends the decimal notation of `n` to `s`.
fn push_decimal(s: &mut String, n: u32)
    ensures
        final(s)@ == old(s)@ + decimal_of(n as nat),
    decreases n,
{
    if n >= 10 {
        push_decimal(s, n / 10);
    }
    let d: u32 = n % 10;
    let c = char_from_u32(48 + d).unwrap();
    string_push(s, c);
    assert(s@ =~= old(s)@ + decimal_of(n as nat));
}

/// An error that occurred within the handling of a window message: the
/// message that was being handled, and what went wrong.
#[derive(Debug)]
pub struct MsgError {
    src_msg: WndMsg,
    source: String,
}

impl MsgError {
    /// The message that was being handled.
    pub closed spec fn spec_src_msg(&self) -> WndMsg {
        self.src_msg
    }

    /// The description of what went wrong.
    pub closed spec fn spec_source(&self) -> Seq<char> {
        self.source@
    }

    /// Constructs a new `MsgError` by wrapping the description of the
    /// error that occurred.
    pub fn new(src_msg: WndMsg, source: String) -> (e: MsgError)
        ensures
            e.spec_src_msg() == src_msg,
            e.spec_source() == source@,
    {
        Self { src_msg, source }
    }

    /// The source message information where the error originated from.
    pub fn src_msg(&self) -> (m: WndMsg)
        ensures
            m == self.spec_src_msg(),
    {
        self.src_msg
    }

    /// The description of the error that occurred.
    pub fn source(&self) -> (s: &str)
        ensures
            s@ == self.spec_source(),
    {
        self.source.as_str()
    }

    /// The description of this error: the identifier of the message in
    /// decimal notation, and the description of what went wrong.
    pub fn to_string(&self) -> (s: String)
        ensures
            s@ == description_of(self.spec_src_msg().msg_id, self.spec_source()),
    {
        let mut s = String::from_str("WM ");
        push_decimal(&mut s, self.src_msg.msg_id);
        s.append(" - ");
        s.append(self.source.as_str());
        s
    }
}

} // verus!
