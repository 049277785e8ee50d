//! Window messages: the one channel between a control and its window. A
//! message is an identifier and two machine words; the reply is one word.
use vstd::prelude::*;

use crate::handles::Handle;

verus! {

/// The signed reading of a machine word: words above the greatest signed
/// value stand for the negative numbers.
pub open spec fn signed_of(p: usize) -> int {
    if p <= isize::MAX {
        p as int
    } else {
        p - usize::MAX - 1
    }
}

/// The unsigned reading of a signed machine word.
pub open spec fn unsigned_of(v: isize) -> int {
    if v >= 0 {
        v as int
    } else {
        v + usize::MAX + 1
    }
}

/// The two readings of a machine word are inverse to each other.
pub proof fn lemma_word_roundtrip(p: usize, v: isize)
    ensures
        isize::MIN <= signed_of(p) <= isize::MAX,
        0 <= unsigned_of(v) <= usize::MAX,
        unsigned_of(signed_of(p) as isize) == p,
        signed_of(unsigned_of(v) as usize) == v,
        signed_of(p) == 0 <==> p == 0,
        unsigned_of(v) == 0 <==> v == 0,
{
}

/// Reads an unsigned machine word as a signed one, bit for bit.
pub fn to_signed(p: usize) -> (v: isize)
    ensures
        v == signed_of(p),
{
    let half: usize = isize::MAX as usize;
    if p <= half {
        p as isize
    } else {
        let low: isize = (p - half - 1) as isize;
        low + isize::MIN
    }
}

/// Reads a signed machine word as an unsigned one, bit for bit.
pub fn to_unsigned(v: isize) -> (p: usize)
    ensures
        p == unsigned_of(v),
{
    if v >= 0 {
        v as usize
    } else {
        let up: usize = (v - isize::MIN) as usize;
        up + (isize::MAX as usize) + 1
    }
}

/// The low 32 bits of a signed machine word.
pub open spec fn low_dword_of(v: isize) -> u32 {
    (unsigned_of(v) % 0x1_0000_0000) as u32
}

/// Extracts the low 32 bits of a signed machine word.
pub fn low_dword(v: isize) -> (d: u32)
    ensures
        d == low_dword_of(v),
{
    let wide: u64 = to_unsigned(v) as u64;
    (wide % 0x1_0000_0000) as u32
}

/// The signed reading of a 32-bit value, bit for bit.
pub open spec fn dword_as_signed(v: u32) -> i32 {
    if v <= i32::MAX {
        v as i32
    } else {
        (v - 0x1_0000_0000) as i32
    }
}

/// Reads a 32-bit value as a signed one, bit for bit.
pub fn dword_to_signed(v: u32) -> (r: i32)
    ensures
        r == dword_as_signed(v),
{
    if v <= 0x7FFF_FFFF {
        v as i32
    } else {
        (v as i64 - 0x1_0000_0000) as i32
    }
}

/// A system error: the code that the operating system gave for a failure.
#[derive(Clone, Copy, PartialEq, Eq, Structural, Debug)]
pub struct ERROR {
    pub code: u32,
}

/// Result of an operation that fails with a system error.
pub type SysResult<T> = Result<T, ERROR>;

/// A window message in its generic form.
#[derive(Clone, Copy, PartialEq, Eq, Structural, Debug)]
pub struct WndMsg {
    /// Identifier of the message.
    pub msg_id: u32,
    /// First parameter.
    pub wparam: usize,
    /// Second parameter.
    pub lparam: isize,
}

impl WndMsg {
    /// The message with the given identifier and parameters.
    pub fn new(msg_id: u32, wparam: usize, lparam: isize) -> (m: WndMsg)
        ensures
            m == (WndMsg { msg_id, wparam, lparam }),
    {
        WndMsg { msg_id, wparam, lparam }
    }
}

/// What a reply of zero means for a message that reports failure so: the
/// given error; any other reply is success and is handed on.
pub open spec fn zero_as_err_spec(v: isize, code: u32) -> SysResult<isize> {
    if v == 0 {
        Err(ERROR { code })
    } else {
        Ok(v)
    }
}

/// Reads a reply of zero as the failure `code`.
pub fn zero_as_err(v: isize, code: u32) -> (r: SysResult<isize>)
    ensures
        r == zero_as_err_spec(v, code),
{
    if v == 0 {
        Err(ERROR { code })
    } else {
        Ok(v)
    }
}

/// What a reply of zero means for a message that answers with an optional
/// value: nothing; any other reply is the value.
pub open spec fn zero_as_none_spec(v: isize) -> Option<isize> {
    if v == 0 {
        None
    } else {
        Some(v)
    }
}

/// Reads a reply of zero as no value.
pub fn zero_as_none(v: isize) -> (r: Option<isize>)
    ensures
        r == zero_as_none_spec(v),
{
    if v == 0 {
        None
    } else {
        Some(v)
    }
}

/// The handle that a reply word holds.
pub open spec fn handle_of_reply<H: Handle>(v: isize) -> H {
    H::spec_from_ptr(unsigned_of(v) as usize)
}

/// The message word that holds a handle.
pub open spec fn word_of_handle<H: Handle>(h: H) -> isize {
    signed_of(h.raw()) as isize
}

/// A handle, put into a message word and read back from it, is the handle
/// again; and the word is zero exactly for the null handle.
pub proof fn lemma_handle_word_roundtrip<H: Handle>(h: H)
    ensures
        handle_of_reply::<H>(word_of_handle(h)) == h,
        word_of_handle(h) == 0 <==> h.spec_is_null(),
{
    lemma_word_roundtrip(h.raw(), 0);
    h.lemma_raw_determines();
    H::lemma_from_ptr(h.raw());
}

/// Puts a handle into a message word.
pub fn handle_to_word<H: Handle>(h: &H) -> (v: isize)
    ensures
        v == word_of_handle(*h),
{
    to_signed(h.as_ptr())
}

/// Reads a handle from a reply word.
pub fn handle_from_word<H: Handle>(v: isize) -> (h: H)
    ensures
        h == handle_of_reply::<H>(v),
{
    H::from_ptr(to_unsigned(v))
}

/// A typed message whose parameters are plain words.
///
/// Such a message knows its generic form, which is what is sent, and how to
/// read the word that comes back.
pub trait MsgSend {
    /// What the reply word is read as.
    type RetType;

    /// The generic form of this message.
    spec fn generic_wm(&self) -> WndMsg;

    /// The meaning of the reply word `v` to this message.
    spec fn ret_of(&self, v: isize) -> Self::RetType;

    /// Reads the reply word.
    fn convert_ret(&self, v: isize) -> (r: Self::RetType)
        ensures
            r == self.ret_of(v),
    ;

    /// Puts the message into its generic form.
    fn as_generic_wm(&self) -> (m: WndMsg)
        ensures
            m == self.generic_wm(),
    ;
}

} // verus!
