//! Text at the foreign boundary: null-terminated sequences of UTF-16 units.
use vstd::prelude::*;
use vstd::string::*;

verus! {

/// The character that stands in for a unit that cannot be decoded.
pub const REPLACEMENT: char = '\u{FFFD}';

/// Whether `u` is the first half of a surrogate pair.
pub open spec fn is_high_surrogate(u: u16) -> bool {
    0xD800 <= u <= 0xDBFF
}

/// Whether `u` is the second half of a surrogate pair.
pub open spec fn is_low_surrogate(u: u16) -> bool {
    0xDC00 <= u <= 0xDFFF
}

/// Whether `v` is a Unicode scalar value, that is, the code of a `char`.
pub open spec fn is_scalar(v: u32) -> bool {
    v <= 0xD7FF || 0xE000 <= v <= 0x10FFFF
}

/// The units that encode one character: the character's code where it fits
/// in one unit, a surrogate pair where it does not.
pub open spec fn encode_char(c: char) -> Seq<u16> {
    let v = c as u32;
    if v < 0x10000 {
        seq![v as u16]
    } else {
        seq![(0xD800 + (v - 0x10000) / 0x400) as u16, (0xDC00 + (v - 0x10000) % 0x400) as u16]
    }
}

/// The UTF-16 encoding of a text, without terminator.
pub open spec fn encode_utf16(s: Seq<char>) -> Seq<u16>
    decreases s.len(),
{
    if s.len() == 0 {
        Seq::empty()
    } else {
        encode_char(s[0]) + encode_utf16(s.skip(1))
    }
}

/// The character that a surrogate pair encodes.
pub open spec fn pair_to_char(hi: u16, lo: u16) -> char {
    (0x10000 + (hi - 0xD800) * 0x400 + (lo - 0xDC00)) as char
}

/// The text that a sequence of UTF-16 units encodes. A surrogate that is
/// not part of a pair decodes to the replacement character.
pub open spec fn decode_utf16(u: Seq<u16>) -> Seq<char>
    decreases u.len(),
{
    if u.len() == 0 {
        Seq::empty()
    } else if is_high_surrogate(u[0]) && u.len() >= 2 && is_low_surrogate(u[1]) {
        seq![pair_to_char(u[0], u[1])] + decode_utf16(u.skip(2))
    } else if is_high_surrogate(u[0]) || is_low_surrogate(u[0]) {
        seq![REPLACEMENT] + decode_utf16(u.skip(1))
    } else {
        seq![u[0] as char] + decode_utf16(u.skip(1))
    }
}

/// The position of the first null unit, or the length where there is none.
pub open spec fn nul_position(u: Seq<u16>) -> int
    decreases u.len(),
{
    if u.len() == 0 || u[0] == 0 {
        0
    } else {
        1 + nul_position(u.skip(1))
    }
}

/// The units before the first null unit: the text that a buffer holds.
pub open spec fn until_nul(u: Seq<u16>) -> Seq<u16> {
    u.take(nul_position(u))
}

/// The buffer that carries a text across the boundary: its encoding and the
/// terminating null.
pub open spec fn wide_of(s: Seq<char>) -> Seq<u16> {
    encode_utf16(s).push(0)
}

/// The text that a buffer coming back across the boundary holds.
pub open spec fn text_of(u: Seq<u16>) -> Seq<char> {
    decode_utf16(until_nul(u))
}

/// How many units of the text `text` go into a buffer of `room` units, of
/// which the last one that is written is the terminating null.
pub open spec fn copied_len(text: Seq<u16>, room: nat) -> int {
    if text.len() < room {
        text.len() as int
    } else {
        room - 1
    }
}

/// What the buffer `dest` holds after the text of `src` was copied into
/// it: as much of the text as fits beside a terminating null, then the
/// null, then what was there before. A buffer without room stays as it is.
pub open spec fn copied_into(dest: Seq<u16>, src: Seq<u16>) -> Seq<u16> {
    if dest.len() == 0 {
        dest
    } else {
        let text = until_nul(src);
        let n = copied_len(text, dest.len());
        Seq::new(
            dest.len(),
            |i: int|
                if i < n {
                    text[i]
                } else if i == n {
                    0u16
                } else {
                    dest[i]
                },
        )
    }
}

/// `nul_position` is the one index that has no null unit before it and
/// either ends the sequence or holds a null unit.
pub proof fn lemma_nul_position(u: Seq<u16>, i: int)
    requires
        0 <= i <= u.len(),
        forall|j: int| 0 <= j < i ==> u[j] != 0,
        i == u.len() || u[i] == 0,
    ensures
        nul_position(u) == i,
    decreases i,
{
    if i > 0 {
        let rest = u.skip(1);
        assert forall|j: int| 0 <= j < i - 1 implies rest[j] != 0 by {
            assert(rest[j] == u[j + 1]);
        }
        lemma_nul_position(rest, i - 1);
    }
}

/// The first null unit lies within the sequence or at its end, and no unit
/// before it is null.
pub proof fn lemma_nul_position_bounds(u: Seq<u16>)
    ensures
        0 <= nul_position(u) <= u.len(),
        forall|j: int| 0 <= j < nul_position(u) ==> u[j] != 0,
        nul_position(u) == u.len() || u[nul_position(u)] == 0,
    decreases u.len(),
{
    if u.len() != 0 && u[0] != 0 {
        let rest = u.skip(1);
        lemma_nul_position_bounds(rest);
        assert forall|j: int| 0 <= j < nul_position(u) implies u[j] != 0 by {
            if j > 0 {
                assert(rest[j - 1] == u[j]);
            }
        }
    }
}

/// The encoding of a character is one or two units, none of them null
/// unless the character is the null character.
pub proof fn lemma_encode_char_units(c: char)
    ensures
        1 <= encode_char(c).len() <= 2,
        c != '\0' ==> forall|j: int| 0 <= j < encode_char(c).len() ==> encode_char(c)[j] != 0,
{
}

/// The encoding of a text without null characters holds no null unit.
pub proof fn lemma_encode_no_nul(s: Seq<char>)
    requires
        forall|i: int| 0 <= i < s.len() ==> s[i] != '\0',
    ensures
        forall|j: int| 0 <= j < encode_utf16(s).len() ==> encode_utf16(s)[j] != 0,
    decreases s.len(),
{
    if s.len() != 0 {
        let rest = s.skip(1);
        assert forall|i: int| 0 <= i < rest.len() implies rest[i] != '\0' by {
            assert(rest[i] == s[i + 1]);
        }
        lemma_encode_no_nul(rest);
        lemma_encode_char_units(s[0]);
        let head = encode_char(s[0]);
        let tail = encode_utf16(rest);
        assert forall|j: int| 0 <= j < encode_utf16(s).len() implies encode_utf16(s)[j] != 0 by {
            if j < head.len() {
                assert(encode_utf16(s)[j] == head[j]);
            } else {
                assert(encode_utf16(s)[j] == tail[j - head.len()]);
            }
        }
    }
}

/// Decoding what a character encodes to, followed by anything, gives the
/// character, followed by what the rest decodes to.
pub proof fn lemma_decode_after_char(c: char, rest: Seq<u16>)
    ensures
        decode_utf16(encode_char(c) + rest) == seq![c] + decode_utf16(rest),
{
    let u = encode_char(c) + rest;
    let v = c as u32;
    if v < 0x10000 {
        assert(u[0] == v as u16);
        assert(!is_high_surrogate(u[0]) && !is_low_surrogate(u[0]));
        assert(u.skip(1) =~= rest);
        assert(u[0] as char == c);
    } else {
        let w = (v - 0x10000) as int;
        assert(0 <= w < 0x100000);
        let hi = (0xD800 + w / 0x400) as u16;
        let lo = (0xDC00 + w % 0x400) as u16;
        assert(u[0] == hi && u[1] == lo);
        assert(is_high_surrogate(hi) && is_low_surrogate(lo));
        assert(u.skip(2) =~= rest);
        assert((hi - 0xD800) * 0x400 + (lo - 0xDC00) == w);
        assert(pair_to_char(hi, lo) == c);
    }
}

/// Decoding the encoding of a text gives the text.
pub proof fn lemma_decode_encode(s: Seq<char>)
    ensures
        decode_utf16(encode_utf16(s)) == s,
    decreases s.len(),
{
    if s.len() != 0 {
        lemma_decode_encode(s.skip(1));
        lemma_decode_after_char(s[0], encode_utf16(s.skip(1)));
        assert(seq![s[0]] + s.skip(1) =~= s);
    }
}

/// Round trip: a text without null characters, carried to its wide form
/// and read back, is the text again.
pub proof fn lemma_wide_roundtrip(s: Seq<char>)
    requires
        forall|i: int| 0 <= i < s.len() ==> s[i] != '\0',
    ensures
        text_of(wide_of(s)) == s,
{
    let e = encode_utf16(s);
    let w = wide_of(s);
    lemma_encode_no_nul(s);
    assert forall|j: int| 0 <= j < e.len() implies w[j] != 0 by {
        assert(w[j] == e[j]);
    }
    lemma_nul_position(w, e.len() as int);
    assert(until_nul(w) =~= e);
    lemma_decode_encode(s);
}

/// A text with a null character in it comes back cut off before that
/// character.
pub proof fn lemma_wide_cuts_at_nul(s: Seq<char>, k: int)
    requires
        0 <= k < s.len(),
        s[k] == '\0',
        forall|i: int| 0 <= i < k ==> s[i] != '\0',
    ensures
        text_of(wide_of(s)) == s.take(k),
{
    let w = wide_of(s);
    if k == 0 {
        assert(encode_char(s[0])[0] == 0);
        assert(w[0] == 0);
        assert(until_nul(w) =~= Seq::<u16>::empty());
        assert(s.take(0) =~= Seq::<char>::empty());
    } else {
        let head = encode_utf16(s.take(k));
        let tail = encode_utf16(s.skip(k));
        lemma_encode_concat(s.take(k), s.skip(k));
        assert(s.take(k) + s.skip(k) =~= s);
        assert(forall|i: int| 0 <= i < k ==> s.take(k)[i] == s[i]);
        lemma_encode_no_nul(s.take(k));
        assert(s.skip(k)[0] == '\0');
        assert(encode_char(s.skip(k)[0])[0] == 0);
        assert(tail[0] == 0);
        assert(w =~= head + tail.push(0));
        assert forall|j: int| 0 <= j < head.len() implies w[j] != 0 by {
            assert(w[j] == head[j]);
        }
        assert(w[head.len() as int] == tail[0]);
        lemma_nul_position(w, head.len() as int);
        assert(until_nul(w) =~= head);
        lemma_decode_encode(s.take(k));
    }
}

/// A text that was copied into a buffer with room for it and its
/// terminator is the text that the buffer holds.
pub proof fn lemma_copied_text(dest: Seq<u16>, src: Seq<u16>)
    requires
        until_nul(src).len() < dest.len(),
    ensures
        until_nul(copied_into(dest, src)) == until_nul(src),
        text_of(copied_into(dest, src)) == text_of(src),
{
    let text = until_nul(src);
    let c = copied_into(dest, src);
    lemma_nul_position_bounds(src);
    assert forall|j: int| 0 <= j < text.len() implies c[j] != 0 by {
        assert(c[j] == text[j]);
        assert(text[j] == src[j]);
    }
    lemma_nul_position(c, text.len() as int);
    assert(until_nul(c) =~= text);
}

/// The encoding of two texts joined is the two encodings joined.
pub proof fn lemma_encode_concat(a: Seq<char>, b: Seq<char>)
    ensures
        encode_utf16(a + b) == encode_utf16(a) + encode_utf16(b),
    decreases a.len(),
{
    if a.len() == 0 {
        assert(a + b =~= b);
        assert(encode_utf16(a) + encode_utf16(b) =~= encode_utf16(b));
    } else {
        lemma_encode_concat(a.skip(1), b);
        assert((a + b).skip(1) =~= a.skip(1) + b);
        assert((a + b)[0] == a[0]);
        assert(encode_char(a[0]) + (encode_utf16(a.skip(1)) + encode_utf16(b)) =~= (encode_char(
            a[0],
        ) + encode_utf16(a.skip(1))) + encode_utf16(b));
    }
}

/// The character with the code `v`, where `v` is the code of one.
///
/// Calls `char::from_u32` of the standard library. The contract claims what
/// its documentation says: the result is the character whose code is `v`
/// when `v` is a Unicode scalar value, and `None` for every other `v`.
#[verifier::external_body]
pub(crate) fn char_from_u32(v: u32) -> (r: Option<char>)
    ensures
        is_scalar(v) ==> r == Some(v as char),
        !is_scalar(v) ==> r is None,
{
    char::from_u32(v)
}

/// Appends one character to a string.
///
/// Calls `String::push` of the standard library. The contract claims what
/// its documentation says: the character is added at the end and nothing
/// else changes.
#[verifier::external_body]
pub(crate) fn string_push(s: &mut String, c: char)
    ensures
        final(s)@ == old(s)@.push(c),
{
    s.push(c)
}

/// Appends the units that encode `c` to `buf`.
fn push_encoded(buf: &mut Vec<u16>, c: char)
    ensures
        final(buf)@ == old(buf)@ + encode_char(c),
{
    let v: u32 = c as u32;
    if v < 0x10000 {
        buf.push(v as u16);
        assert(buf@ =~= old(buf)@ + encode_char(c));
    } else {
        let w: u32 = v - 0x10000;
        buf.push((0xD800 + w / 0x400) as u16);
        buf.push((0xDC00 + w % 0x400) as u16);
        assert(buf@ =~= old(buf)@ + encode_char(c));
    }
}

/// A buffer of UTF-16 units, as the foreign side reads and writes text.
///
/// The text a buffer holds is what stands before its first null unit; a
/// buffer made from a text ends with one. A buffer of length zero holds the
/// empty text.
#[derive(Debug)]
pub struct WString {
    buf: Vec<u16>,
}

impl View for WString {
    type V = Seq<u16>;

    /// All units of the buffer, the terminator and what follows it included.
    closed spec fn view(&self) -> Seq<u16> {
        self.buf@
    }
}

impl WString {
    /// A buffer without any unit.
    pub fn new() -> (w: WString)
        ensures
            w@ == Seq::<u16>::empty(),
    {
        WString { buf: Vec::new() }
    }

    /// The buffer that carries `s`: its UTF-16 encoding and a terminating
    /// null.
    pub fn from_str(s: &str) -> (w: WString)
        ensures
            w@ == wide_of(s@),
    {
        let n = s.unicode_len();
        let mut buf: Vec<u16> = Vec::new();
        let mut i: usize = 0;
        proof {
            assert(s@.skip(0) =~= s@);
            assert(buf@ + encode_utf16(s@) =~= encode_utf16(s@));
        }
        while i < n
            invariant
                i <= n,
                n == s@.len(),
                buf@ + encode_utf16(s@.skip(i as int)) == encode_utf16(s@),
            decreases n - i,
        {
            let c = s.get_char(i);
            let ghost before = buf@;
            let ghost rest = s@.skip(i as int);
            push_encoded(&mut buf, c);
            proof {
                assert(rest[0] == c);
                assert(rest.skip(1) =~= s@.skip(i as int + 1));
                assert(buf@ + encode_utf16(s@.skip(i as int + 1)) =~= before + encode_utf16(rest));
            }
            i += 1;
        }
        proof {
            assert(s@.skip(n as int) =~= Seq::<char>::empty());
            assert(buf@ =~= encode_utf16(s@));
        }
        buf.push(0);
        WString { buf }
    }

    /// A copy of the units of `src`, followed by a terminating null.
    pub fn from_wchars_slice(src: &[u16]) -> (w: WString)
        ensures
            w@ == src@.push(0),
    {
        let mut buf: Vec<u16> = Vec::new();
        let mut i: usize = 0;
        while i < src.len()
            invariant
                i <= src.len(),
                buf@ == src@.take(i as int),
            decreases src.len() - i,
        {
            buf.push(src[i]);
            assert(buf@ =~= src@.take(i as int + 1));
            i += 1;
        }
        assert(src@.take(src.len() as int) =~= src@);
        buf.push(0);
        WString { buf }
    }

    /// A buffer of `num_chars` null units, for the foreign side to fill.
    pub fn new_alloc_buf(num_chars: usize) -> (w: WString)
        ensures
            w@.len() == num_chars,
            forall|i: int| 0 <= i < num_chars ==> w@[i] == 0,
            text_of(w@) == Seq::<char>::empty(),
    {
        let mut buf: Vec<u16> = Vec::new();
        let mut i: usize = 0;
        while i < num_chars
            invariant
                i <= num_chars,
                buf@.len() == i,
                forall|j: int| 0 <= j < i ==> buf@[j] == 0,
            decreases num_chars - i,
        {
            buf.push(0);
            i += 1;
        }
        proof {
            assert(nul_position(buf@) == 0);
            assert(until_nul(buf@) =~= Seq::<u16>::empty());
        }
        WString { buf }
    }

    /// The number of units in the buffer, the terminator and what follows
    /// it included.
    pub fn buffer_size(&self) -> (n: usize)
        ensures
            n == self@.len(),
    {
        self.buf.len()
    }

    /// All units of the buffer.
    pub fn as_slice(&self) -> (s: &[u16])
        ensures
            s@ == self@,
    {
        self.buf.as_slice()
    }

    /// Copies the text that the buffer holds into `dest` and ends it there
    /// with a null unit. Where `dest` has no room for all of the text, the
    /// text is cut short.
    pub fn copy_to_slice(&self, dest: &mut [u16])
        ensures
            final(dest)@ == copied_into(old(dest)@, self@),
    {
        let room = dest.len();
        if room == 0 {
            return ;
        }
        let len = self.len();
        let n = if len < room {
            len
        } else {
            room - 1
        };
        let ghost text = until_nul(self@);
        proof {
            lemma_nul_position_bounds(self@);
        }
        let mut i: usize = 0;
        while i < n
            invariant
                i <= n,
                n < room,
                room == dest@.len(),
                dest@.len() == old(dest)@.len(),
                n <= text.len(),
                text == self.buf@.take(text.len() as int),
                text.len() <= self.buf@.len(),
                forall|j: int| 0 <= j < i ==> dest@[j] == text[j],
                forall|j: int| i <= j < room ==> dest@[j] == old(dest)@[j],
            decreases n - i,
        {
            dest[i] = self.buf[i];
            i += 1;
        }
        dest[n] = 0;
        assert(dest@ =~= copied_into(old(dest)@, self@));
    }

    /// The number of units of the text that the buffer holds: those before
    /// the first null unit.
    pub fn len(&self) -> (n: usize)
        ensures
            n == nul_position(self@),
            n == until_nul(self@).len(),
    {
        let mut i: usize = 0;
        while i < self.buf.len() && self.buf[i] != 0
            invariant
                i <= self.buf.len(),
                forall|j: int| 0 <= j < i ==> self.buf@[j] != 0,
            decreases self.buf.len() - i,
        {
            i += 1;
        }
        proof {
            lemma_nul_position(self.buf@, i as int);
        }
        i
    }

    /// Whether the buffer holds the empty text.
    pub fn is_empty(&self) -> (b: bool)
        ensures
            b == (text_of(self@).len() == 0),
    {
        let b = self.buf.len() == 0 || self.buf[0] == 0;
        proof {
            let t = until_nul(self@);
            if b {
                assert(t =~= Seq::<u16>::empty());
            } else {
                lemma_nul_position_bounds(self@);
                assert(t.len() >= 1);
                lemma_decode_nonempty(t);
            }
        }
        b
    }

    /// The text that the buffer holds: what its units before the first null
    /// unit decode to.
    pub fn to_string(&self) -> (s: String)
        ensures
            s@ == text_of(self@),
    {
        let n = self.len();
        let mut out = String::new();
        let mut i: usize = 0;
        let ghost units = until_nul(self@);
        proof {
            lemma_nul_position_bounds(self@);
            assert(units.skip(0) =~= units);
        }
        while i < n
            invariant
                i <= n,
                n == units.len(),
                n <= self.buf@.len(),
                units == self.buf@.take(n as int),
                out@ + decode_utf16(units.skip(i as int)) == decode_utf16(units),
            decreases n - i,
        {
            let ghost rest = units.skip(i as int);
            let ghost before = out@;
            let u: u16 = self.buf[i];
            assert(rest[0] == u);
            if 0xD800 <= u && u <= 0xDBFF && i + 1 < n && 0xDC00 <= self.buf[i + 1] && self.buf[i
                + 1] <= 0xDFFF {
                let lo: u16 = self.buf[i + 1];
                assert(rest[1] == lo);
                let v: u32 = 0x10000 + (u as u32 - 0xD800) * 0x400 + (lo as u32 - 0xDC00);
                let c = char_from_u32(v).unwrap();
                string_push(&mut out, c);
                proof {
                    assert(c == pair_to_char(u, lo));
                    assert(rest.skip(2) =~= units.skip(i as int + 2));
                    assert(out@ + decode_utf16(units.skip(i as int + 2)) =~= before + decode_utf16(
                        rest,
                    ));
                }
                i += 2;
            } else {
                let c = if 0xD800 <= u && u <= 0xDFFF {
                    REPLACEMENT
                } else {
                    char_from_u32(u as u32).unwrap()
                };
                string_push(&mut out, c);
                proof {
                    assert(rest.skip(1) =~= units.skip(i as int + 1));
                    assert(out@ + decode_utf16(units.skip(i as int + 1)) =~= before + decode_utf16(
                        rest,
                    ));
                }
                i += 1;
            }
        }
        proof {
            assert(units.skip(n as int) =~= Seq::<u16>::empty());
            assert(out@ =~= decode_utf16(units));
        }
        out
    }
}

/// Units that are not all consumed decode to at least one character.
pub proof fn lemma_decode_nonempty(u: Seq<u16>)
    requires
        u.len() > 0,
    ensures
        decode_utf16(u).len() > 0,
{
}

} // verus!
