//! Helpers shared by the controls: scaling to the resolution of the screen,
//! and identifiers for controls that were given none.
use vstd::prelude::*;

use crate::structs::POINT;

verus! {

/// The resolution, in dots per inch, at which coordinates need no scaling.
pub const BASE_DPI: i32 = 96;

/// The first identifier that is handed out to a control that has none.
pub const BASE_CTRL_ID: u16 = 20_000;

/// `n * numerator / denominator`, rounded to the nearest integer, halves
/// away from zero; -1 where the divisor is zero or the result does not fit
/// in 32 bits.
pub open spec fn mul_div_spec(n: int, numerator: int, denominator: int) -> int {
    if denominator == 0 {
        -1
    } else {
        let p = n * numerator;
        let ap = if p >= 0 { p } else { -p };
        let ad = if denominator >= 0 { denominator } else { -denominator };
        let mag = (ap + ad / 2) / ad;
        let q = if (p >= 0) == (denominator > 0) { mag } else { -mag };
        if i32::MIN <= q <= i32::MAX {
            q
        } else {
            -1
        }
    }
}

/// Multiplies two 32-bit values and divides the 64-bit product by a third,
/// rounding to the nearest integer.
pub fn mul_div(n: i32, numerator: i32, denominator: i32) -> (r: i32)
    ensures
        r == mul_div_spec(n as int, numerator as int, denominator as int),
{
    if denominator == 0 {
        return -1;
    }
    let a: i64 = n as i64;
    let b: i64 = numerator as i64;
    let d: i64 = denominator as i64;
    assert(-0x4000_0000_0000_0000 <= a * b <= 0x4000_0000_0000_0000) by (nonlinear_arith)
        requires
            -0x8000_0000 <= a <= 0x8000_0000,
            -0x8000_0000 <= b <= 0x8000_0000,
    ;
    let p: i64 = a * b;
    let ap: i64 = if p >= 0 { p } else { -p };
    let ad: i64 = if d >= 0 { d } else { -d };
    let mag: i64 = (ap + ad / 2) / ad;
    let q: i64 = if (p >= 0) == (d > 0) { mag } else { -mag };
    if q < -0x8000_0000 || q > 0x7FFF_FFFF {
        -1
    } else {
        q as i32
    }
}

/// A point given for the base resolution, scaled to the resolution `dpi`
/// of the screen, each coordinate on its own.
pub open spec fn multiply_dpi_spec(pt: POINT, dpi: POINT) -> POINT {
    POINT {
        x: mul_div_spec(pt.x as int, dpi.x as int, BASE_DPI as int) as i32,
        y: mul_div_spec(pt.y as int, dpi.y as int, BASE_DPI as int) as i32,
    }
}

/// Scales a point to the resolution `dpi` of the screen.
pub fn multiply_dpi(pt: POINT, dpi: POINT) -> (r: POINT)
    ensures
        r == multiply_dpi_spec(pt, dpi),
{
    POINT { x: mul_div(pt.x, dpi.x, BASE_DPI), y: mul_div(pt.y, dpi.y, BASE_DPI) }
}

/// At the base resolution a point stays where it is.
pub proof fn lemma_multiply_dpi_identity(pt: POINT)
    ensures
        multiply_dpi_spec(pt, POINT { x: BASE_DPI, y: BASE_DPI }) == pt,
{
    lemma_mul_div_identity(pt.x as int);
    lemma_mul_div_identity(pt.y as int);
}

/// Scaling by the base resolution changes nothing.
pub proof fn lemma_mul_div_identity(n: int)
    requires
        i32::MIN <= n <= i32::MAX,
    ensures
        mul_div_spec(n, BASE_DPI as int, BASE_DPI as int) == n,
{
    let p = n * 96;
    let ap = if p >= 0 { p } else { -p };
    assert((ap + 48) / 96 == if n >= 0 { n } else { -n });
}

/// The source of identifiers for the controls that were given none.
///
/// Identifiers are handed out in rising order from `BASE_CTRL_ID` on, each
/// one once.
#[derive(Debug)]
pub struct CtrlIds {
    next: u32,
}

impl CtrlIds {
    #[verifier::type_invariant]
    spec fn inv(self) -> bool {
        BASE_CTRL_ID <= self.next <= 0x1_0000
    }

    /// How many identifiers were handed out so far.
    pub closed spec fn count(&self) -> nat {
        (self.next - BASE_CTRL_ID) as nat
    }

    /// The identifiers that were handed out so far.
    pub open spec fn issued(&self) -> Set<u16> {
        Set::new(|id: u16| BASE_CTRL_ID <= id < BASE_CTRL_ID + self.count())
    }

    /// Whether every identifier was handed out.
    pub open spec fn exhausted(&self) -> bool {
        BASE_CTRL_ID + self.count() > u16::MAX
    }

    /// A source that has handed out nothing yet.
    pub fn new() -> (ids: CtrlIds)
        ensures
            ids.count() == 0,
            ids.issued() == Set::<u16>::empty(),
    {
        let ids = CtrlIds { next: 20_000 };
        assert(ids.issued() =~= Set::<u16>::empty());
        ids
    }

    /// Hands out an identifier that was not handed out before, or nothing
    /// when there is none left.
    pub fn auto_ctrl_id(&mut self) -> (r: Option<u16>)
        ensures
            r == next_ctrl_id(old(self).count()),
            final(self).count() == count_after(old(self).count()),
            r matches Some(id) ==> !old(self).issued().contains(id) && final(self).issued()
                == old(self).issued().insert(id),
            r is None ==> final(self).issued() == old(self).issued(),
    {
        proof {
            use_type_invariant(&*self);
        }
        if self.next > 0xFFFF {
            None
        } else {
            let id: u16 = self.next as u16;
            self.next = self.next + 1;
            assert(self.issued() =~= old(self).issued().insert(id));
            Some(id)
        }
    }
}

/// The identifier that is handed out after `count` others: the next in
/// rising order, or none when they are used up.
pub open spec fn next_ctrl_id(count: nat) -> Option<u16> {
    if BASE_CTRL_ID + count > u16::MAX {
        None
    } else {
        Some((BASE_CTRL_ID + count) as u16)
    }
}

/// How many identifiers are out after one more was asked for.
pub open spec fn count_after(count: nat) -> nat {
    if BASE_CTRL_ID + count > u16::MAX {
        count
    } else {
        count + 1
    }
}

/// Identifiers handed out at different times differ.
pub proof fn lemma_ctrl_ids_distinct(first: nat, second: nat)
    requires
        first < second,
    ensures
        next_ctrl_id(first) matches Some(a) ==> (next_ctrl_id(second) matches Some(b) ==> a != b),
{
}

} // verus!
