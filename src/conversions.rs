//! Conversions of number types into machine integers. Each unwinds the type one
//! constructor at a time; a number beyond the target's range saturates at the nearest
//! bound, which no type that the compiler can build reaches.

use crate::numeral::Numeral;
use crate::types::{NegType, NumType, PosType, Pred, Succ, Zero};
use vstd::prelude::*;

verus! {

/// `v` limited to the range from `lo` to `hi`.
pub open spec fn clamp(v: int, lo: int, hi: int) -> int {
    if v < lo {
        lo
    } else if v > hi {
        hi
    } else {
        v
    }
}

/// The value of a well-formed numeral as an `i64`, saturating at the bounds.
fn saturating_i64(n: &Numeral) -> (r: i64)
    requires
        n.wf(),
    ensures
        r == clamp(n.value(), i64::MIN as int, i64::MAX as int),
{
    match n.to_i64() {
        Some(k) => k,
        None => if n.is_nonnegative() {
            proof {
                crate::numeral::lemma_sign_classes(*n);
            }
            i64::MAX
        } else {
            proof {
                crate::numeral::lemma_sign_classes(*n);
            }
            i64::MIN
        },
    }
}

/// The value of a non-negative numeral as a `u64`, saturating at the upper bound.
fn saturating_u64(n: &Numeral) -> (r: u64)
    requires
        n.is_nonneg(),
    ensures
        r == clamp(n.value(), 0, u64::MAX as int),
{
    proof {
        crate::numeral::lemma_sign_classes(*n);
    }
    match n.to_u64() {
        Some(k) => k,
        None => u64::MAX,
    }
}

fn saturating_i32(n: &Numeral) -> (r: i32)
    requires
        n.wf(),
    ensures
        r == clamp(n.value(), i32::MIN as int, i32::MAX as int),
{
    let w = saturating_i64(n);
    if w > i32::MAX as i64 {
        i32::MAX
    } else if w < i32::MIN as i64 {
        i32::MIN
    } else {
        w as i32
    }
}

fn saturating_i16(n: &Numeral) -> (r: i16)
    requires
        n.wf(),
    ensures
        r == clamp(n.value(), i16::MIN as int, i16::MAX as int),
{
    let w = saturating_i64(n);
    if w > i16::MAX as i64 {
        i16::MAX
    } else if w < i16::MIN as i64 {
        i16::MIN
    } else {
        w as i16
    }
}

fn saturating_i8(n: &Numeral) -> (r: i8)
    requires
        n.wf(),
    ensures
        r == clamp(n.value(), i8::MIN as int, i8::MAX as int),
{
    let w = saturating_i64(n);
    if w > i8::MAX as i64 {
        i8::MAX
    } else if w < i8::MIN as i64 {
        i8::MIN
    } else {
        w as i8
    }
}

fn saturating_isize(n: &Numeral) -> (r: isize)
    requires
        n.wf(),
    ensures
        r == clamp(n.value(), isize::MIN as int, isize::MAX as int),
{
    let w = saturating_i64(n);
    if w > isize::MAX as i64 {
        isize::MAX
    } else if w < isize::MIN as i64 {
        isize::MIN
    } else {
        w as isize
    }
}

fn saturating_u32(n: &Numeral) -> (r: u32)
    requires
        n.is_nonneg(),
    ensures
        r == clamp(n.value(), 0, u32::MAX as int),
{
    let w = saturating_u64(n);
    if w > u32::MAX as u64 {
        u32::MAX
    } else {
        w as u32
    }
}

fn saturating_u16(n: &Numeral) -> (r: u16)
    requires
        n.is_nonneg(),
    ensures
        r == clamp(n.value(), 0, u16::MAX as int),
{
    let w = saturating_u64(n);
    if w > u16::MAX as u64 {
        u16::MAX
    } else {
        w as u16
    }
}

fn saturating_u8(n: &Numeral) -> (r: u8)
    requires
        n.is_nonneg(),
    ensures
        r == clamp(n.value(), 0, u8::MAX as int),
{
    let w = saturating_u64(n);
    if w > u8::MAX as u64 {
        u8::MAX
    } else {
        w as u8
    }
}

fn saturating_usize(n: &Numeral) -> (r: usize)
    requires
        n.is_nonneg(),
    ensures
        r == clamp(n.value(), 0, usize::MAX as int),
{
    let w = saturating_u64(n);
    if w > usize::MAX as u64 {
        usize::MAX
    } else {
        w as usize
    }
}

impl From<Zero> for i64 {
    fn from(_n: Zero) -> i64 {
        saturating_i64(&<Zero>::numeral())
    }
}

impl vstd::std_specs::convert::FromSpecImpl<Zero> for i64 {
    open spec fn obeys_from_spec() -> bool {
        true
    }

    open spec fn from_spec(v: Zero) -> i64 {
        clamp(<Zero>::value(), i64::MIN as int, i64::MAX as int) as i64
    }
}

impl<N: PosType> From<Succ<N>> for i64 {
    fn from(_n: Succ<N>) -> i64 {
        saturating_i64(&<Succ<N>>::numeral())
    }
}

impl<N: PosType> vstd::std_specs::convert::FromSpecImpl<Succ<N>> for i64 {
    open spec fn obeys_from_spec() -> bool {
        true
    }

    open spec fn from_spec(v: Succ<N>) -> i64 {
        clamp(<Succ<N>>::value(), i64::MIN as int, i64::MAX as int) as i64
    }
}

impl<N: NegType> From<Pred<N>> for i64 {
    fn from(_n: Pred<N>) -> i64 {
        saturating_i64(&<Pred<N>>::numeral())
    }
}

impl<N: NegType> vstd::std_specs::convert::FromSpecImpl<Pred<N>> for i64 {
    open spec fn obeys_from_spec() -> bool {
        true
    }

    open spec fn from_spec(v: Pred<N>) -> i64 {
        clamp(<Pred<N>>::value(), i64::MIN as int, i64::MAX as int) as i64
    }
}

impl From<Zero> for i32 {
    fn from(_n: Zero) -> i32 {
        saturating_i32(&<Zero>::numeral())
    }
}

impl vstd::std_specs::convert::FromSpecImpl<Zero> for i32 {
    open spec fn obeys_from_spec() -> bool {
        true
    }

    open spec fn from_spec(v: Zero) -> i32 {
        clamp(<Zero>::value(), i32::MIN as int, i32::MAX as int) as i32
    }
}

impl<N: PosType> From<Succ<N>> for i32 {
    fn from(_n: Succ<N>) -> i32 {
        saturating_i32(&<Succ<N>>::numeral())
    }
}

impl<N: PosType> vstd::std_specs::convert::FromSpecImpl<Succ<N>> for i32 {
    open spec fn obeys_from_spec() -> bool {
        true
    }

    open spec fn from_spec(v: Succ<N>) -> i32 {
        clamp(<Succ<N>>::value(), i32::MIN as int, i32::MAX as int) as i32
    }
}

impl<N: NegType> From<Pred<N>> for i32 {
    fn from(_n: Pred<N>) -> i32 {
        saturating_i32(&<Pred<N>>::numeral())
    }
}

impl<N: NegType> vstd::std_specs::convert::FromSpecImpl<Pred<N>> for i32 {
    open spec fn obeys_from_spec() -> bool {
        true
    }

    open spec fn from_spec(v: Pred<N>) -> i32 {
        clamp(<Pred<N>>::value(), i32::MIN as int, i32::MAX as int) as i32
    }
}

impl From<Zero> for i16 {
    fn from(_n: Zero) -> i16 {
        saturating_i16(&<Zero>::numeral())
    }
}

impl vstd::std_specs::convert::FromSpecImpl<Zero> for i16 {
    open spec fn obeys_from_spec() -> bool {
        true
    }

    open spec fn from_spec(v: Zero) -> i16 {
        clamp(<Zero>::value(), i16::MIN as int, i16::MAX as int) as i16
    }
}

impl<N: PosType> From<Succ<N>> for i16 {
    fn from(_n: Succ<N>) -> i16 {
        saturating_i16(&<Succ<N>>::numeral())
    }
}

impl<N: PosType> vstd::std_specs::convert::FromSpecImpl<Succ<N>> for i16 {
    open spec fn obeys_from_spec() -> bool {
        true
    }

    open spec fn from_spec(v: Succ<N>) -> i16 {
        clamp(<Succ<N>>::value(), i16::MIN as int, i16::MAX as int) as i16
    }
}

impl<N: NegType> From<Pred<N>> for i16 {
    fn from(_n: Pred<N>) -> i16 {
        saturating_i16(&<Pred<N>>::numeral())
    }
}

impl<N: NegType> vstd::std_specs::convert::FromSpecImpl<Pred<N>> for i16 {
    open spec fn obeys_from_spec() -> bool {
        true
    }

    open spec fn from_spec(v: Pred<N>) -> i16 {
        clamp(<Pred<N>>::value(), i16::MIN as int, i16::MAX as int) as i16
    }
}

impl From<Zero> for i8 {
    fn from(_n: Zero) -> i8 {
        saturating_i8(&<Zero>::numeral())
    }
}

impl vstd::std_specs::convert::FromSpecImpl<Zero> for i8 {
    open spec fn obeys_from_spec() -> bool {
        true
    }

    open spec fn from_spec(v: Zero) -> i8 {
        clamp(<Zero>::value(), i8::MIN as int, i8::MAX as int) as i8
    }
}

impl<N: PosType> From<Succ<N>> for i8 {
    fn from(_n: Succ<N>) -> i8 {
        saturating_i8(&<Succ<N>>::numeral())
    }
}

impl<N: PosType> vstd::std_specs::convert::FromSpecImpl<Succ<N>> for i8 {
    open spec fn obeys_from_spec() -> bool {
        true
    }

    open spec fn from_spec(v: Succ<N>) -> i8 {
        clamp(<Succ<N>>::value(), i8::MIN as int, i8::MAX as int) as i8
    }
}

impl<N: NegType> From<Pred<N>> for i8 {
    fn from(_n: Pred<N>) -> i8 {
        saturating_i8(&<Pred<N>>::numeral())
    }
}

impl<N: NegType> vstd::std_specs::convert::FromSpecImpl<Pred<N>> for i8 {
    open spec fn obeys_from_spec() -> bool {
        true
    }

    open spec fn from_spec(v: Pred<N>) -> i8 {
        clamp(<Pred<N>>::value(), i8::MIN as int, i8::MAX as int) as i8
    }
}

impl From<Zero> for isize {
    fn from(_n: Zero) -> isize {
        saturating_isize(&<Zero>::numeral())
    }
}

impl vstd::std_specs::convert::FromSpecImpl<Zero> for isize {
    open spec fn obeys_from_spec() -> bool {
        true
    }

    open spec fn from_spec(v: Zero) -> isize {
        clamp(<Zero>::value(), isize::MIN as int, isize::MAX as int) as isize
    }
}

impl<N: PosType> From<Succ<N>> for isize {
    fn from(_n: Succ<N>) -> isize {
        saturating_isize(&<Succ<N>>::numeral())
    }
}

impl<N: PosType> vstd::std_specs::convert::FromSpecImpl<Succ<N>> for isize {
    open spec fn obeys_from_spec() -> bool {
        true
    }

    open spec fn from_spec(v: Succ<N>) -> isize {
        clamp(<Succ<N>>::value(), isize::MIN as int, isize::MAX as int) as isize
    }
}

impl<N: NegType> From<Pred<N>> for isize {
    fn from(_n: Pred<N>) -> isize {
        saturating_isize(&<Pred<N>>::numeral())
    }
}

impl<N: NegType> vstd::std_specs::convert::FromSpecImpl<Pred<N>> for isize {
    open spec fn obeys_from_spec() -> bool {
        true
    }

    open spec fn from_spec(v: Pred<N>) -> isize {
        clamp(<Pred<N>>::value(), isize::MIN as int, isize::MAX as int) as isize
    }
}

impl From<Zero> for u64 {
    fn from(_n: Zero) -> u64 {
        let n = <Zero>::numeral();
        proof {
            <Zero>::lemma_nonnegative();
            crate::numeral::lemma_from_int(n.value());
        }
        saturating_u64(&n)
    }
}

impl vstd::std_specs::convert::FromSpecImpl<Zero> for u64 {
    open spec fn obeys_from_spec() -> bool {
        true
    }

    open spec fn from_spec(v: Zero) -> u64 {
        clamp(<Zero>::value(), 0, u64::MAX as int) as u64
    }
}

impl<N: PosType> From<Succ<N>> for u64 {
    fn from(_n: Succ<N>) -> u64 {
        let n = <Succ<N>>::numeral();
        proof {
            <Succ<N>>::lemma_nonnegative();
            crate::numeral::lemma_from_int(n.value());
        }
        saturating_u64(&n)
    }
}

impl<N: PosType> vstd::std_specs::convert::FromSpecImpl<Succ<N>> for u64 {
    open spec fn obeys_from_spec() -> bool {
        true
    }

    open spec fn from_spec(v: Succ<N>) -> u64 {
        clamp(<Succ<N>>::value(), 0, u64::MAX as int) as u64
    }
}

impl From<Zero> for u32 {
    fn from(_n: Zero) -> u32 {
        let n = <Zero>::numeral();
        proof {
            <Zero>::lemma_nonnegative();
            crate::numeral::lemma_from_int(n.value());
        }
        saturating_u32(&n)
    }
}

impl vstd::std_specs::convert::FromSpecImpl<Zero> for u32 {
    open spec fn obeys_from_spec() -> bool {
        true
    }

    open spec fn from_spec(v: Zero) -> u32 {
        clamp(<Zero>::value(), 0, u32::MAX as int) as u32
    }
}

impl<N: PosType> From<Succ<N>> for u32 {
    fn from(_n: Succ<N>) -> u32 {
        let n = <Succ<N>>::numeral();
        proof {
            <Succ<N>>::lemma_nonnegative();
            crate::numeral::lemma_from_int(n.value());
        }
        saturating_u32(&n)
    }
}

impl<N: PosType> vstd::std_specs::convert::FromSpecImpl<Succ<N>> for u32 {
    open spec fn obeys_from_spec() -> bool {
        true
    }

    open spec fn from_spec(v: Succ<N>) -> u32 {
        clamp(<Succ<N>>::value(), 0, u32::MAX as int) as u32
    }
}

impl From<Zero> for u16 {
    fn from(_n: Zero) -> u16 {
        let n = <Zero>::numeral();
        proof {
            <Zero>::lemma_nonnegative();
            crate::numeral::lemma_from_int(n.value());
        }
        saturating_u16(&n)
    }
}

impl vstd::std_specs::convert::FromSpecImpl<Zero> for u16 {
    open spec fn obeys_from_spec() -> bool {
        true
    }

    open spec fn from_spec(v: Zero) -> u16 {
        clamp(<Zero>::value(), 0, u16::MAX as int) as u16
    }
}

impl<N: PosType> From<Succ<N>> for u16 {
    fn from(_n: Succ<N>) -> u16 {
        let n = <Succ<N>>::numeral();
        proof {
            <Succ<N>>::lemma_nonnegative();
            crate::numeral::lemma_from_int(n.value());
        }
        saturating_u16(&n)
    }
}

impl<N: PosType> vstd::std_specs::convert::FromSpecImpl<Succ<N>> for u16 {
    open spec fn obeys_from_spec() -> bool {
        true
    }

    open spec fn from_spec(v: Succ<N>) -> u16 {
        clamp(<Succ<N>>::value(), 0, u16::MAX as int) as u16
    }
}

impl From<Zero> for u8 {
    fn from(_n: Zero) -> u8 {
        let n = <Zero>::numeral();
        proof {
            <Zero>::lemma_nonnegative();
            crate::numeral::lemma_from_int(n.value());
        }
        saturating_u8(&n)
    }
}

impl vstd::std_specs::convert::FromSpecImpl<Zero> for u8 {
    open spec fn obeys_from_spec() -> bool {
        true
    }

    open spec fn from_spec(v: Zero) -> u8 {
        clamp(<Zero>::value(), 0, u8::MAX as int) as u8
    }
}

impl<N: PosType> From<Succ<N>> for u8 {
    fn from(_n: Succ<N>) -> u8 {
        let n = <Succ<N>>::numeral();
        proof {
            <Succ<N>>::lemma_nonnegative();
            crate::numeral::lemma_from_int(n.value());
        }
        saturating_u8(&n)
    }
}

impl<N: PosType> vstd::std_specs::convert::FromSpecImpl<Succ<N>> for u8 {
    open spec fn obeys_from_spec() -> bool {
        true
    }

    open spec fn from_spec(v: Succ<N>) -> u8 {
        clamp(<Succ<N>>::value(), 0, u8::MAX as int) as u8
    }
}

impl From<Zero> for usize {
    fn from(_n: Zero) -> usize {
        let n = <Zero>::numeral();
        proof {
            <Zero>::lemma_nonnegative();
            crate::numeral::lemma_from_int(n.value());
        }
        saturating_usize(&n)
    }
}

impl vstd::std_specs::convert::FromSpecImpl<Zero> for usize {
    open spec fn obeys_from_spec() -> bool {
        true
    }

    open spec fn from_spec(v: Zero) -> usize {
        clamp(<Zero>::value(), 0, usize::MAX as int) as usize
    }
}

impl<N: PosType> From<Succ<N>> for usize {
    fn from(_n: Succ<N>) -> usize {
        let n = <Succ<N>>::numeral();
        proof {
            <Succ<N>>::lemma_nonnegative();
            crate::numeral::lemma_from_int(n.value());
        }
        saturating_usize(&n)
    }
}

impl<N: PosType> vstd::std_specs::convert::FromSpecImpl<Succ<N>> for usize {
    open spec fn obeys_from_spec() -> bool {
        true
    }

    open spec fn from_spec(v: Succ<N>) -> usize {
        clamp(<Succ<N>>::value(), 0, usize::MAX as int) as usize
    }
}

} // verus!
