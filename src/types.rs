//! Numbers as types: `Zero`, `Succ<N>` and `Pred<N>` are zero-sized, and the operations
//! are traits whose associated type `Out` is the result.

use crate::numeral::{quotient_toward_zero, Numeral};
use vstd::prelude::*;

verus! {

/// The number zero.
#[derive(Clone, Copy)]
pub struct Zero;

/// One more than `N`: a positive number.
pub struct Succ<N> {
    phantom: core::marker::PhantomData<N>,
}

/// One less than `N`: a negative number.
pub struct Pred<N> {
    phantom: core::marker::PhantomData<N>,
}

/// A number type. Only well-formed chains are number types: `Succ` wraps a
/// non-negative number and `Pred` a non-positive one.
pub trait NumType: Sized + Into<i64> + Into<i32> + Into<i16> + Into<i8> + Into<isize> {
    /// The integer that the type stands for.
    spec fn value() -> int;

    /// The (zero-sized) value of the type.
    fn new() -> Self;

    /// The numeral of the same shape.
    fn numeral() -> (r: Numeral)
        ensures
            r == Numeral::from_int(Self::value()),
            r.wf(),
            r.value() == Self::value(),
    ;
}

/// A non-negative number type (zero included).
pub trait PosType: NumType + Into<u64> + Into<u32> + Into<u16> + Into<u8> + Into<usize> {
    /// The type stands for a number `>= 0`.
    proof fn lemma_nonnegative()
        ensures
            Self::value() >= 0,
    ;
}

/// A non-positive number type (zero included).
pub trait NegType: NumType {
    /// The type stands for a number `<= 0`.
    proof fn lemma_nonpositive()
        ensures
            Self::value() <= 0,
    ;
}

impl NumType for Zero {
    open spec fn value() -> int {
        0
    }

    fn new() -> Self {
        Zero
    }

    fn numeral() -> (r: Numeral) {
        Numeral::Zero
    }
}

impl PosType for Zero {
    proof fn lemma_nonnegative() {
    }
}

impl NegType for Zero {
    proof fn lemma_nonpositive() {
    }
}

impl<N: PosType> NumType for Succ<N> {
    open spec fn value() -> int {
        N::value() + 1
    }

    fn new() -> Self {
        Succ { phantom: core::marker::PhantomData }
    }

    fn numeral() -> (r: Numeral) {
        let n = N::numeral();
        proof {
            N::lemma_nonnegative();
            crate::numeral::lemma_canonical(n);
            crate::numeral::lemma_from_int(n.value());
        }
        Numeral::Succ(Box::new(n))
    }
}

impl<N: PosType> PosType for Succ<N> {
    proof fn lemma_nonnegative() {
        N::lemma_nonnegative();
    }
}

impl<N: NegType> NumType for Pred<N> {
    open spec fn value() -> int {
        N::value() - 1
    }

    fn new() -> Self {
        Pred { phantom: core::marker::PhantomData }
    }

    fn numeral() -> (r: Numeral) {
        let n = N::numeral();
        proof {
            N::lemma_nonpositive();
            crate::numeral::lemma_canonical(n);
            crate::numeral::lemma_from_int(n.value());
        }
        Numeral::Pred(Box::new(n))
    }
}

impl<N: NegType> NegType for Pred<N> {
    proof fn lemma_nonpositive() {
        N::lemma_nonpositive();
    }
}

/// The number 1 (the first successor of zero).
pub type P1 = Succ<Zero>;

/// The number 2 (the second successor of zero).
pub type P2 = Succ<P1>;

/// The number 3 (the third successor of zero).
pub type P3 = Succ<P2>;

/// The number 4 (the fourth successor of zero).
pub type P4 = Succ<P3>;

/// The number 5 (the fifth successor of zero).
pub type P5 = Succ<P4>;

/// The number 6 (the sixth successor of zero).
pub type P6 = Succ<P5>;

/// The number 7 (the seventh successor of zero).
pub type P7 = Succ<P6>;

/// The number 8 (the eighth successor of zero).
pub type P8 = Succ<P7>;

/// The number 9 (the ninth successor of zero).
pub type P9 = Succ<P8>;

/// The number -1 (the first predecessor of zero).
pub type N1 = Pred<Zero>;

/// The number -2 (the second predecessor of zero).
pub type N2 = Pred<N1>;

/// The number -3 (the third predecessor of zero).
pub type N3 = Pred<N2>;

/// The number -4 (the fourth predecessor of zero).
pub type N4 = Pred<N3>;

/// The number -5 (the fifth predecessor of zero).
pub type N5 = Pred<N4>;

/// The number -6 (the sixth predecessor of zero).
pub type N6 = Pred<N5>;

/// The number -7 (the seventh predecessor of zero).
pub type N7 = Pred<N6>;

/// The number -8 (the eighth predecessor of zero).
pub type N8 = Pred<N7>;

/// The number -9 (the ninth predecessor of zero).
pub type N9 = Pred<N8>;

/// Each shorthand stands for the number it is named after.
pub proof fn lemma_shorthands()
    ensures
        <P1 as NumType>::value() == 1,
        <P2 as NumType>::value() == 2,
        <P3 as NumType>::value() == 3,
        <P4 as NumType>::value() == 4,
        <P5 as NumType>::value() == 5,
        <P6 as NumType>::value() == 6,
        <P7 as NumType>::value() == 7,
        <P8 as NumType>::value() == 8,
        <P9 as NumType>::value() == 9,
        <N1 as NumType>::value() == -1,
        <N2 as NumType>::value() == -2,
        <N3 as NumType>::value() == -3,
        <N4 as NumType>::value() == -4,
        <N5 as NumType>::value() == -5,
        <N6 as NumType>::value() == -6,
        <N7 as NumType>::value() == -7,
        <N8 as NumType>::value() == -8,
        <N9 as NumType>::value() == -9,
{
}
/// Negation of number types.
pub trait Neg: NumType {
    /// `Out` = -`Self`.
    type Out: NumType;

    /// `Out` stands for the negation of `Self`.
    proof fn lemma_neg()
        ensures
            Self::Out::value() == -Self::value(),
    ;
}

impl Neg for Zero {
    type Out = Zero;

    proof fn lemma_neg() {
    }
}

impl<A: PosType, B: NegType> Neg for Succ<A> where A: Neg<Out = B> {
    type Out = Pred<B>;

    proof fn lemma_neg() {
        A::lemma_neg();
    }
}

impl<A: NegType, B: PosType> Neg for Pred<A> where A: Neg<Out = B> {
    type Out = Succ<B>;

    proof fn lemma_neg() {
        A::lemma_neg();
    }
}

/// Incrementation of number types.
pub trait Incr: NumType {
    /// `Out` = `Self` + 1.
    type Out: NumType;

    /// `Out` stands for one more than `Self`.
    proof fn lemma_incr()
        ensures
            Self::Out::value() == Self::value() + 1,
    ;
}

impl Incr for Zero {
    type Out = Succ<Zero>;

    proof fn lemma_incr() {
    }
}

impl<A: PosType> Incr for Succ<A> {
    type Out = Succ<Succ<A>>;

    proof fn lemma_incr() {
    }
}

impl<A: NegType> Incr for Pred<A> {
    type Out = A;

    proof fn lemma_incr() {
    }
}

/// Decrementation of number types.
pub trait Decr: NumType {
    /// `Out` = `Self` - 1.
    type Out: NumType;

    /// `Out` stands for one less than `Self`.
    proof fn lemma_decr()
        ensures
            Self::Out::value() == Self::value() - 1,
    ;
}

impl Decr for Zero {
    type Out = Pred<Zero>;

    proof fn lemma_decr() {
    }
}

impl<A: PosType> Decr for Succ<A> {
    type Out = A;

    proof fn lemma_decr() {
    }
}

impl<A: NegType> Decr for Pred<A> {
    type Out = Pred<Pred<A>>;

    proof fn lemma_decr() {
    }
}

/// Addition of number types.
pub trait Add<RHS: NumType>: NumType {
    /// `Out` = `Self` + `RHS`.
    type Out: NumType;

    /// `Out` stands for the sum.
    proof fn lemma_add()
        ensures
            Self::Out::value() == Self::value() + RHS::value(),
    ;
}

impl<RHS: NumType> Add<RHS> for Zero {
    type Out = RHS;

    proof fn lemma_add() {
    }
}

impl<A: PosType, RHS: NumType, B: NumType> Add<RHS> for Succ<A> where RHS: Incr<Out = B>, A: Add<B> {
    type Out = A::Out;

    proof fn lemma_add() {
        RHS::lemma_incr();
        A::lemma_add();
    }
}

impl<A: NegType, RHS: NumType, B: NumType> Add<RHS> for Pred<A> where RHS: Decr<Out = B>, A: Add<B> {
    type Out = A::Out;

    proof fn lemma_add() {
        RHS::lemma_decr();
        A::lemma_add();
    }
}

/// Subtraction of number types.
pub trait Sub<RHS: NumType>: NumType {
    /// `Out` = `Self` - `RHS`.
    type Out: NumType;

    /// `Out` stands for the difference.
    proof fn lemma_sub()
        ensures
            Self::Out::value() == Self::value() - RHS::value(),
    ;
}

impl<A: NumType, RHS: NumType, B: NumType> Sub<RHS> for A where RHS: Neg<Out = B>, A: Add<B> {
    type Out = A::Out;

    proof fn lemma_sub() {
        RHS::lemma_neg();
        A::lemma_add();
    }
}

/// Exact halving of number types: implemented for even numbers only.
pub trait Halve: NumType {
    /// `Out` = `Self` / 2.
    type Out: NumType;

    /// `Out` stands for exactly half of `Self`.
    proof fn lemma_halve()
        ensures
            2 * Self::Out::value() == Self::value(),
    ;
}

impl Halve for Zero {
    type Out = Zero;

    proof fn lemma_halve() {
    }
}

impl<A: PosType, B: PosType> Halve for Succ<Succ<A>> where A: Halve<Out = B> {
    type Out = Succ<B>;

    proof fn lemma_halve() {
        A::lemma_halve();
    }
}

impl<A: NegType, B: NegType> Halve for Pred<Pred<A>> where A: Halve<Out = B> {
    type Out = Pred<B>;

    proof fn lemma_halve() {
        A::lemma_halve();
    }
}

/// Multiplication of number types.
pub trait Mul<RHS: NumType>: NumType {
    /// `Out` = `Self` * `RHS`.
    type Out: NumType;

    /// `Out` stands for the product.
    proof fn lemma_mul()
        ensures
            Self::Out::value() == Self::value() * RHS::value(),
    ;
}

impl<N: NumType> Mul<N> for Zero {
    type Out = Zero;

    proof fn lemma_mul() {
    }
}

impl<A: PosType, RHS: NumType, B: NumType> Mul<RHS> for Succ<A> where A: Mul<RHS, Out = B>, RHS: Add<B> {
    type Out = RHS::Out;

    proof fn lemma_mul() {
        A::lemma_mul();
        RHS::lemma_add();
        let (a, r) = (A::value(), RHS::value());
        assert((a + 1) * r == r + a * r) by (nonlinear_arith);
    }
}

impl<A: NegType, RHS: NumType, B: NumType, C: NumType> Mul<RHS> for Pred<A> where
    A: Mul<RHS, Out = C>,
    RHS: Neg<Out = B>,
    B: Add<C>,
 {
    type Out = B::Out;

    proof fn lemma_mul() {
        A::lemma_mul();
        RHS::lemma_neg();
        B::lemma_add();
        let (a, r) = (A::value(), RHS::value());
        assert((a - 1) * r == -r + a * r) by (nonlinear_arith);
    }
}

/// Division of number types, truncating toward zero. A negative operand is negated
/// first and the quotient negated where the signs differ, so every case comes down to
/// a positive dividend over a positive divisor.
pub trait Div<RHS: NumType>: NumType {
    /// `Out` = `Self` / `RHS`, rounded toward zero.
    type Out: NumType;

    /// The divisor is nonzero and `Out` stands for the quotient rounded toward zero.
    proof fn lemma_div()
        ensures
            RHS::value() != 0,
            Self::Out::value() == quotient_toward_zero(Self::value(), RHS::value()),
    ;
}

/// One step of positive division by repeated subtraction: `Self` is what is left of
/// the dividend once the divisor `D` has been taken from it. A negative remainder
/// means that the divisor did not fit, so the quotient is zero; otherwise it is one
/// more than the quotient of the remainder.
pub trait QuotientStep<D: NumType>: NumType {
    /// Zero for a negative `Self`, else 1 + `Self` / `D`.
    type Out: NumType;

    /// `Out` stands for the quotient that the step produces.
    proof fn lemma_quotient_step()
        requires
            D::value() > 0,
        ensures
            Self::Out::value() == if Self::value() < 0 {
                0
            } else {
                1 + Self::value() / D::value()
            },
    ;
}

impl<D: PosType> QuotientStep<D> for Zero {
    type Out = Succ<Zero>;

    proof fn lemma_quotient_step() {
        vstd::arithmetic::div_mod::lemma_div_of0(D::value());
    }
}

impl<X: PosType, D: PosType, Q: PosType> QuotientStep<D> for Succ<X> where Succ<X>: Div<D, Out = Q> {
    type Out = Succ<Q>;

    proof fn lemma_quotient_step() {
        X::lemma_nonnegative();
        <Succ<X> as Div<D>>::lemma_div();
    }
}

impl<X: NegType, D: NumType> QuotientStep<D> for Pred<X> {
    type Out = Zero;

    proof fn lemma_quotient_step() {
        X::lemma_nonpositive();
    }
}

impl<A: PosType> Div<Succ<A>> for Zero {
    type Out = Zero;

    proof fn lemma_div() {
        A::lemma_nonnegative();
        vstd::arithmetic::div_mod::lemma_div_of0(A::value() + 1);
    }
}

impl<A: NegType> Div<Pred<A>> for Zero {
    type Out = Zero;

    proof fn lemma_div() {
        A::lemma_nonpositive();
        vstd::arithmetic::div_mod::lemma_div_of0(1 - A::value());
    }
}

impl<A: PosType, B: PosType, C: NumType> Div<Succ<B>> for Succ<A> where
    A: Sub<B, Out = C>,
    C: QuotientStep<Succ<B>>,
 {
    type Out = C::Out;

    proof fn lemma_div() {
        A::lemma_nonnegative();
        B::lemma_nonnegative();
        A::lemma_sub();
        C::lemma_quotient_step();
        let (c, d) = (C::value(), B::value() + 1);
        if c < 0 {
            vstd::arithmetic::div_mod::lemma_basic_div(c + d, d);
        } else {
            vstd::arithmetic::div_mod::lemma_div_plus_one(c, d);
        }
    }
}

impl<N: NegType, NN: NegType, P: PosType, PP: PosType> Div<Pred<NN>> for Pred<N> where
    N: Neg<Out = P>,
    NN: Neg<Out = PP>,
    Succ<P>: Div<Succ<PP>>,
 {
    type Out = <Succ<P> as Div<Succ<PP>>>::Out;

    proof fn lemma_div() {
        N::lemma_neg();
        NN::lemma_neg();
        P::lemma_nonnegative();
        PP::lemma_nonnegative();
        <Succ<P> as Div<Succ<PP>>>::lemma_div();
    }
}

impl<P: PosType, N: NegType, PP: PosType, Q: NumType> Div<Pred<N>> for Succ<P> where
    N: Neg<Out = PP>,
    Succ<P>: Div<Succ<PP>, Out = Q>,
    Q: Neg,
 {
    type Out = Q::Out;

    proof fn lemma_div() {
        N::lemma_neg();
        P::lemma_nonnegative();
        PP::lemma_nonnegative();
        <Succ<P> as Div<Succ<PP>>>::lemma_div();
        Q::lemma_neg();
    }
}

impl<P: PosType, N: NegType, PP: PosType, Q: NumType> Div<Succ<P>> for Pred<N> where
    N: Neg<Out = PP>,
    Succ<PP>: Div<Succ<P>, Out = Q>,
    Q: Neg,
 {
    type Out = Q::Out;

    proof fn lemma_div() {
        N::lemma_neg();
        P::lemma_nonnegative();
        PP::lemma_nonnegative();
        <Succ<PP> as Div<Succ<P>>>::lemma_div();
        Q::lemma_neg();
    }
}

} // verus!
