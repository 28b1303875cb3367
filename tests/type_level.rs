use std::mem::size_of;
use tylar::{Add, Div, Halve, Mul, Neg, NumType, Sub, Succ, Zero};
use tylar::{N1, N2, N3, N4, N5, N6, N7, N8, N9, P1, P2, P3, P4, P5, P6, P7, P8, P9};

type Plus5<N> = Succ<Succ<Succ<Succ<Succ<N>>>>>;
type Plus10<N> = Plus5<Plus5<N>>;
type Plus50<N> = Plus10<Plus10<Plus10<Plus10<Plus10<N>>>>>;

fn negation<A: NumType, Out: NumType>() -> i32 where A: Neg<Out = Out> {
    Out::new().into()
}

fn sum<A: NumType, B: NumType, Out: NumType>() -> i32 where A: Add<B, Out = Out> {
    Out::new().into()
}

fn difference<A: NumType, B: NumType, Out: NumType>() -> i32 where A: Sub<B, Out = Out> {
    Out::new().into()
}

fn half<A: NumType, Out: NumType>() -> i32 where A: Halve<Out = Out> {
    Out::new().into()
}

fn quotient<A: NumType, B: NumType, Out: NumType>() -> i32 where A: Div<B, Out = Out> {
    Out::new().into()
}

fn product<A: NumType, B: NumType, Out: NumType>() -> i32 where A: Mul<B, Out = Out> {
    Out::new().into()
}

#[test]
fn zero_sized() {
    assert_eq!(size_of::<Zero>(), 0);
    assert_eq!(size_of::<P1>(), 0);
    assert_eq!(size_of::<N1>(), 0);
    assert_eq!(size_of::<Plus50<Zero>>(), 0);
}

#[test]
fn into_number() {
    assert_eq!(0, Zero::new().into());
    assert_eq!(-3, N3::new().into());
    assert_eq!(2, P2::new().into());
    assert_eq!(2i8, P2::new().into());
    assert_eq!(2u64, P2::new().into());
    assert_eq!(2u8, P2::new().into());

    type P63 = Plus10<Plus50<P3>>;
    assert_eq!(63, P63::new().into());
}

#[test]
fn operations() {
    assert_eq!(-5, negation::<P5, _>());
    assert_eq!(5, negation::<N5, _>());
    assert_eq!(0, negation::<Zero, _>());

    assert_eq!(5, sum::<P2, P3, _>());
    assert_eq!(-1, difference::<P2, P3, _>());
    assert_eq!(2, half::<P4, _>());

    assert_eq!(-25, negation::<Plus5<Plus10<Plus10<Zero>>>, _>());
    assert_eq!(45, difference::<Plus50<Zero>, P5, _>());
    assert_eq!(50, half::<Plus50<Plus50<Zero>>, _>());
}

#[test]
fn division() {
    assert_eq!(0, quotient::<Zero, P1, _>());

    assert_eq!(1, quotient::<P4, P4, _>());
    assert_eq!(2, quotient::<P4, P2, _>());
    assert_eq!(4, quotient::<P4, P1, _>());

    assert_eq!(1, quotient::<N4, N4, _>());
    assert_eq!(2, quotient::<N4, N2, _>());
    assert_eq!(4, quotient::<N4, N1, _>());

    assert_eq!(-1, quotient::<N4, P4, _>());
    assert_eq!(-2, quotient::<N4, P2, _>());
    assert_eq!(-4, quotient::<N4, P1, _>());

    assert_eq!(-1, quotient::<P4, N4, _>());
    assert_eq!(-2, quotient::<P4, N2, _>());
    assert_eq!(-4, quotient::<P4, N1, _>());

    assert_eq!(2, quotient::<Plus10<Plus10<Zero>>, Plus10<Zero>, _>());
    assert_eq!(10, quotient::<Plus10<Plus10<Zero>>, P2, _>());
    assert_eq!(4, quotient::<Plus10<Plus10<Zero>>, P5, _>());
}

#[test]
fn multiplication() {
    assert_eq!(0, product::<Zero, Zero, _>());

    assert_eq!(0, product::<P1, Zero, _>());
    assert_eq!(0, product::<Zero, P1, _>());

    assert_eq!(1, product::<P1, P1, _>());
    assert_eq!(2, product::<P2, P1, _>());
    assert_eq!(2, product::<P1, P2, _>());
    assert_eq!(4, product::<P2, P2, _>());

    assert_eq!(-1, product::<P1, N1, _>());
    assert_eq!(-2, product::<P2, N1, _>());
    assert_eq!(-2, product::<P1, N2, _>());
    assert_eq!(-4, product::<P2, N2, _>());

    assert_eq!(-1, product::<N1, P1, _>());
    assert_eq!(-2, product::<N2, P1, _>());
    assert_eq!(-2, product::<N1, P2, _>());
    assert_eq!(-4, product::<N2, P2, _>());

    assert_eq!(1, product::<N1, N1, _>());
    assert_eq!(2, product::<N2, N1, _>());
    assert_eq!(2, product::<N1, N2, _>());
    assert_eq!(4, product::<N2, N2, _>());

    assert_eq!(25, product::<P5, P5, _>());
    assert_eq!(25, product::<N5, N5, _>());
}

#[test]
fn shorthands_stand_for_their_numbers() {
    let positives: [i64; 9] = [
        P1::new().into(),
        P2::new().into(),
        P3::new().into(),
        P4::new().into(),
        P5::new().into(),
        P6::new().into(),
        P7::new().into(),
        P8::new().into(),
        P9::new().into(),
    ];
    let negatives: [i64; 9] = [
        N1::new().into(),
        N2::new().into(),
        N3::new().into(),
        N4::new().into(),
        N5::new().into(),
        N6::new().into(),
        N7::new().into(),
        N8::new().into(),
        N9::new().into(),
    ];
    for i in 0..9 {
        assert_eq!(positives[i], i as i64 + 1);
        assert_eq!(negatives[i], -(i as i64) - 1);
    }
    let zero: i64 = Zero::new().into();
    assert_eq!(zero, 0);
}

#[test]
fn unsigned_and_narrow_conversions() {
    assert_eq!(9u32, P9::new().into());
    assert_eq!(9u16, P9::new().into());
    assert_eq!(9usize, P9::new().into());
    assert_eq!(0usize, Zero::new().into());
    assert_eq!(-9i16, N9::new().into());
    assert_eq!(-9isize, N9::new().into());
    assert_eq!(-9i64, N9::new().into());
}

#[test]
fn type_numbers_give_their_numerals() {
    assert_eq!(P7::numeral().to_i64(), Some(7));
    assert_eq!(N7::numeral().to_i64(), Some(-7));
    assert_eq!(Zero::numeral().to_i64(), Some(0));
}

#[test]
fn type_division_truncates_toward_zero() {
    assert_eq!(1, quotient::<P4, P3, _>());
    assert_eq!(-1, quotient::<N4, P3, _>());
    assert_eq!(0, quotient::<P2, P5, _>());
    assert_eq!(0, quotient::<N2, P5, _>());
    assert_eq!(-3, quotient::<P7, N2, _>());
    assert_eq!(3, quotient::<N7, N2, _>());
    assert_eq!(2, quotient::<P9, P4, _>());
}

#[test]
fn type_halving_and_products_of_shorthands() {
    assert_eq!(-3, half::<N6, _>());
    assert_eq!(-9, product::<P3, N3, _>());
    assert_eq!(0, sum::<N8, P8, _>());
}
