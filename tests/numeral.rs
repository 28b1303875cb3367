use tylar::{ArithError, Numeral};

fn num(v: i64) -> Numeral {
    Numeral::from_i64(v)
}

fn value_of(n: &Numeral) -> i64 {
    n.to_i64().unwrap()
}

fn ok_int(r: Result<Numeral, ArithError>) -> i64 {
    value_of(&r.unwrap())
}

#[test]
fn negate_flips_the_sign() {
    for v in -6..=6 {
        assert_eq!(value_of(&num(v).negate()), -v);
    }
    assert_eq!(value_of(&num(0).negate()), 0);
    assert!(num(5).negate().is_nonpositive());
    assert!(num(-5).negate().is_nonnegative());
}

#[test]
fn negate_twice_is_identity() {
    for v in -4..=4 {
        assert_eq!(value_of(&num(v).negate().negate()), v);
    }
}

#[test]
fn increment_and_decrement_step_by_one() {
    for v in -5..=5 {
        assert_eq!(value_of(&num(v).increment()), v + 1);
        assert_eq!(value_of(&num(v).decrement()), v - 1);
    }
    assert!(matches!(num(-1).increment(), Numeral::Zero));
    assert!(matches!(num(1).decrement(), Numeral::Zero));
    assert!(num(-3).increment().is_well_formed());
    assert!(num(3).decrement().is_well_formed());
}

#[test]
fn add_matches_integer_addition() {
    assert_eq!(value_of(&num(2).add(&num(3))), 5);
    for a in -4..=4 {
        for b in -4..=4 {
            let ab = num(a).add(&num(b));
            assert_eq!(value_of(&ab), a + b);
            assert!(ab.is_well_formed());
            assert_eq!(value_of(&num(b).add(&num(a))), value_of(&ab));
        }
    }
}

#[test]
fn add_is_associative() {
    for a in -3..=3 {
        for b in -3..=3 {
            for c in -3..=3 {
                let left = num(a).add(&num(b)).add(&num(c));
                let right = num(a).add(&num(b).add(&num(c)));
                assert_eq!(value_of(&left), value_of(&right));
            }
        }
    }
}

#[test]
fn subtract_matches_integer_subtraction() {
    assert_eq!(value_of(&num(2).subtract(&num(3))), -1);
    assert_eq!(value_of(&num(50).subtract(&num(5))), 45);
    for a in -4..=4 {
        for b in -4..=4 {
            assert_eq!(value_of(&num(a).subtract(&num(b))), a - b);
        }
    }
}

#[test]
fn halve_even_numbers() {
    assert_eq!(ok_int(num(4).halve()), 2);
    assert_eq!(ok_int(num(0).halve()), 0);
    assert_eq!(ok_int(num(-6).halve()), -3);
    assert_eq!(ok_int(num(100).halve()), 50);
    for v in -5..=5 {
        assert_eq!(ok_int(num(2 * v).halve()), v);
    }
}

#[test]
fn halve_odd_numbers_fails() {
    for v in [-5, -3, -1, 1, 3, 7] {
        assert_eq!(num(v).halve().unwrap_err(), ArithError::OddMagnitude);
    }
}

#[test]
fn multiply_matches_integer_multiplication() {
    assert_eq!(value_of(&num(2).multiply(&num(2))), 4);
    assert_eq!(value_of(&num(-1).multiply(&num(2))), -2);
    assert_eq!(value_of(&num(5).multiply(&num(5))), 25);
    assert_eq!(value_of(&num(-5).multiply(&num(-5))), 25);
    for a in -4..=4 {
        for b in -4..=4 {
            assert_eq!(value_of(&num(a).multiply(&num(b))), a * b);
        }
    }
}

#[test]
fn divide_scenarios() {
    assert_eq!(ok_int(num(4).divide(&num(4))), 1);
    assert_eq!(ok_int(num(-4).divide(&num(2))), -2);
    assert_eq!(ok_int(num(4).divide(&num(-2))), -2);
    assert_eq!(ok_int(num(-4).divide(&num(-1))), 4);
    assert_eq!(ok_int(num(0).divide(&num(3))), 0);
    assert_eq!(ok_int(num(0).divide(&num(-3))), 0);
    assert_eq!(ok_int(num(20).divide(&num(5))), 4);
}

#[test]
fn divide_truncates_toward_zero() {
    assert_eq!(ok_int(num(4).divide(&num(3))), 1);
    assert_eq!(ok_int(num(-4).divide(&num(3))), -1);
    assert_eq!(ok_int(num(7).divide(&num(-2))), -3);
    assert_eq!(ok_int(num(-7).divide(&num(-2))), 3);
    assert_eq!(ok_int(num(2).divide(&num(5))), 0);
    assert_eq!(ok_int(num(-2).divide(&num(5))), 0);
    for a in -9..=9 {
        for b in -4..=4 {
            if b != 0 {
                assert_eq!(ok_int(num(a).divide(&num(b))), a / b);
            }
        }
    }
}

#[test]
fn divide_by_zero_fails_for_every_sign() {
    for a in [-3, -1, 0, 1, 3] {
        assert_eq!(num(a).divide(&num(0)).unwrap_err(), ArithError::DivisionByZero);
    }
}

#[test]
fn literals_round_trip() {
    for v in -9..=9 {
        assert_eq!(value_of(&num(v)), v);
    }
    assert_eq!(num(3).to_u64(), Some(3));
    assert_eq!(num(0).to_u64(), Some(0));
}

#[test]
fn constructors_build_the_shapes() {
    let two = Numeral::succ(Numeral::succ(Numeral::zero()));
    assert_eq!(value_of(&two), 2);
    let minus_one = Numeral::pred(Numeral::zero());
    assert_eq!(value_of(&minus_one), -1);
    let mixed = Numeral::succ(Numeral::pred(Numeral::zero()));
    assert!(!mixed.is_well_formed());
    assert!(two.is_well_formed());
    assert_eq!(value_of(&two.duplicate()), 2);
}
