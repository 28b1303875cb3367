//! Signed integers written in unary: `Zero`, and chains of `Succ` or `Pred` around it.

use vstd::prelude::*;

verus! {

/// A signed integer in unary form.
///
/// A well-formed numeral is `Zero`, a chain of `Succ` around `Zero` (a positive
/// number), or a chain of `Pred` around `Zero` (a negative number). The variants can be
/// built freely; the operations accept only well-formed numerals and produce only
/// well-formed numerals.
#[derive(Debug)]
pub enum Numeral {
    Zero,
    Succ(Box<Numeral>),
    Pred(Box<Numeral>),
}

/// Why an operation had no result.
#[derive(Debug, Clone, Copy, PartialEq, Eq, Structural)]
pub enum ArithError {
    /// The divisor was zero.
    DivisionByZero,
    /// Exact halving was asked of a number of odd magnitude.
    OddMagnitude,
}

/// The absolute value of `v`.
pub open spec fn abs(v: int) -> nat {
    if v < 0 {
        (-v) as nat
    } else {
        v as nat
    }
}

/// Integer division that rounds the quotient toward zero.
pub open spec fn quotient_toward_zero(a: int, b: int) -> int
    recommends
        b != 0,
{
    let q = abs(a) as int / abs(b) as int;
    if (a < 0) != (b < 0) {
        -q
    } else {
        q
    }
}

impl Numeral {
    /// The integer that the numeral stands for: `Zero` is 0, `Succ(n)` is one more than
    /// `n`, `Pred(n)` one less.
    pub open spec fn value(self) -> int
        decreases self,
    {
        match self {
            Numeral::Zero => 0,
            Numeral::Succ(n) => n.value() + 1,
            Numeral::Pred(n) => n.value() - 1,
        }
    }

    /// Non-negative class: `Zero`, or `Succ` around a non-negative numeral.
    pub open spec fn is_nonneg(self) -> bool
        decreases self,
    {
        match self {
            Numeral::Zero => true,
            Numeral::Succ(n) => n.is_nonneg(),
            Numeral::Pred(_) => false,
        }
    }

    /// Non-positive class: `Zero`, or `Pred` around a non-positive numeral.
    pub open spec fn is_nonpos(self) -> bool
        decreases self,
    {
        match self {
            Numeral::Zero => true,
            Numeral::Pred(n) => n.is_nonpos(),
            Numeral::Succ(_) => false,
        }
    }

    /// A numeral that never mixes `Succ` and `Pred`.
    pub open spec fn wf(self) -> bool {
        self.is_nonneg() || self.is_nonpos()
    }

    /// The well-formed numeral that stands for `v`.
    pub open spec fn from_int(v: int) -> Numeral
        decreases abs(v),
    {
        if v == 0 {
            Numeral::Zero
        } else if v > 0 {
            Numeral::Succ(Box::new(Numeral::from_int(v - 1)))
        } else {
            Numeral::Pred(Box::new(Numeral::from_int(v + 1)))
        }
    }

    /// The number of constructors around `Zero`.
    pub open spec fn depth(self) -> nat
        decreases self,
    {
        match self {
            Numeral::Zero => 0,
            Numeral::Succ(n) => n.depth() + 1,
            Numeral::Pred(n) => n.depth() + 1,
        }
    }
}

/// The sign classes read off the value: a non-negative numeral stands for a number
/// `>= 0`, a non-positive one for a number `<= 0`, and a well-formed numeral has as
/// many constructors as its magnitude.
pub proof fn lemma_sign_classes(x: Numeral)
    ensures
        x.is_nonneg() ==> x.value() >= 0 && x.depth() == x.value(),
        x.is_nonpos() ==> x.value() <= 0 && x.depth() == -x.value(),
        x.wf() ==> x.depth() == abs(x.value()),
    decreases x,
{
    match x {
        Numeral::Zero => {},
        Numeral::Succ(n) => lemma_sign_classes(*n),
        Numeral::Pred(n) => lemma_sign_classes(*n),
    }
}

/// `from_int(v)` is well formed, stands for `v`, and lies in the sign classes of `v`.
pub proof fn lemma_from_int(v: int)
    ensures
        Numeral::from_int(v).wf(),
        Numeral::from_int(v).value() == v,
        Numeral::from_int(v).is_nonneg() <==> v >= 0,
        Numeral::from_int(v).is_nonpos() <==> v <= 0,
    decreases abs(v),
{
    if v > 0 {
        lemma_from_int(v - 1);
    } else if v < 0 {
        lemma_from_int(v + 1);
    }
}

/// A well-formed numeral is determined by its value: it is `from_int` of it.
pub proof fn lemma_canonical(x: Numeral)
    requires
        x.wf(),
    ensures
        x == Numeral::from_int(x.value()),
    decreases x,
{
    lemma_sign_classes(x);
    match x {
        Numeral::Zero => {},
        Numeral::Succ(n) => {
            lemma_canonical(*n);
            lemma_sign_classes(*n);
        },
        Numeral::Pred(n) => {
            lemma_canonical(*n);
            lemma_sign_classes(*n);
        },
    }
}

impl Numeral {
    /// The numeral `Zero`.
    pub fn zero() -> (r: Numeral)
        ensures
            r == Numeral::from_int(0),
    {
        Numeral::Zero
    }

    /// `Succ(n)`: one more than `n`, with no check on `n`.
    pub fn succ(n: Numeral) -> (r: Numeral)
        ensures
            r == Numeral::Succ(Box::new(n)),
            r.value() == n.value() + 1,
    {
        Numeral::Succ(Box::new(n))
    }

    /// `Pred(n)`: one less than `n`, with no check on `n`.
    pub fn pred(n: Numeral) -> (r: Numeral)
        ensures
            r == Numeral::Pred(Box::new(n)),
            r.value() == n.value() - 1,
    {
        Numeral::Pred(Box::new(n))
    }

    /// A numeral of the same shape.
    pub fn duplicate(&self) -> (r: Numeral)
        ensures
            r == *self,
        decreases self,
    {
        match self {
            Numeral::Zero => Numeral::Zero,
            Numeral::Succ(n) => Numeral::Succ(Box::new(n.duplicate())),
            Numeral::Pred(n) => Numeral::Pred(Box::new(n.duplicate())),
        }
    }

    /// Whether the numeral is in the non-negative class.
    pub fn is_nonnegative(&self) -> (r: bool)
        ensures
            r == self.is_nonneg(),
        decreases self,
    {
        match self {
            Numeral::Zero => true,
            Numeral::Succ(n) => n.is_nonnegative(),
            Numeral::Pred(_) => false,
        }
    }

    /// Whether the numeral is in the non-positive class.
    pub fn is_nonpositive(&self) -> (r: bool)
        ensures
            r == self.is_nonpos(),
        decreases self,
    {
        match self {
            Numeral::Zero => true,
            Numeral::Pred(n) => n.is_nonpositive(),
            Numeral::Succ(_) => false,
        }
    }

    /// Whether the numeral never mixes `Succ` and `Pred`; the operations ask for this.
    pub fn is_well_formed(&self) -> (r: bool)
        ensures
            r == self.wf(),
    {
        self.is_nonnegative() || self.is_nonpositive()
    }

    /// Negation: `Zero` stays, `Succ(a)` becomes `Pred(-a)`, `Pred(a)` becomes `Succ(-a)`.
    pub fn negate(&self) -> (r: Numeral)
        requires
            self.wf(),
        ensures
            r == Numeral::from_int(-self.value()),
            r.wf(),
            r.value() == -self.value(),
        decreases self,
    {
        proof {
            lemma_sign_classes(*self);
        }
        let r = match self {
            Numeral::Zero => Numeral::Zero,
            Numeral::Succ(a) => {
                proof {
                    lemma_sign_classes(**a);
                }
                Numeral::Pred(Box::new(a.negate()))
            },
            Numeral::Pred(a) => {
                proof {
                    lemma_sign_classes(**a);
                }
                Numeral::Succ(Box::new(a.negate()))
            },
        };
        proof {
            lemma_from_int(-self.value());
        }
        r
    }

    /// One more: `Zero` gives `Succ(Zero)`, `Succ(a)` gives `Succ(Succ(a))`, and
    /// `Pred(a)` gives `a`.
    pub fn increment(&self) -> (r: Numeral)
        requires
            self.wf(),
        ensures
            r == Numeral::from_int(self.value() + 1),
            r.wf(),
            r.value() == self.value() + 1,
    {
        proof {
            lemma_canonical(*self);
            lemma_sign_classes(*self);
            lemma_from_int(self.value() + 1);
        }
        match self {
            Numeral::Zero => Numeral::Succ(Box::new(Numeral::Zero)),
            Numeral::Succ(_) => Numeral::Succ(Box::new(self.duplicate())),
            Numeral::Pred(a) => a.duplicate(),
        }
    }

    /// One less: `Zero` gives `Pred(Zero)`, `Succ(a)` gives `a`, and `Pred(a)` gives
    /// `Pred(Pred(a))`.
    pub fn decrement(&self) -> (r: Numeral)
        requires
            self.wf(),
        ensures
            r == Numeral::from_int(self.value() - 1),
            r.wf(),
            r.value() == self.value() - 1,
    {
        proof {
            lemma_canonical(*self);
            lemma_sign_classes(*self);
            lemma_from_int(self.value() - 1);
        }
        match self {
            Numeral::Zero => Numeral::Pred(Box::new(Numeral::Zero)),
            Numeral::Succ(a) => a.duplicate(),
            Numeral::Pred(_) => Numeral::Pred(Box::new(self.duplicate())),
        }
    }
    /// Addition by peeling the left operand: `Zero + b` is `b`, `Succ(a) + b` is
    /// `a + (b + 1)`, and `Pred(a) + b` is `a + (b - 1)`.
    pub fn add(&self, b: &Numeral) -> (r: Numeral)
        requires
            self.wf(),
            b.wf(),
        ensures
            r == Numeral::from_int(self.value() + b.value()),
            r.wf(),
            r.value() == self.value() + b.value(),
        decreases self,
    {
        proof {
            lemma_from_int(self.value() + b.value());
        }
        match self {
            Numeral::Zero => {
                proof {
                    lemma_canonical(*b);
                }
                b.duplicate()
            },
            Numeral::Succ(a) => a.add(&b.increment()),
            Numeral::Pred(a) => a.add(&b.decrement()),
        }
    }

    /// Subtraction: `a - b` is `a + (-b)`.
    pub fn subtract(&self, b: &Numeral) -> (r: Numeral)
        requires
            self.wf(),
            b.wf(),
        ensures
            r == Numeral::from_int(self.value() - b.value()),
            r.wf(),
            r.value() == self.value() - b.value(),
    {
        self.add(&b.negate())
    }

    /// Multiplication by repeated addition on the left operand: `Zero * b` is `Zero`,
    /// `Succ(a) * b` is `b + a * b`, and `Pred(a) * b` is `-b + a * b`.
    pub fn multiply(&self, b: &Numeral) -> (r: Numeral)
        requires
            self.wf(),
            b.wf(),
        ensures
            r == Numeral::from_int(self.value() * b.value()),
            r.wf(),
            r.value() == self.value() * b.value(),
        decreases self,
    {
        proof {
            lemma_from_int(self.value() * b.value());
        }
        match self {
            Numeral::Zero => Numeral::Zero,
            Numeral::Succ(a) => {
                let r = b.add(&a.multiply(b));
                proof {
                    let (x, y) = (a.value(), b.value());
                    assert((x + 1) * y == y + x * y) by (nonlinear_arith);
                }
                r
            },
            Numeral::Pred(a) => {
                let r = b.negate().add(&a.multiply(b));
                proof {
                    let (x, y) = (a.value(), b.value());
                    assert((x - 1) * y == -y + x * y) by (nonlinear_arith);
                }
                r
            },
        }
    }

    /// Exact halving, two steps at a time: `Zero` halves to `Zero`, `Succ(Succ(a))` to
    /// `Succ(a / 2)`, `Pred(Pred(a))` to `Pred(a / 2)`. A number of odd magnitude has
    /// no half.
    pub fn halve(&self) -> (r: Result<Numeral, ArithError>)
        requires
            self.wf(),
        ensures
            r == if self.value() % 2 == 0 {
                Ok::<Numeral, ArithError>(Numeral::from_int(self.value() / 2))
            } else {
                Err::<Numeral, ArithError>(ArithError::OddMagnitude)
            },
        decreases self,
    {
        proof {
            lemma_sign_classes(*self);
        }
        match self {
            Numeral::Zero => Ok(Numeral::Zero),
            Numeral::Succ(a) => match &**a {
                Numeral::Succ(aa) => {
                    let ghost v = aa.value();
                    proof {
                        assert(a.wf());
                        lemma_sign_classes(**aa);
                        vstd::arithmetic::div_mod::lemma_div_plus_one(v, 2);
                        vstd::arithmetic::div_mod::lemma_div_pos_is_pos(v, 2);
                        assert(a.value() == v + 1);
                        assert(self.value() == v + 2);
                        assert((v + 2) % 2 == v % 2);
                        assert(Numeral::from_int(v / 2 + 1) == Numeral::Succ(
                            Box::new(Numeral::from_int(v / 2)),
                        ));
                    }
                    match aa.halve() {
                        Ok(h) => {
                            proof {
                                assert(v % 2 == 0);
                                assert(self.value() / 2 == v / 2 + 1);
                            }
                            Ok(Numeral::Succ(Box::new(h)))
                        },
                        Err(e) => {
                            proof {
                                assert(v % 2 != 0);
                            }
                            Err(e)
                        },
                    }
                },
                _ => {
                    proof {
                        assert(a.wf());
                        assert(**a == Numeral::Zero);
                        assert(a.value() == 0);
                        assert(self.value() == 1);
                    }
                    Err(ArithError::OddMagnitude)
                },
            },
            Numeral::Pred(a) => match &**a {
                Numeral::Pred(aa) => {
                    let ghost v = aa.value();
                    proof {
                        assert(a.wf());
                        lemma_sign_classes(**aa);
                        vstd::arithmetic::div_mod::lemma_div_minus_one(v, 2);
                        assert(a.value() == v - 1);
                        assert(self.value() == v - 2);
                        assert((v - 2) % 2 == v % 2);
                        assert(v / 2 <= 0);
                        assert(Numeral::from_int(v / 2 - 1) == Numeral::Pred(
                            Box::new(Numeral::from_int(v / 2)),
                        ));
                    }
                    match aa.halve() {
                        Ok(h) => {
                            proof {
                                assert(v % 2 == 0);
                                assert(self.value() / 2 == v / 2 - 1);
                            }
                            Ok(Numeral::Pred(Box::new(h)))
                        },
                        Err(e) => {
                            proof {
                                assert(v % 2 != 0);
                            }
                            Err(e)
                        },
                    }
                },
                _ => {
                    proof {
                        assert(a.wf());
                        assert(**a == Numeral::Zero);
                        assert(a.value() == 0);
                        assert(self.value() == -1);
                    }
                    Err(ArithError::OddMagnitude)
                },
            },
        }
    }

    /// Division of a non-negative numeral by a positive one, by repeated subtraction:
    /// `Zero / d` is `Zero`; `Succ(a) / Succ(b)` is `Zero` when `a - b` is negative, that
    /// is when the dividend is smaller than the divisor, and `Succ((a - b) / Succ(b))`
    /// otherwise.
    fn divide_nonneg(&self, d: &Numeral) -> (r: Numeral)
        requires
            self.is_nonneg(),
            d.is_nonneg(),
            d.value() > 0,
        ensures
            r == Numeral::from_int(self.value() / d.value()),
        decreases self.depth(),
    {
        proof {
            lemma_sign_classes(*self);
            lemma_sign_classes(*d);
        }
        match (self, d) {
            (Numeral::Succ(a), Numeral::Succ(b)) => {
                proof {
                    lemma_sign_classes(**a);
                    lemma_sign_classes(**b);
                }
                let rest = a.subtract(b);
                proof {
                    lemma_sign_classes(rest);
                    lemma_from_int(rest.value());
                }
                match rest {
                    Numeral::Pred(_) => {
                        proof {
                            vstd::arithmetic::div_mod::lemma_basic_div(self.value(), d.value());
                        }
                        Numeral::Zero
                    },
                    _ => {
                        let q = rest.divide_nonneg(d);
                        proof {
                            vstd::arithmetic::div_mod::lemma_div_plus_one(rest.value(), d.value());
                            vstd::arithmetic::div_mod::lemma_div_pos_is_pos(rest.value(), d.value());
                            lemma_from_int(rest.value() / d.value());
                        }
                        Numeral::Succ(Box::new(q))
                    },
                }
            },
            _ => {
                proof {
                    vstd::arithmetic::div_mod::lemma_div_of0(d.value());
                }
                Numeral::Zero
            },
        }
    }

    /// Division that truncates toward zero. Each sign case is brought back to a
    /// non-negative dividend over a positive divisor: a negative divisor or dividend is
    /// negated first, and the quotient is negated when the signs differ. Division by
    /// zero fails.
    pub fn divide(&self, d: &Numeral) -> (r: Result<Numeral, ArithError>)
        requires
            self.wf(),
            d.wf(),
        ensures
            r == if d.value() == 0 {
                Err::<Numeral, ArithError>(ArithError::DivisionByZero)
            } else {
                Ok::<Numeral, ArithError>(
                    Numeral::from_int(quotient_toward_zero(self.value(), d.value())),
                )
            },
    {
        proof {
            lemma_sign_classes(*self);
            lemma_sign_classes(*d);
        }
        match (self, d) {
            (_, Numeral::Zero) => Err(ArithError::DivisionByZero),
            (Numeral::Zero, _) => {
                proof {
                    vstd::arithmetic::div_mod::lemma_div_of0(abs(d.value()) as int);
                }
                Ok(Numeral::Zero)
            },
            (Numeral::Succ(_), Numeral::Succ(_)) => Ok(self.divide_nonneg(d)),
            (Numeral::Pred(_), Numeral::Pred(_)) => {
                let p = self.negate();
                let q = d.negate();
                proof {
                    lemma_from_int(p.value());
                    lemma_from_int(q.value());
                }
                Ok(p.divide_nonneg(&q))
            },
            (Numeral::Succ(_), Numeral::Pred(_)) => {
                let q = d.negate();
                proof {
                    lemma_from_int(q.value());
                }
                let r = self.divide_nonneg(&q);
                proof {
                    vstd::arithmetic::div_mod::lemma_div_pos_is_pos(self.value(), q.value());
                    lemma_from_int(r.value());
                    lemma_from_int(self.value() / q.value());
                }
                Ok(r.negate())
            },
            (Numeral::Pred(_), Numeral::Succ(_)) => {
                let p = self.negate();
                proof {
                    lemma_from_int(p.value());
                }
                let r = p.divide_nonneg(d);
                proof {
                    vstd::arithmetic::div_mod::lemma_div_pos_is_pos(p.value(), d.value());
                    lemma_from_int(p.value() / d.value());
                }
                Ok(r.negate())
            },
        }
    }
    /// The numeral that stands for `v`, built by wrapping `Zero` once per unit.
    pub fn from_i64(v: i64) -> (r: Numeral)
        ensures
            r == Numeral::from_int(v as int),
            r.wf(),
            r.value() == v,
    {
        let mut r = Numeral::Zero;
        let mut k: i64 = 0;
        if v >= 0 {
            while k < v
                invariant
                    0 <= k <= v,
                    r == Numeral::from_int(k as int),
                decreases v - k,
            {
                r = Numeral::Succ(Box::new(r));
                k = k + 1;
            }
        } else {
            while k > v
                invariant
                    v <= k <= 0,
                    r == Numeral::from_int(k as int),
                decreases k - v,
            {
                r = Numeral::Pred(Box::new(r));
                k = k - 1;
            }
        }
        proof {
            lemma_from_int(v as int);
        }
        r
    }

    /// The value as an `i64`, unwinding one constructor at a time; `None` where it does
    /// not fit.
    pub fn to_i64(&self) -> (r: Option<i64>)
        requires
            self.wf(),
        ensures
            r == if i64::MIN <= self.value() <= i64::MAX {
                Some(self.value() as i64)
            } else {
                None::<i64>
            },
        decreases self,
    {
        proof {
            lemma_sign_classes(*self);
        }
        match self {
            Numeral::Zero => Some(0),
            Numeral::Succ(n) => match n.to_i64() {
                Some(k) => k.checked_add(1),
                None => None,
            },
            Numeral::Pred(n) => match n.to_i64() {
                Some(k) => k.checked_sub(1),
                None => None,
            },
        }
    }

    /// The value of a non-negative numeral as a `u64`; `None` where it does not fit.
    pub fn to_u64(&self) -> (r: Option<u64>)
        requires
            self.is_nonneg(),
        ensures
            r == if self.value() <= u64::MAX {
                Some(self.value() as u64)
            } else {
                None::<u64>
            },
        decreases self,
    {
        proof {
            lemma_sign_classes(*self);
        }
        match self {
            Numeral::Succ(n) => match n.to_u64() {
                Some(k) => k.checked_add(1),
                None => None,
            },
            _ => Some(0),
        }
    }
}

} // verus!
