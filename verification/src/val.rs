//! Exact symbolic scalars and angles.
//!
//! A [`Val`] is an immutable expression tree over arbitrary-precision
//! integers: sums, differences, products, quotients, powers, square roots,
//! trigonometric results of angles, and named free parameters.  An [`Angle`]
//! is an immutable symbolic angle, kept in "coefficient times pi" form as
//! long as the operations allow, so that the literal zero angle stays
//! recognisable through composition.
//!
//! Every constructor attempts the documented local simplifications (identity
//! elimination, constant folding of integer literals, sign pushing) and
//! nothing more: structurally different trees that are mathematically equal
//! are not recognised as equal, by design.

use vstd::prelude::*;

use crate::bigint::big_add;
use crate::bigint::big_clone;
use crate::bigint::big_from_i64;
use crate::bigint::big_int_value;
use crate::bigint::big_is_one;
use crate::bigint::big_is_zero;
use crate::bigint::big_mul;
use crate::bigint::big_neg;
use crate::bigint::big_pow_u32;
use crate::bigint::big_to_i64;
use crate::bigint::big_to_u64;
use crate::bigint::big_from_u64;

verus! {

/// An exact symbolic scalar expression.
pub enum Val {
    /// An arbitrary-precision integer literal.
    Int(num_bigint::BigInt),
    /// The sum of two scalars.
    Sum(Box<Val>, Box<Val>),
    /// The difference of two scalars.
    Dif(Box<Val>, Box<Val>),
    /// The product of two scalars.
    Prd(Box<Val>, Box<Val>),
    /// The quotient of two scalars.
    Rat(Box<Val>, Box<Val>),
    /// A scalar raised to a scalar power.
    Pow(Box<Val>, Box<Val>),
    /// The square root of a scalar.
    Sqrt(Box<Val>),
    /// The sine of an angle.
    Sin(Angle),
    /// The cosine of an angle.
    Cos(Angle),
    /// The tangent of an angle.
    Tan(Angle),
    /// A named free parameter, for symbolic formulas rather than numbers.
    Param(usize),
}

/// An exact symbolic angle.
pub enum Angle {
    /// A scalar coefficient times pi: the canonical shape.
    Pi(Box<Val>),
    /// The sum of two angles.
    Sum(Box<Angle>, Box<Angle>),
    /// The difference of two angles.
    Dif(Box<Angle>, Box<Angle>),
    /// An angle scaled by a scalar.
    Prd(Box<Angle>, Box<Val>),
    /// An angle divided by a scalar.
    Rat(Box<Angle>, Box<Val>),
    /// The arcsine of a scalar.
    ASin(Box<Val>),
    /// The arccosine of a scalar.
    ACos(Box<Val>),
    /// The arctangent of a scalar.
    ATan(Box<Val>),
}

/// The mathematical model of a [`Val`]: the same tree with the opaque
/// big-integer literals replaced by their mathematical values.
pub ghost enum ValView {
    Int(int),
    Sum(Box<ValView>, Box<ValView>),
    Dif(Box<ValView>, Box<ValView>),
    Prd(Box<ValView>, Box<ValView>),
    Rat(Box<ValView>, Box<ValView>),
    Pow(Box<ValView>, Box<ValView>),
    Sqrt(Box<ValView>),
    Sin(AngleView),
    Cos(AngleView),
    Tan(AngleView),
    Param(nat),
}

/// The mathematical model of an [`Angle`].
pub ghost enum AngleView {
    Pi(Box<ValView>),
    Sum(Box<AngleView>, Box<AngleView>),
    Dif(Box<AngleView>, Box<AngleView>),
    Prd(Box<AngleView>, Box<ValView>),
    Rat(Box<AngleView>, Box<ValView>),
    ASin(Box<ValView>),
    ACos(Box<ValView>),
    ATan(Box<ValView>),
}

pub open spec fn spec_val_view(v: Val) -> ValView
    decreases v,
{
    match v {
        Val::Int(b) => ValView::Int(big_int_value(b)),
        Val::Sum(a, b) => ValView::Sum(Box::new(spec_val_view(*a)), Box::new(spec_val_view(*b))),
        Val::Dif(a, b) => ValView::Dif(Box::new(spec_val_view(*a)), Box::new(spec_val_view(*b))),
        Val::Prd(a, b) => ValView::Prd(Box::new(spec_val_view(*a)), Box::new(spec_val_view(*b))),
        Val::Rat(a, b) => ValView::Rat(Box::new(spec_val_view(*a)), Box::new(spec_val_view(*b))),
        Val::Pow(a, b) => ValView::Pow(Box::new(spec_val_view(*a)), Box::new(spec_val_view(*b))),
        Val::Sqrt(a) => ValView::Sqrt(Box::new(spec_val_view(*a))),
        Val::Sin(a) => ValView::Sin(spec_angle_view(a)),
        Val::Cos(a) => ValView::Cos(spec_angle_view(a)),
        Val::Tan(a) => ValView::Tan(spec_angle_view(a)),
        Val::Param(t) => ValView::Param(t as nat),
    }
}

pub open spec fn spec_angle_view(a: Angle) -> AngleView
    decreases a,
{
    match a {
        Angle::Pi(x) => AngleView::Pi(Box::new(spec_val_view(*x))),
        Angle::Sum(x, y) => AngleView::Sum(
            Box::new(spec_angle_view(*x)),
            Box::new(spec_angle_view(*y)),
        ),
        Angle::Dif(x, y) => AngleView::Dif(
            Box::new(spec_angle_view(*x)),
            Box::new(spec_angle_view(*y)),
        ),
        Angle::Prd(x, y) => AngleView::Prd(Box::new(spec_angle_view(*x)), Box::new(spec_val_view(*y))),
        Angle::Rat(x, y) => AngleView::Rat(Box::new(spec_angle_view(*x)), Box::new(spec_val_view(*y))),
        Angle::ASin(x) => AngleView::ASin(Box::new(spec_val_view(*x))),
        Angle::ACos(x) => AngleView::ACos(Box::new(spec_val_view(*x))),
        Angle::ATan(x) => AngleView::ATan(Box::new(spec_val_view(*x))),
    }
}

impl View for Val {
    type V = ValView;

    open spec fn view(&self) -> ValView {
        spec_val_view(*self)
    }
}

impl View for Angle {
    type V = AngleView;

    open spec fn view(&self) -> AngleView {
        spec_angle_view(*self)
    }
}

impl ValView {
    /// Whether this tree is the literal integer zero.  Nothing else counts:
    /// a sum that is mathematically zero is not recognised.
    pub open spec fn is_lit_zero(self) -> bool {
        self matches ValView::Int(i) && i == 0
    }

    /// Whether this tree is the literal integer one.
    pub open spec fn is_lit_one(self) -> bool {
        self matches ValView::Int(i) && i == 1
    }

    /// What [`Val::add`] returns: identity elimination on a literal zero,
    /// constant folding of two literals, and otherwise a sum node.
    pub open spec fn spec_add(self, o: ValView) -> ValView {
        if self.is_lit_zero() {
            o
        } else if o.is_lit_zero() {
            self
        } else {
            match (self, o) {
                (ValView::Int(x), ValView::Int(y)) => ValView::Int(x + y),
                _ => ValView::Sum(Box::new(self), Box::new(o)),
            }
        }
    }

    /// What [`Val::mul`] returns: a literal zero absorbs, a literal one is
    /// eliminated, two literals fold, and otherwise a product node.
    pub open spec fn spec_mul(self, o: ValView) -> ValView {
        if self.is_lit_zero() || o.is_lit_zero() {
            ValView::Int(0)
        } else if self.is_lit_one() {
            o
        } else if o.is_lit_one() {
            self
        } else {
            match (self, o) {
                (ValView::Int(x), ValView::Int(y)) => ValView::Int(x * y),
                _ => ValView::Prd(Box::new(self), Box::new(o)),
            }
        }
    }

    /// What [`Val::neg`] returns: negation is pushed into literals,
    /// differences, products and quotients rather than wrapped around them.
    pub open spec fn spec_neg(self) -> ValView
        decreases self,
    {
        match self {
            ValView::Int(x) => ValView::Int(-x),
            ValView::Dif(x, y) => ValView::Dif(y, x),
            ValView::Prd(x, y) => ValView::Prd(Box::new(x.spec_neg()), y),
            ValView::Rat(x, y) => ValView::Rat(Box::new(x.spec_neg()), y),
            _ => self.spec_mul(ValView::Int(-1)),
        }
    }

    /// What [`Val::sub`] returns: the sum with the negation.
    pub open spec fn spec_sub(self, o: ValView) -> ValView {
        self.spec_add(o.spec_neg())
    }

    /// What [`Val::div`] returns for a divisor that is not the literal zero:
    /// a literal zero numerator stays zero, a literal one divisor is
    /// eliminated, and otherwise a quotient node.
    pub open spec fn spec_div(self, o: ValView) -> ValView
        recommends
            !o.is_lit_zero(),
    {
        if self.is_lit_zero() {
            ValView::Int(0)
        } else if o.is_lit_one() {
            self
        } else {
            ValView::Rat(Box::new(self), Box::new(o))
        }
    }

    /// What [`Val::rec`] returns for a value that is not the literal zero:
    /// the literal one is its own reciprocal, a quotient is flipped, and
    /// anything else is divided into one.
    pub open spec fn spec_rec(self) -> ValView
        recommends
            !self.is_lit_zero(),
    {
        if self.is_lit_one() {
            ValView::Int(1)
        } else {
            match self {
                ValView::Rat(a, b) => ValView::Rat(b, a),
                _ => ValView::Rat(Box::new(ValView::Int(1)), Box::new(self)),
            }
        }
    }

    /// What [`Val::pow`] returns when base and exponent are not both the
    /// literal zero: a literal zero base stays zero, a literal zero exponent
    /// gives one, and otherwise a power node.  No integer roots or powers are
    /// computed here, by design.
    pub open spec fn spec_pow(self, o: ValView) -> ValView
        recommends
            !(self.is_lit_zero() && o.is_lit_zero()),
    {
        if self.is_lit_zero() {
            ValView::Int(0)
        } else if o.is_lit_zero() {
            ValView::Int(1)
        } else {
            ValView::Pow(Box::new(self), Box::new(o))
        }
    }

    /// What [`Val::sqrt`] returns: the literal zero and one are their own
    /// roots, and anything else becomes a root node.
    pub open spec fn spec_sqrt(self) -> ValView {
        if self.is_lit_zero() {
            ValView::Int(0)
        } else if self.is_lit_one() {
            ValView::Int(1)
        } else {
            ValView::Sqrt(Box::new(self))
        }
    }

    /// What [`Val::pi`] returns: this value as a coefficient of pi.
    pub open spec fn spec_pi(self) -> AngleView {
        AngleView::Pi(Box::new(self))
    }

    /// What [`Val::asin`] returns: the arcsine of a sine is that angle,
    /// recognised only when the tree literally is a sine node.
    pub open spec fn spec_asin(self) -> AngleView {
        match self {
            ValView::Sin(x) => x,
            _ => AngleView::ASin(Box::new(self)),
        }
    }

    /// What [`Val::acos`] returns, with the same boundary as the arcsine.
    pub open spec fn spec_acos(self) -> AngleView {
        match self {
            ValView::Cos(x) => x,
            _ => AngleView::ACos(Box::new(self)),
        }
    }

    /// What [`Val::atan`] returns, with the same boundary as the arcsine.
    pub open spec fn spec_atan(self) -> AngleView {
        match self {
            ValView::Tan(x) => x,
            _ => AngleView::ATan(Box::new(self)),
        }
    }
}

/// Whether the integer `n` fits in an `i64`.
pub open spec fn in_i64(n: int) -> bool {
    i64::MIN <= n <= i64::MAX
}

/// Whether the integer `n` fits in a `u64`.
pub open spec fn in_u64(n: int) -> bool {
    0 <= n <= u64::MAX
}

impl ValView {
    /// The signed 64-bit fold of this tree, as [`Val::to_i64`] computes it:
    /// literals, sums, differences, products and powers fold exactly when
    /// every intermediate result fits; everything else is `None`.
    pub open spec fn spec_to_i64(self) -> Option<int>
        decreases self,
    {
        match self {
            ValView::Int(a) => if in_i64(a) {
                Some(a)
            } else {
                None
            },
            ValView::Sum(a, b) => match (a.spec_to_i64(), b.spec_to_i64()) {
                (Some(x), Some(y)) => if in_i64(x + y) {
                    Some(x + y)
                } else {
                    None
                },
                _ => None,
            },
            ValView::Dif(a, b) => match (a.spec_to_i64(), b.spec_to_i64()) {
                (Some(x), Some(y)) => if in_i64(x - y) {
                    Some(x - y)
                } else {
                    None
                },
                _ => None,
            },
            ValView::Prd(a, b) => match (a.spec_to_i64(), b.spec_to_i64()) {
                (Some(x), Some(y)) => if in_i64(x * y) {
                    Some(x * y)
                } else {
                    None
                },
                _ => None,
            },
            ValView::Pow(a, b) => match (a.spec_to_i64(), b.spec_to_u64()) {
                (Some(x), Some(y)) => if y <= u32::MAX && in_i64(
                    vstd::arithmetic::power::pow(x, y as nat),
                ) {
                    Some(vstd::arithmetic::power::pow(x, y as nat))
                } else {
                    None
                },
                _ => None,
            },
            _ => None,
        }
    }

    /// The unsigned 64-bit fold of this tree, as [`Val::to_u64`] computes
    /// it, mirroring [`ValView::spec_to_i64`].
    pub open spec fn spec_to_u64(self) -> Option<int>
        decreases self,
    {
        match self {
            ValView::Int(a) => if in_u64(a) {
                Some(a)
            } else {
                None
            },
            ValView::Sum(a, b) => match (a.spec_to_u64(), b.spec_to_u64()) {
                (Some(x), Some(y)) => if in_u64(x + y) {
                    Some(x + y)
                } else {
                    None
                },
                _ => None,
            },
            ValView::Dif(a, b) => match (a.spec_to_u64(), b.spec_to_u64()) {
                (Some(x), Some(y)) => if in_u64(x - y) {
                    Some(x - y)
                } else {
                    None
                },
                _ => None,
            },
            ValView::Prd(a, b) => match (a.spec_to_u64(), b.spec_to_u64()) {
                (Some(x), Some(y)) => if in_u64(x * y) {
                    Some(x * y)
                } else {
                    None
                },
                _ => None,
            },
            ValView::Pow(a, b) => match (a.spec_to_u64(), b.spec_to_u64()) {
                (Some(x), Some(y)) => if y <= u32::MAX && in_u64(
                    vstd::arithmetic::power::pow(x, y as nat),
                ) {
                    Some(vstd::arithmetic::power::pow(x, y as nat))
                } else {
                    None
                },
                _ => None,
            },
            _ => None,
        }
    }
}

impl AngleView {
    /// The literal zero angle: a coefficient of zero times pi.
    pub open spec fn spec_zero() -> AngleView {
        AngleView::Pi(Box::new(ValView::Int(0)))
    }

    /// A full turn: two pi.
    pub open spec fn spec_turn() -> AngleView {
        AngleView::Pi(Box::new(ValView::Int(2)))
    }

    /// Whether this angle is the literal zero angle: a coefficient-times-pi
    /// node whose coefficient is the literal integer zero.  Other
    /// representations of a zero angle are not recognised, by design.
    pub open spec fn is_lit_zero(self) -> bool {
        self matches AngleView::Pi(x) && x.is_lit_zero()
    }

    /// What [`Angle::add`] returns: a literal zero operand is eliminated,
    /// two coefficient-times-pi angles add their coefficients, and anything
    /// else degrades to a sum node (losing zero detection, by design).
    pub open spec fn spec_add(self, o: AngleView) -> AngleView {
        if self.is_lit_zero() {
            o
        } else if o.is_lit_zero() {
            self
        } else {
            match (self, o) {
                (AngleView::Pi(x), AngleView::Pi(y)) => AngleView::Pi(Box::new(x.spec_add(*y))),
                _ => AngleView::Sum(Box::new(self), Box::new(o)),
            }
        }
    }

    /// What [`Angle::sub`] returns, mirroring [`AngleView::spec_add`].
    pub open spec fn spec_sub(self, o: AngleView) -> AngleView {
        if self.is_lit_zero() {
            o.spec_neg()
        } else if o.is_lit_zero() {
            self
        } else {
            match (self, o) {
                (AngleView::Pi(x), AngleView::Pi(y)) => AngleView::Pi(Box::new(x.spec_sub(*y))),
                _ => AngleView::Dif(Box::new(self), Box::new(o)),
            }
        }
    }

    /// What [`Angle::mul`] returns: a coefficient-times-pi angle scales its
    /// coefficient, anything else becomes a product node.
    pub open spec fn spec_mul(self, v: ValView) -> AngleView {
        match self {
            AngleView::Pi(x) => AngleView::Pi(Box::new(x.spec_mul(v))),
            _ => AngleView::Prd(Box::new(self), Box::new(v)),
        }
    }

    /// What [`Angle::neg`] returns: the angle scaled by minus one.
    pub open spec fn spec_neg(self) -> AngleView {
        self.spec_mul(ValView::Int(-1))
    }

    /// What [`Angle::div`] returns: a coefficient-times-pi angle divides its
    /// coefficient, anything else becomes a quotient node.
    pub open spec fn spec_div(self, v: ValView) -> AngleView
        recommends
            self matches AngleView::Pi(_) ==> !v.is_lit_zero(),
    {
        match self {
            AngleView::Pi(x) => AngleView::Pi(Box::new(x.spec_div(v))),
            _ => AngleView::Rat(Box::new(self), Box::new(v)),
        }
    }

    /// What [`Angle::part`] returns: the `n`-th part of a full turn.
    pub open spec fn spec_part(n: int) -> AngleView
        recommends
            n != 0,
    {
        AngleView::spec_turn().spec_div(ValView::Int(n))
    }

    /// What [`Angle::sin`] returns: zero for the literal zero angle, and a
    /// symbolic sine node otherwise.
    pub open spec fn spec_sin(self) -> ValView {
        if self.is_lit_zero() {
            ValView::Int(0)
        } else {
            ValView::Sin(self)
        }
    }

    /// What [`Angle::cos`] returns: one for the literal zero angle, and a
    /// symbolic cosine node otherwise.
    pub open spec fn spec_cos(self) -> ValView {
        if self.is_lit_zero() {
            ValView::Int(1)
        } else {
            ValView::Cos(self)
        }
    }

    /// What [`Angle::tan`] returns: zero for the literal zero angle, and a
    /// symbolic tangent node otherwise.
    pub open spec fn spec_tan(self) -> ValView {
        if self.is_lit_zero() {
            ValView::Int(0)
        } else {
            ValView::Tan(self)
        }
    }
}

impl Val {
    /// An integer literal.
    pub fn from_i64(n: i64) -> (r: Val)
        ensures
            r@ == ValView::Int(n as int),
    {
        Val::Int(big_from_i64(n))
    }

    /// A named free parameter: index 0 renders as `t`, index `n > 0` as `t_n`.
    pub fn param(t: usize) -> (r: Val)
        ensures
            r@ == ValView::Param(t as nat),
    {
        Val::Param(t)
    }

    /// A structural copy of this tree.
    pub fn dup(&self) -> (r: Val)
        ensures
            r@ == self@,
        decreases *self,
    {
        match self {
            Val::Int(b) => Val::Int(big_clone(b)),
            Val::Sum(a, b) => Val::Sum(Box::new(a.dup()), Box::new(b.dup())),
            Val::Dif(a, b) => Val::Dif(Box::new(a.dup()), Box::new(b.dup())),
            Val::Prd(a, b) => Val::Prd(Box::new(a.dup()), Box::new(b.dup())),
            Val::Rat(a, b) => Val::Rat(Box::new(a.dup()), Box::new(b.dup())),
            Val::Pow(a, b) => Val::Pow(Box::new(a.dup()), Box::new(b.dup())),
            Val::Sqrt(a) => Val::Sqrt(Box::new(a.dup())),
            Val::Sin(a) => Val::Sin(a.dup()),
            Val::Cos(a) => Val::Cos(a.dup()),
            Val::Tan(a) => Val::Tan(a.dup()),
            Val::Param(t) => Val::Param(*t),
        }
    }

    /// Whether this value is the literal integer zero.
    pub fn is_zero(&self) -> (r: bool)
        ensures
            r == self@.is_lit_zero(),
    {
        match self {
            Val::Int(x) => big_is_zero(x),
            _ => false,
        }
    }

    /// Whether this value is the literal integer one.
    fn is_one(&self) -> (r: bool)
        ensures
            r == self@.is_lit_one(),
    {
        match self {
            Val::Int(x) => big_is_one(x),
            _ => false,
        }
    }

    /// The sum of this value and `a`, after local simplification.
    pub fn add(&self, a: &Val) -> (r: Val)
        ensures
            r@ == self@.spec_add(a@),
    {
        if self.is_zero() {
            a.dup()
        } else if a.is_zero() {
            self.dup()
        } else {
            match (self, a) {
                (Val::Int(x), Val::Int(y)) => Val::Int(big_add(x, y)),
                _ => Val::Sum(Box::new(self.dup()), Box::new(a.dup())),
            }
        }
    }

    /// The product of this value and `a`, after local simplification.
    pub fn mul(&self, a: &Val) -> (r: Val)
        ensures
            r@ == self@.spec_mul(a@),
    {
        if self.is_zero() || a.is_zero() {
            Val::from_i64(0)
        } else if self.is_one() {
            a.dup()
        } else if a.is_one() {
            self.dup()
        } else {
            match (self, a) {
                (Val::Int(x), Val::Int(y)) => Val::Int(big_mul(x, y)),
                _ => Val::Prd(Box::new(self.dup()), Box::new(a.dup())),
            }
        }
    }

    /// The negation of this value, pushed into the tree where possible.
    pub fn neg(&self) -> (r: Val)
        ensures
            r@ == self@.spec_neg(),
        decreases *self,
    {
        match self {
            Val::Int(x) => Val::Int(big_neg(x)),
            Val::Dif(x, y) => Val::Dif(Box::new(y.dup()), Box::new(x.dup())),
            Val::Prd(x, y) => Val::Prd(Box::new(x.neg()), Box::new(y.dup())),
            Val::Rat(x, y) => Val::Rat(Box::new(x.neg()), Box::new(y.dup())),
            _ => self.mul(&Val::from_i64(-1)),
        }
    }

    /// The difference of this value and `a`.
    pub fn sub(&self, a: &Val) -> (r: Val)
        ensures
            r@ == self@.spec_sub(a@),
    {
        self.add(&a.neg())
    }

    /// The quotient of this value and `a`.  Dividing by the literal zero is
    /// an invalid algebraic state and is ruled out by the contract.
    pub fn div(&self, a: &Val) -> (r: Val)
        requires
            !a@.is_lit_zero(),
        ensures
            r@ == self@.spec_div(a@),
    {
        if self.is_zero() {
            Val::from_i64(0)
        } else if a.is_one() {
            self.dup()
        } else {
            Val::Rat(Box::new(self.dup()), Box::new(a.dup()))
        }
    }

    /// The reciprocal of this value.  The reciprocal of the literal zero is
    /// an invalid algebraic state and is ruled out by the contract.
    pub fn rec(&self) -> (r: Val)
        requires
            !self@.is_lit_zero(),
        ensures
            r@ == self@.spec_rec(),
    {
        if self.is_one() {
            Val::from_i64(1)
        } else {
            match self {
                Val::Rat(a, b) => Val::Rat(Box::new(b.dup()), Box::new(a.dup())),
                _ => Val::Rat(Box::new(Val::from_i64(1)), Box::new(self.dup())),
            }
        }
    }

    /// This value raised to the power `a`.  The literal zero raised to the
    /// literal zero power is an invalid algebraic state and is ruled out by
    /// the contract.
    pub fn pow(&self, a: &Val) -> (r: Val)
        requires
            !(self@.is_lit_zero() && a@.is_lit_zero()),
        ensures
            r@ == self@.spec_pow(a@),
    {
        if self.is_zero() {
            Val::from_i64(0)
        } else if a.is_zero() {
            Val::from_i64(1)
        } else {
            Val::Pow(Box::new(self.dup()), Box::new(a.dup()))
        }
    }

    /// The square root of this value.
    pub fn sqrt(&self) -> (r: Val)
        ensures
            r@ == self@.spec_sqrt(),
    {
        if self.is_zero() {
            Val::from_i64(0)
        } else if self.is_one() {
            Val::from_i64(1)
        } else {
            Val::Sqrt(Box::new(self.dup()))
        }
    }

    /// This value as a coefficient of pi.
    pub fn pi(&self) -> (r: Angle)
        ensures
            r@ == self@.spec_pi(),
    {
        Angle::Pi(Box::new(self.dup()))
    }

    /// The arcsine of this value, as an angle.
    pub fn asin(&self) -> (r: Angle)
        ensures
            r@ == self@.spec_asin(),
    {
        match self {
            Val::Sin(x) => x.dup(),
            _ => Angle::ASin(Box::new(self.dup())),
        }
    }

    /// The arccosine of this value, as an angle.
    pub fn acos(&self) -> (r: Angle)
        ensures
            r@ == self@.spec_acos(),
    {
        match self {
            Val::Cos(x) => x.dup(),
            _ => Angle::ACos(Box::new(self.dup())),
        }
    }

    /// The arctangent of this value, as an angle.
    pub fn atan(&self) -> (r: Angle)
        ensures
            r@ == self@.spec_atan(),
    {
        match self {
            Val::Tan(x) => x.dup(),
            _ => Angle::ATan(Box::new(self.dup())),
        }
    }

    /// The sum of this value and the literal `a`.
    pub fn iadd(&self, a: i64) -> (r: Val)
        ensures
            r@ == self@.spec_add(ValView::Int(a as int)),
    {
        self.add(&Val::from_i64(a))
    }

    /// The difference of this value and the literal `a`.
    pub fn isub(&self, a: i64) -> (r: Val)
        ensures
            r@ == self@.spec_sub(ValView::Int(a as int)),
    {
        self.sub(&Val::from_i64(a))
    }

    /// The product of this value and the literal `a`.
    pub fn imul(&self, a: i64) -> (r: Val)
        ensures
            r@ == self@.spec_mul(ValView::Int(a as int)),
    {
        self.mul(&Val::from_i64(a))
    }

    /// The quotient of this value and the literal `a`, which must not be
    /// zero.
    pub fn idiv(&self, a: i64) -> (r: Val)
        requires
            a != 0,
        ensures
            r@ == self@.spec_div(ValView::Int(a as int)),
    {
        self.div(&Val::from_i64(a))
    }

    /// This value raised to the literal power `a`; the base must not be the
    /// literal zero when `a` is zero.
    pub fn ipow(&self, a: i64) -> (r: Val)
        requires
            !(self@.is_lit_zero() && a == 0),
        ensures
            r@ == self@.spec_pow(ValView::Int(a as int)),
    {
        self.pow(&Val::from_i64(a))
    }

    /// The exact signed 64-bit fold of this tree: `Some` exactly when every
    /// node is a literal, sum, difference, product or power and every
    /// intermediate result fits in an `i64`.
    pub fn to_i64(&self) -> (r: Option<i64>)
        ensures
            r is Some <==> self@.spec_to_i64() is Some,
            r matches Some(n) ==> self@.spec_to_i64() == Some(n as int),
        decreases *self,
    {
        match self {
            Val::Int(a) => big_to_i64(a),
            Val::Sum(a, b) => match (a.to_i64(), b.to_i64()) {
                (Some(x), Some(y)) => x.checked_add(y),
                _ => None,
            },
            Val::Dif(a, b) => match (a.to_i64(), b.to_i64()) {
                (Some(x), Some(y)) => x.checked_sub(y),
                _ => None,
            },
            Val::Prd(a, b) => match (a.to_i64(), b.to_i64()) {
                (Some(x), Some(y)) => x.checked_mul(y),
                _ => None,
            },
            Val::Pow(a, b) => match (a.to_i64(), b.to_u64()) {
                (Some(x), Some(y)) => if y <= u32::MAX as u64 {
                    big_to_i64(&big_pow_u32(&big_from_i64(x), y as u32))
                } else {
                    None
                },
                _ => None,
            },
            _ => None,
        }
    }

    /// The exact unsigned 64-bit fold of this tree, mirroring
    /// [`Val::to_i64`].
    pub fn to_u64(&self) -> (r: Option<u64>)
        ensures
            r is Some <==> self@.spec_to_u64() is Some,
            r matches Some(n) ==> self@.spec_to_u64() == Some(n as int),
        decreases *self,
    {
        match self {
            Val::Int(a) => big_to_u64(a),
            Val::Sum(a, b) => match (a.to_u64(), b.to_u64()) {
                (Some(x), Some(y)) => x.checked_add(y),
                _ => None,
            },
            Val::Dif(a, b) => match (a.to_u64(), b.to_u64()) {
                (Some(x), Some(y)) => x.checked_sub(y),
                _ => None,
            },
            Val::Prd(a, b) => match (a.to_u64(), b.to_u64()) {
                (Some(x), Some(y)) => x.checked_mul(y),
                _ => None,
            },
            Val::Pow(a, b) => match (a.to_u64(), b.to_u64()) {
                (Some(x), Some(y)) => if y <= u32::MAX as u64 {
                    big_to_u64(&big_pow_u32(&big_from_u64(x), y as u32))
                } else {
                    None
                },
                _ => None,
            },
            _ => None,
        }
    }
}

impl Angle {
    /// The literal zero angle.
    pub fn zero() -> (r: Angle)
        ensures
            r@ == AngleView::spec_zero(),
    {
        Angle::Pi(Box::new(Val::from_i64(0)))
    }

    /// A full turn: two pi.
    pub fn turn() -> (r: Angle)
        ensures
            r@ == AngleView::spec_turn(),
    {
        Angle::Pi(Box::new(Val::from_i64(2)))
    }

    /// The `a`-th part of a full turn, for `a != 0`.
    pub fn part(a: i64) -> (r: Angle)
        requires
            a != 0,
        ensures
            r@ == AngleView::spec_part(a as int),
    {
        Angle::turn().idiv(a)
    }

    /// The sum of this angle and `a`: coefficient-times-pi shapes are kept
    /// by adding coefficients; anything else becomes a sum node.
    pub fn add(&self, a: &Angle) -> (r: Angle)
        ensures
            r@ == self@.spec_add(a@),
    {
        if self.is_zero() {
            a.dup()
        } else if a.is_zero() {
            self.dup()
        } else {
            match (self, a) {
                (Angle::Pi(x), Angle::Pi(y)) => Angle::Pi(Box::new(x.add(y))),
                _ => Angle::Sum(Box::new(self.dup()), Box::new(a.dup())),
            }
        }
    }

    /// The difference of this angle and `a`, mirroring [`Angle::add`].
    pub fn sub(&self, a: &Angle) -> (r: Angle)
        ensures
            r@ == self@.spec_sub(a@),
    {
        if self.is_zero() {
            a.neg()
        } else if a.is_zero() {
            self.dup()
        } else {
            match (self, a) {
                (Angle::Pi(x), Angle::Pi(y)) => Angle::Pi(Box::new(x.sub(y))),
                _ => Angle::Dif(Box::new(self.dup()), Box::new(a.dup())),
            }
        }
    }

    /// This angle scaled by minus one.
    pub fn neg(&self) -> (r: Angle)
        ensures
            r@ == self@.spec_neg(),
    {
        self.imul(-1)
    }

    /// This angle scaled by the scalar `a`.
    pub fn mul(&self, a: &Val) -> (r: Angle)
        ensures
            r@ == self@.spec_mul(a@),
    {
        match self {
            Angle::Pi(x) => Angle::Pi(Box::new(x.mul(a))),
            _ => Angle::Prd(Box::new(self.dup()), Box::new(a.dup())),
        }
    }

    /// This angle divided by the scalar `a`.  When the angle is in
    /// coefficient-times-pi shape the coefficient is divided, so `a` must
    /// not be the literal zero there.
    pub fn div(&self, a: &Val) -> (r: Angle)
        requires
            self@ matches AngleView::Pi(_) ==> !a@.is_lit_zero(),
        ensures
            r@ == self@.spec_div(a@),
    {
        match self {
            Angle::Pi(x) => Angle::Pi(Box::new(x.div(a))),
            _ => Angle::Rat(Box::new(self.dup()), Box::new(a.dup())),
        }
    }

    /// The sine of this angle: the literal zero angle folds to zero.
    pub fn sin(&self) -> (r: Val)
        ensures
            r@ == self@.spec_sin(),
    {
        if self.is_zero() {
            Val::from_i64(0)
        } else {
            Val::Sin(self.dup())
        }
    }

    /// The cosine of this angle: the literal zero angle folds to one.
    pub fn cos(&self) -> (r: Val)
        ensures
            r@ == self@.spec_cos(),
    {
        if self.is_zero() {
            Val::from_i64(1)
        } else {
            Val::Cos(self.dup())
        }
    }

    /// The tangent of this angle: the literal zero angle folds to zero.
    pub fn tan(&self) -> (r: Val)
        ensures
            r@ == self@.spec_tan(),
    {
        if self.is_zero() {
            Val::from_i64(0)
        } else {
            Val::Tan(self.dup())
        }
    }

    /// Whether this angle is the literal zero angle.  Other representations
    /// of a mathematically zero angle (such as a sum that cancels) are not
    /// recognised, by design.
    pub fn is_zero(&self) -> (r: bool)
        ensures
            r == self@.is_lit_zero(),
    {
        match self {
            Angle::Pi(x) => x.is_zero(),
            _ => false,
        }
    }

    /// This angle scaled by the literal `a`.
    pub fn imul(&self, a: i64) -> (r: Angle)
        ensures
            r@ == self@.spec_mul(ValView::Int(a as int)),
    {
        self.mul(&Val::from_i64(a))
    }

    /// This angle divided by the literal `a`, which must not be zero when
    /// the angle is in coefficient-times-pi shape.
    pub fn idiv(&self, a: i64) -> (r: Angle)
        requires
            self@ matches AngleView::Pi(_) ==> a != 0,
        ensures
            r@ == self@.spec_div(ValView::Int(a as int)),
    {
        self.div(&Val::from_i64(a))
    }

    /// A structural copy of this tree.
    pub fn dup(&self) -> (r: Angle)
        ensures
            r@ == self@,
        decreases *self,
    {
        match self {
            Angle::Pi(x) => Angle::Pi(Box::new(x.dup())),
            Angle::Sum(x, y) => Angle::Sum(Box::new(x.dup()), Box::new(y.dup())),
            Angle::Dif(x, y) => Angle::Dif(Box::new(x.dup()), Box::new(y.dup())),
            Angle::Prd(x, y) => Angle::Prd(Box::new(x.dup()), Box::new(y.dup())),
            Angle::Rat(x, y) => Angle::Rat(Box::new(x.dup()), Box::new(y.dup())),
            Angle::ASin(x) => Angle::ASin(Box::new(x.dup())),
            Angle::ACos(x) => Angle::ACos(Box::new(x.dup())),
            Angle::ATan(x) => Angle::ATan(Box::new(x.dup())),
        }
    }
}

} // verus!
