//! Textual rendering of expression trees.
//!
//! Values and angles render to an ASCII infix form with explicit parentheses
//! around every binary operator, function-call form for powers, roots and
//! trigonometry, `t`/`t_N` for free parameters, and `<coefficient>*PI` for
//! angles in canonical shape.  The rendered text is the lossless export
//! format for exact coordinates.

use vstd::prelude::*;
use vstd::string::StringExecFns;

use crate::bigint::big_from_usize;
use crate::bigint::big_to_decimal;
use crate::bigint::spec_decimal_int;
use crate::val::Angle;
use crate::val::AngleView;
use crate::val::Val;
use crate::val::ValView;

verus! {

/// The rendering of a scalar tree: parenthesised infix operators,
/// `pow(a,b)`/`sqrt(a)` call forms, and `t`/`t_N` for parameters.
pub open spec fn spec_render_val(v: ValView) -> Seq<char>
    decreases v,
{
    match v {
        ValView::Int(a) => spec_decimal_int(a),
        ValView::Sum(a, b) => "("@ + spec_render_val(*a) + "+"@ + spec_render_val(*b) + ")"@,
        ValView::Dif(a, b) => "("@ + spec_render_val(*a) + "-"@ + spec_render_val(*b) + ")"@,
        ValView::Prd(a, b) => "("@ + spec_render_val(*a) + "*"@ + spec_render_val(*b) + ")"@,
        ValView::Rat(a, b) => "("@ + spec_render_val(*a) + "/"@ + spec_render_val(*b) + ")"@,
        ValView::Pow(a, b) => "pow("@ + spec_render_val(*a) + ","@ + spec_render_val(*b) + ")"@,
        ValView::Sqrt(a) => "sqrt("@ + spec_render_val(*a) + ")"@,
        ValView::Sin(a) => "sin("@ + spec_render_angle(a) + ")"@,
        ValView::Cos(a) => "cos("@ + spec_render_angle(a) + ")"@,
        ValView::Tan(a) => "tan("@ + spec_render_angle(a) + ")"@,
        ValView::Param(t) => if t == 0 {
            "t"@
        } else {
            "t_"@ + spec_decimal_int(t as int)
        },
    }
}

/// The rendering of an angle tree: the literal zero angle renders as `0`, a
/// canonical angle as `<coefficient>*PI`, and the rest as infix operators or
/// inverse-trigonometric call forms.
pub open spec fn spec_render_angle(a: AngleView) -> Seq<char>
    decreases a,
{
    match a {
        AngleView::Pi(x) => if x.is_lit_zero() {
            "0"@
        } else {
            spec_render_val(*x) + "*PI"@
        },
        AngleView::Sum(x, y) => "("@ + spec_render_angle(*x) + "+"@ + spec_render_angle(*y) + ")"@,
        AngleView::Dif(x, y) => "("@ + spec_render_angle(*x) + "-"@ + spec_render_angle(*y) + ")"@,
        AngleView::Prd(x, y) => "("@ + spec_render_angle(*x) + "*"@ + spec_render_val(*y) + ")"@,
        AngleView::Rat(x, y) => "("@ + spec_render_angle(*x) + "/"@ + spec_render_val(*y) + ")"@,
        AngleView::ASin(x) => "asin("@ + spec_render_val(*x) + ")"@,
        AngleView::ACos(x) => "acos("@ + spec_render_val(*x) + ")"@,
        AngleView::ATan(x) => "atan("@ + spec_render_val(*x) + ")"@,
    }
}

/// Identity law: adding the literal zero angle to any angle returns the
/// very same tree, in either operand order, so the result renders
/// identically to the original.
pub proof fn lemma_angle_add_zero(a: AngleView)
    ensures
        a.spec_add(AngleView::spec_zero()) == a,
        AngleView::spec_zero().spec_add(a) == a,
        spec_render_angle(a.spec_add(AngleView::spec_zero())) == spec_render_angle(a),
{
    if a.is_lit_zero() {
        assert(a == AngleView::spec_zero());
    }
}

/// Identity law: multiplying any value by the literal one returns the very
/// same tree, in either operand order, so the result renders identically to
/// the original.
pub proof fn lemma_val_mul_one(v: ValView)
    ensures
        v.spec_mul(ValView::Int(1)) == v,
        ValView::Int(1).spec_mul(v) == v,
        spec_render_val(v.spec_mul(ValView::Int(1))) == spec_render_val(v),
{
    if v.is_lit_zero() {
        assert(v == ValView::Int(0));
    }
}

/// Renders `prefix(a,b)suffix`-style binary forms: `open`, then the two
/// rendered operands around `sep`, then `)`.
fn render_call2(open: &str, a: String, sep: &str, b: String) -> (r: String)
    ensures
        r@ == open@ + a@ + sep@ + b@ + ")"@,
{
    let mut s = String::from_str(open);
    s.append(a.as_str());
    s.append(sep);
    s.append(b.as_str());
    s.append(")");
    s
}

/// Renders `prefix(a)`-style unary forms.
fn render_call1(open: &str, a: String) -> (r: String)
    ensures
        r@ == open@ + a@ + ")"@,
{
    let mut s = String::from_str(open);
    s.append(a.as_str());
    s.append(")");
    s
}

impl Val {
    /// The canonical infix rendering of this value.
    pub fn render(&self) -> (r: String)
        ensures
            r@ == spec_render_val(self@),
        decreases *self,
    {
        match self {
            Val::Int(a) => big_to_decimal(a),
            Val::Sum(a, b) => render_call2("(", a.render(), "+", b.render()),
            Val::Dif(a, b) => render_call2("(", a.render(), "-", b.render()),
            Val::Prd(a, b) => render_call2("(", a.render(), "*", b.render()),
            Val::Rat(a, b) => render_call2("(", a.render(), "/", b.render()),
            Val::Pow(a, b) => render_call2("pow(", a.render(), ",", b.render()),
            Val::Sqrt(a) => render_call1("sqrt(", a.render()),
            Val::Sin(a) => render_call1("sin(", a.render()),
            Val::Cos(a) => render_call1("cos(", a.render()),
            Val::Tan(a) => render_call1("tan(", a.render()),
            Val::Param(t) => {
                if *t == 0 {
                    String::from_str("t")
                } else {
                    let mut s = String::from_str("t_");
                    s.append(big_to_decimal(&big_from_usize(*t)).as_str());
                    s
                }
            },
        }
    }
}

impl Angle {
    /// The canonical infix rendering of this angle.
    pub fn render(&self) -> (r: String)
        ensures
            r@ == spec_render_angle(self@),
        decreases *self,
    {
        match self {
            Angle::Pi(x) => {
                if x.is_zero() {
                    String::from_str("0")
                } else {
                    let mut s = x.render();
                    s.append("*PI");
                    s
                }
            },
            Angle::Sum(x, y) => render_call2("(", x.render(), "+", y.render()),
            Angle::Dif(x, y) => render_call2("(", x.render(), "-", y.render()),
            Angle::Prd(x, y) => render_call2("(", x.render(), "*", y.render()),
            Angle::Rat(x, y) => render_call2("(", x.render(), "/", y.render()),
            Angle::ASin(x) => render_call1("asin(", x.render()),
            Angle::ACos(x) => render_call1("acos(", x.render()),
            Angle::ATan(x) => render_call1("atan(", x.render()),
        }
    }
}

} // verus!
