use vstd::prelude::*;

use crate::work::Printed;

verus! {

/// A printed quantity that a worked-solution line shows as a number.
#[derive(PartialEq, Eq, Structural, Clone, Copy, Debug)]
pub enum Atom {
    InitialVelocity,
    FinalVelocity,
    Acceleration,
    Time,
    Displacement,
    HalfAcceleration,
}

/// A quantity that a line writes by its name.
#[derive(PartialEq, Eq, Structural, Clone, Copy, Debug)]
pub enum Sym {
    V0,
    V1,
    A,
    T,
    Dd,
    Dx,
}

/// A number written into a line.
#[derive(PartialEq, Eq, Structural, Clone, Copy, Debug)]
pub enum Konst {
    Zero,
    Half,
    NegHalf,
    Two,
    Four,
}

/// An arithmetic expression as a worked-solution line writes it.
pub enum Expr {
    Printed(Atom),
    Sym(Sym),
    Konst(Konst),
    Add(Box<Expr>, Box<Expr>),
    Sub(Box<Expr>, Box<Expr>),
    Mul(Box<Expr>, Box<Expr>),
    Div(Box<Expr>, Box<Expr>),
    /// A product written by juxtaposition, as in `0.5at²`.
    Juxt(Box<Expr>, Box<Expr>),
    Square(Box<Expr>),
    Neg(Box<Expr>),
    /// `x+-y`: either root of the quadratic formula.
    PlusMinus(Box<Expr>, Box<Expr>),
    /// `√(x)`
    Sqrt(Box<Expr>),
}

pub open spec fn atom_text(a: Atom, p: Printed) -> Seq<char> {
    match a {
        Atom::InitialVelocity => p.vi@,
        Atom::FinalVelocity => p.vf@,
        Atom::Acceleration => p.acc@,
        Atom::Time => p.time@,
        Atom::Displacement => p.dx@,
        Atom::HalfAcceleration => p.half_acc@,
    }
}

pub open spec fn sym_text(s: Sym) -> Seq<char> {
    match s {
        Sym::V0 => "v₀"@,
        Sym::V1 => "v₁"@,
        Sym::A => "a"@,
        Sym::T => "t"@,
        Sym::Dd => "Δd"@,
        Sym::Dx => "Δx"@,
    }
}

pub open spec fn konst_text(k: Konst) -> Seq<char> {
    match k {
        Konst::Zero => "0"@,
        Konst::Half => "0.5"@,
        Konst::NegHalf => "-0.5"@,
        Konst::Two => "2"@,
        Konst::Four => "4"@,
    }
}

/// Binding strength: sums bind weakest, then products and quotients, then
/// juxtaposition and negation; single terms bind strongest.
pub open spec fn prec(e: Expr) -> int {
    match e {
        Expr::Add(..) | Expr::Sub(..) | Expr::PlusMinus(..) => 1,
        Expr::Mul(..) | Expr::Div(..) => 2,
        Expr::Juxt(..) | Expr::Neg(..) => 3,
        _ => 4,
    }
}

pub open spec fn wrap_text(s: Seq<char>, need: bool) -> Seq<char> {
    if need {
        "("@ + s + ")"@
    } else {
        s
    }
}

/// The text of an expression, with the parentheses that its structure
/// needs under the usual precedence and left-to-right grouping.
pub open spec fn render(e: Expr, p: Printed) -> Seq<char>
    decreases e,
{
    match e {
        Expr::Printed(a) => atom_text(a, p),
        Expr::Sym(s) => sym_text(s),
        Expr::Konst(k) => konst_text(k),
        Expr::Add(l, r) => wrap_text(render(*l, p), prec(*l) < 1) + "+"@ + wrap_text(
            render(*r, p),
            prec(*r) < 1,
        ),
        Expr::Sub(l, r) => wrap_text(render(*l, p), prec(*l) < 1) + "-"@ + wrap_text(
            render(*r, p),
            prec(*r) < 2,
        ),
        Expr::Mul(l, r) => wrap_text(render(*l, p), prec(*l) < 2) + "*"@ + wrap_text(
            render(*r, p),
            prec(*r) < 2,
        ),
        Expr::Div(l, r) => wrap_text(render(*l, p), prec(*l) < 2) + "/"@ + wrap_text(
            render(*r, p),
            prec(*r) < 3,
        ),
        Expr::Juxt(l, r) => wrap_text(render(*l, p), prec(*l) < 3) + wrap_text(
            render(*r, p),
            prec(*r) < 4,
        ),
        Expr::Square(x) => wrap_text(render(*x, p), prec(*x) < 4) + "²"@,
        Expr::Neg(x) => "-"@ + wrap_text(render(*x, p), prec(*x) < 4),
        Expr::PlusMinus(l, r) => wrap_text(render(*l, p), prec(*l) < 1) + "+-"@ + wrap_text(
            render(*r, p),
            prec(*r) < 2,
        ),
        Expr::Sqrt(x) => "√("@ + render(*x, p) + ")"@,
    }
}

/// The text of an equation `lhs=rhs`.
pub open spec fn render_eq(lhs: Expr, rhs: Expr, p: Printed) -> Seq<char> {
    render(lhs, p) + "="@ + render(rhs, p)
}

// Rational numbers as (numerator, denominator).
pub open spec fn q_add(x: (int, int), y: (int, int)) -> (int, int) {
    (x.0 * y.1 + y.0 * x.1, x.1 * y.1)
}

pub open spec fn q_sub(x: (int, int), y: (int, int)) -> (int, int) {
    (x.0 * y.1 - y.0 * x.1, x.1 * y.1)
}

pub open spec fn q_mul(x: (int, int), y: (int, int)) -> (int, int) {
    (x.0 * y.0, x.1 * y.1)
}

pub open spec fn q_div(x: (int, int), y: (int, int)) -> (int, int) {
    (x.0 * y.1, x.1 * y.0)
}

/// Two rationals with non-zero denominators are the same number.
pub open spec fn q_same(x: (int, int), y: (int, int)) -> bool {
    x.1 != 0 && y.1 != 0 && x.0 * y.1 == y.0 * x.1
}

pub open spec fn sym_atom(s: Sym) -> Atom {
    match s {
        Sym::V0 => Atom::InitialVelocity,
        Sym::V1 => Atom::FinalVelocity,
        Sym::A => Atom::Acceleration,
        Sym::T => Atom::Time,
        Sym::Dd | Sym::Dx => Atom::Displacement,
    }
}

pub open spec fn konst_value(k: Konst) -> (int, int) {
    match k {
        Konst::Zero => (0, 1),
        Konst::Half => (1, 2),
        Konst::NegHalf => (-1, 2),
        Konst::Two => (2, 1),
        Konst::Four => (4, 1),
    }
}

/// The value of an expression when each quantity, printed or named, has
/// the value `val` gives it (half the acceleration is half of it), `x+-y`
/// takes the sign `pm` and a square root is `root`.
pub open spec fn eval(e: Expr, val: spec_fn(Atom) -> (int, int), pm: int, root: (int, int)) -> (
    int,
    int,
)
    decreases e,
{
    match e {
        Expr::Printed(a) => if a == Atom::HalfAcceleration {
            q_mul(val(Atom::Acceleration), (1, 2))
        } else {
            val(a)
        },
        Expr::Sym(s) => val(sym_atom(s)),
        Expr::Konst(k) => konst_value(k),
        Expr::Add(l, r) => q_add(eval(*l, val, pm, root), eval(*r, val, pm, root)),
        Expr::Sub(l, r) => q_sub(eval(*l, val, pm, root), eval(*r, val, pm, root)),
        Expr::Mul(l, r) => q_mul(eval(*l, val, pm, root), eval(*r, val, pm, root)),
        Expr::Div(l, r) => q_div(eval(*l, val, pm, root), eval(*r, val, pm, root)),
        Expr::Juxt(l, r) => q_mul(eval(*l, val, pm, root), eval(*r, val, pm, root)),
        Expr::Square(x) => q_mul(eval(*x, val, pm, root), eval(*x, val, pm, root)),
        Expr::Neg(x) => (-eval(*x, val, pm, root).0, eval(*x, val, pm, root).1),
        Expr::PlusMinus(l, r) => q_add(
            eval(*l, val, pm, root),
            q_mul((pm, 1), eval(*r, val, pm, root)),
        ),
        Expr::Sqrt(x) => root,
    }
}

/// Values of the five quantities of a motion with constant acceleration:
/// initial velocity `vi`, acceleration `a`, duration `t`; then the final
/// velocity is vi + at and the displacement vi·t + ½at².
pub open spec fn motion(vi: int, a: int, t: int) -> spec_fn(Atom) -> (int, int) {
    |q: Atom|
        match q {
            Atom::InitialVelocity => (vi, 1),
            Atom::FinalVelocity => (vi + a * t, 1),
            Atom::Acceleration => (a, 1),
            Atom::Time => (t, 1),
            Atom::Displacement => (2 * vi * t + a * t * t, 2),
            Atom::HalfAcceleration => (a, 2),
        }
}

/// Any integer values of the five quantities, related or not.
pub open spec fn values(vi: int, vf: int, a: int, t: int, dx: int) -> spec_fn(Atom) -> (int, int) {
    |q: Atom|
        match q {
            Atom::InitialVelocity => (vi, 1),
            Atom::FinalVelocity => (vf, 1),
            Atom::Acceleration => (a, 1),
            Atom::Time => (t, 1),
            Atom::Displacement => (dx, 1),
            Atom::HalfAcceleration => (a, 2),
        }
}

} // verus!
