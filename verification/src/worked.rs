use vstd::prelude::*;

use crate::algebra::{
    eval, motion, q_mul, q_same, q_sub, render, render_eq, sym_atom, sym_text, values, Atom, Expr,
    Konst, Sym,
};
use crate::plan::{solved_field, spec_solving_line, spec_substitution_line, Step};
use crate::work::{answer_label, lemma_answer_line, shows_second, spec_step_lines, Printed};

verus! {

/// The kinematic equations that the steps substitute into.
#[derive(PartialEq, Eq, Structural, Clone, Copy, Debug)]
pub enum Equation {
    /// Δd=v₁t-0.5at²
    DisplacementFromFinal,
    /// Δd=v₀t+0.5at²
    DisplacementFromInitial,
    /// v₁²=v₀²+2aΔd
    VelocitySquares,
    /// v₁=v₀+at
    VelocityChange,
}

/// An equation, as its two sides.
pub open spec fn equation(e: Equation) -> (Expr, Expr) {
    match e {
        Equation::DisplacementFromFinal => (Expr::Sym(Sym::Dd), Expr::Sub(Box::new(Expr::Juxt(Box::new(Expr::Sym(Sym::V1)), Box::new(Expr::Sym(Sym::T)))), Box::new(Expr::Juxt(Box::new(Expr::Juxt(Box::new(Expr::Konst(Konst::Half)), Box::new(Expr::Sym(Sym::A)))), Box::new(Expr::Square(Box::new(Expr::Sym(Sym::T)))))))),
        Equation::DisplacementFromInitial => (Expr::Sym(Sym::Dd), Expr::Add(Box::new(Expr::Juxt(Box::new(Expr::Sym(Sym::V0)), Box::new(Expr::Sym(Sym::T)))), Box::new(Expr::Juxt(Box::new(Expr::Juxt(Box::new(Expr::Konst(Konst::Half)), Box::new(Expr::Sym(Sym::A)))), Box::new(Expr::Square(Box::new(Expr::Sym(Sym::T)))))))),
        Equation::VelocitySquares => (Expr::Square(Box::new(Expr::Sym(Sym::V1))), Expr::Add(Box::new(Expr::Square(Box::new(Expr::Sym(Sym::V0)))), Box::new(Expr::Juxt(Box::new(Expr::Juxt(Box::new(Expr::Konst(Konst::Two)), Box::new(Expr::Sym(Sym::A)))), Box::new(Expr::Sym(Sym::Dd)))))),
        Equation::VelocityChange => (Expr::Sym(Sym::V1), Expr::Add(Box::new(Expr::Sym(Sym::V0)), Box::new(Expr::Juxt(Box::new(Expr::Sym(Sym::A)), Box::new(Expr::Sym(Sym::T)))))),
    }
}

/// The equation a step substitutes the known values into.
pub open spec fn equation_of(s: Step) -> Option<Equation> {
    match s {
        Step::AccFromFinalVelocity => Some(Equation::DisplacementFromFinal),
        Step::AccFromInitialVelocity => Some(Equation::DisplacementFromInitial),
        Step::AccFromVelocitySquares => Some(Equation::VelocitySquares),
        Step::AccFromVelocityChange => Some(Equation::VelocityChange),
        Step::DxFromFinalVelocity => Some(Equation::DisplacementFromFinal),
        Step::DxFromInitialVelocity => Some(Equation::DisplacementFromInitial),
        Step::DxFromVelocitySquares => Some(Equation::VelocitySquares),
        Step::TimeQuadraticFinal => Some(Equation::DisplacementFromFinal),
        Step::TimeQuadraticInitial => Some(Equation::DisplacementFromInitial),
        Step::TimeFromVelocityChange => Some(Equation::VelocityChange),
        Step::ViFromDisplacement => Some(Equation::DisplacementFromInitial),
        Step::VfFromVelocityChange { .. } => Some(Equation::VelocityChange),
        Step::ViFromVelocityChange { .. } => None,
    }
}

pub open spec fn no_formula() -> (Expr, Expr) {
    (Expr::Konst(Konst::Zero), Expr::Konst(Konst::Zero))
}

/// The equation with the known values substituted, as a step writes it.
pub open spec fn substituted(s: Step) -> (Expr, Expr) {
    match s {
        Step::AccFromFinalVelocity => (Expr::Printed(Atom::Displacement), Expr::Sub(Box::new(Expr::Mul(Box::new(Expr::Printed(Atom::FinalVelocity)), Box::new(Expr::Printed(Atom::Time)))), Box::new(Expr::Mul(Box::new(Expr::Mul(Box::new(Expr::Mul(Box::new(Expr::Konst(Konst::Half)), Box::new(Expr::Sym(Sym::A)))), Box::new(Expr::Printed(Atom::Time)))), Box::new(Expr::Printed(Atom::Time)))))),
        Step::AccFromInitialVelocity => (Expr::Printed(Atom::Displacement), Expr::Add(Box::new(Expr::Mul(Box::new(Expr::Printed(Atom::InitialVelocity)), Box::new(Expr::Printed(Atom::Time)))), Box::new(Expr::Mul(Box::new(Expr::Mul(Box::new(Expr::Mul(Box::new(Expr::Konst(Konst::Half)), Box::new(Expr::Sym(Sym::A)))), Box::new(Expr::Printed(Atom::Time)))), Box::new(Expr::Printed(Atom::Time)))))),
        Step::AccFromVelocitySquares => (Expr::Mul(Box::new(Expr::Printed(Atom::FinalVelocity)), Box::new(Expr::Printed(Atom::FinalVelocity))), Expr::Add(Box::new(Expr::Mul(Box::new(Expr::Printed(Atom::InitialVelocity)), Box::new(Expr::Printed(Atom::InitialVelocity)))), Box::new(Expr::Mul(Box::new(Expr::Mul(Box::new(Expr::Konst(Konst::Two)), Box::new(Expr::Sym(Sym::A)))), Box::new(Expr::Printed(Atom::Displacement)))))),
        Step::AccFromVelocityChange => (Expr::Printed(Atom::FinalVelocity), Expr::Add(Box::new(Expr::Printed(Atom::InitialVelocity)), Box::new(Expr::Mul(Box::new(Expr::Sym(Sym::A)), Box::new(Expr::Printed(Atom::Time)))))),
        Step::DxFromFinalVelocity => (Expr::Sym(Sym::Dx), Expr::Sub(Box::new(Expr::Mul(Box::new(Expr::Printed(Atom::FinalVelocity)), Box::new(Expr::Printed(Atom::Time)))), Box::new(Expr::Mul(Box::new(Expr::Mul(Box::new(Expr::Mul(Box::new(Expr::Konst(Konst::Half)), Box::new(Expr::Printed(Atom::Acceleration)))), Box::new(Expr::Printed(Atom::Time)))), Box::new(Expr::Printed(Atom::Time)))))),
        Step::DxFromInitialVelocity => (Expr::Sym(Sym::Dx), Expr::Add(Box::new(Expr::Mul(Box::new(Expr::Printed(Atom::FinalVelocity)), Box::new(Expr::Printed(Atom::Time)))), Box::new(Expr::Mul(Box::new(Expr::Mul(Box::new(Expr::Mul(Box::new(Expr::Konst(Konst::Half)), Box::new(Expr::Printed(Atom::Acceleration)))), Box::new(Expr::Printed(Atom::Time)))), Box::new(Expr::Printed(Atom::Time)))))),
        Step::DxFromVelocitySquares => (Expr::Mul(Box::new(Expr::Printed(Atom::FinalVelocity)), Box::new(Expr::Printed(Atom::FinalVelocity))), Expr::Add(Box::new(Expr::Mul(Box::new(Expr::Printed(Atom::InitialVelocity)), Box::new(Expr::Printed(Atom::InitialVelocity)))), Box::new(Expr::Mul(Box::new(Expr::Mul(Box::new(Expr::Konst(Konst::Two)), Box::new(Expr::Printed(Atom::Acceleration)))), Box::new(Expr::Sym(Sym::Dd)))))),
        Step::TimeQuadraticFinal => (Expr::Printed(Atom::Displacement), Expr::Sub(Box::new(Expr::Mul(Box::new(Expr::Printed(Atom::FinalVelocity)), Box::new(Expr::Sym(Sym::T)))), Box::new(Expr::Mul(Box::new(Expr::Mul(Box::new(Expr::Mul(Box::new(Expr::Konst(Konst::Half)), Box::new(Expr::Printed(Atom::Acceleration)))), Box::new(Expr::Sym(Sym::T)))), Box::new(Expr::Sym(Sym::T)))))),
        Step::TimeQuadraticInitial => (Expr::Printed(Atom::Displacement), Expr::Add(Box::new(Expr::Mul(Box::new(Expr::Printed(Atom::InitialVelocity)), Box::new(Expr::Sym(Sym::T)))), Box::new(Expr::Mul(Box::new(Expr::Mul(Box::new(Expr::Mul(Box::new(Expr::Konst(Konst::Half)), Box::new(Expr::Printed(Atom::Acceleration)))), Box::new(Expr::Sym(Sym::T)))), Box::new(Expr::Sym(Sym::T)))))),
        Step::TimeFromVelocityChange => (Expr::Printed(Atom::FinalVelocity), Expr::Add(Box::new(Expr::Printed(Atom::InitialVelocity)), Box::new(Expr::Mul(Box::new(Expr::Printed(Atom::Acceleration)), Box::new(Expr::Sym(Sym::T)))))),
        Step::ViFromDisplacement => (Expr::Printed(Atom::Displacement), Expr::Add(Box::new(Expr::Mul(Box::new(Expr::Sym(Sym::V0)), Box::new(Expr::Printed(Atom::Time)))), Box::new(Expr::Mul(Box::new(Expr::Mul(Box::new(Expr::Mul(Box::new(Expr::Konst(Konst::Half)), Box::new(Expr::Printed(Atom::Acceleration)))), Box::new(Expr::Printed(Atom::Time)))), Box::new(Expr::Printed(Atom::Time)))))),
        Step::VfFromVelocityChange { .. } => (Expr::Sym(Sym::V1), Expr::Add(Box::new(Expr::Printed(Atom::InitialVelocity)), Box::new(Expr::Mul(Box::new(Expr::Printed(Atom::Acceleration)), Box::new(Expr::Printed(Atom::Time)))))),
        Step::ViFromVelocityChange { .. } => no_formula(),
    }
}

/// The rearranged equation `x=...` that gives the solved quantity.
pub open spec fn solved_by(s: Step) -> (Expr, Expr) {
    match s {
        Step::AccFromFinalVelocity => (Expr::Sym(Sym::A), Expr::Div(Box::new(Expr::Sub(Box::new(Expr::Printed(Atom::Displacement)), Box::new(Expr::Mul(Box::new(Expr::Printed(Atom::FinalVelocity)), Box::new(Expr::Printed(Atom::Time)))))), Box::new(Expr::Mul(Box::new(Expr::Mul(Box::new(Expr::Konst(Konst::NegHalf)), Box::new(Expr::Printed(Atom::Time)))), Box::new(Expr::Printed(Atom::Time)))))),
        Step::AccFromInitialVelocity => (Expr::Sym(Sym::A), Expr::Div(Box::new(Expr::Sub(Box::new(Expr::Printed(Atom::Displacement)), Box::new(Expr::Mul(Box::new(Expr::Printed(Atom::InitialVelocity)), Box::new(Expr::Printed(Atom::Time)))))), Box::new(Expr::Mul(Box::new(Expr::Mul(Box::new(Expr::Konst(Konst::Half)), Box::new(Expr::Printed(Atom::Time)))), Box::new(Expr::Printed(Atom::Time)))))),
        Step::AccFromVelocitySquares => (Expr::Sym(Sym::A), Expr::Div(Box::new(Expr::Sub(Box::new(Expr::Mul(Box::new(Expr::Printed(Atom::FinalVelocity)), Box::new(Expr::Printed(Atom::FinalVelocity)))), Box::new(Expr::Mul(Box::new(Expr::Printed(Atom::InitialVelocity)), Box::new(Expr::Printed(Atom::InitialVelocity)))))), Box::new(Expr::Mul(Box::new(Expr::Konst(Konst::Two)), Box::new(Expr::Printed(Atom::Displacement)))))),
        Step::AccFromVelocityChange => (Expr::Sym(Sym::A), Expr::Div(Box::new(Expr::Sub(Box::new(Expr::Printed(Atom::FinalVelocity)), Box::new(Expr::Printed(Atom::InitialVelocity)))), Box::new(Expr::Printed(Atom::Time)))),
        Step::DxFromVelocitySquares => (Expr::Sym(Sym::Dx), Expr::Div(Box::new(Expr::Sub(Box::new(Expr::Mul(Box::new(Expr::Printed(Atom::FinalVelocity)), Box::new(Expr::Printed(Atom::FinalVelocity)))), Box::new(Expr::Mul(Box::new(Expr::Printed(Atom::InitialVelocity)), Box::new(Expr::Printed(Atom::InitialVelocity)))))), Box::new(Expr::Mul(Box::new(Expr::Konst(Konst::Two)), Box::new(Expr::Printed(Atom::Acceleration)))))),
        Step::TimeFromVelocityChange => (Expr::Sym(Sym::T), Expr::Div(Box::new(Expr::Sub(Box::new(Expr::Printed(Atom::FinalVelocity)), Box::new(Expr::Printed(Atom::InitialVelocity)))), Box::new(Expr::Printed(Atom::Acceleration)))),
        Step::ViFromDisplacement => (Expr::Sym(Sym::V0), Expr::Div(Box::new(Expr::Sub(Box::new(Expr::Mul(Box::new(Expr::Mul(Box::new(Expr::Mul(Box::new(Expr::Konst(Konst::Half)), Box::new(Expr::Printed(Atom::Acceleration)))), Box::new(Expr::Printed(Atom::Time)))), Box::new(Expr::Printed(Atom::Time)))), Box::new(Expr::Printed(Atom::Displacement)))), Box::new(Expr::Printed(Atom::Time)))),
        _ => no_formula(),
    }
}

/// The quadratic in t, `0=...`, of a step that solves by the quadratic formula.
pub open spec fn quadratic(s: Step) -> (Expr, Expr) {
    match s {
        Step::TimeQuadraticFinal => (Expr::Konst(Konst::Zero), Expr::Add(Box::new(Expr::Sub(Box::new(Expr::Juxt(Box::new(Expr::Printed(Atom::HalfAcceleration)), Box::new(Expr::Square(Box::new(Expr::Sym(Sym::T)))))), Box::new(Expr::Juxt(Box::new(Expr::Printed(Atom::FinalVelocity)), Box::new(Expr::Sym(Sym::T)))))), Box::new(Expr::Printed(Atom::Displacement)))),
        Step::TimeQuadraticInitial => (Expr::Konst(Konst::Zero), Expr::Sub(Box::new(Expr::Add(Box::new(Expr::Juxt(Box::new(Expr::Printed(Atom::HalfAcceleration)), Box::new(Expr::Square(Box::new(Expr::Sym(Sym::T)))))), Box::new(Expr::Juxt(Box::new(Expr::Printed(Atom::InitialVelocity)), Box::new(Expr::Sym(Sym::T)))))), Box::new(Expr::Printed(Atom::Displacement)))),
        _ => no_formula(),
    }
}

/// What the quadratic formula takes the square root of.
pub open spec fn radicand(s: Step) -> Expr {
    match s {
        Step::TimeQuadraticFinal => Expr::Sub(Box::new(Expr::Mul(Box::new(Expr::Printed(Atom::FinalVelocity)), Box::new(Expr::Printed(Atom::FinalVelocity)))), Box::new(Expr::Mul(Box::new(Expr::Mul(Box::new(Expr::Konst(Konst::Four)), Box::new(Expr::Printed(Atom::HalfAcceleration)))), Box::new(Expr::Printed(Atom::Displacement))))),
        Step::TimeQuadraticInitial => Expr::Add(Box::new(Expr::Mul(Box::new(Expr::Printed(Atom::InitialVelocity)), Box::new(Expr::Printed(Atom::InitialVelocity)))), Box::new(Expr::Mul(Box::new(Expr::Mul(Box::new(Expr::Konst(Konst::Four)), Box::new(Expr::Printed(Atom::HalfAcceleration)))), Box::new(Expr::Printed(Atom::Displacement))))),
        _ => Expr::Konst(Konst::Zero),
    }
}

/// The quadratic formula `t=(...+-√(...))/(...)`.
pub open spec fn root_formula(s: Step) -> (Expr, Expr) {
    match s {
        Step::TimeQuadraticFinal => (Expr::Sym(Sym::T), Expr::Div(Box::new(Expr::PlusMinus(Box::new(Expr::Printed(Atom::FinalVelocity)), Box::new(Expr::Sqrt(Box::new(radicand(s)))))), Box::new(Expr::Mul(Box::new(Expr::Konst(Konst::Two)), Box::new(Expr::Printed(Atom::HalfAcceleration)))))),
        Step::TimeQuadraticInitial => (Expr::Sym(Sym::T), Expr::Div(Box::new(Expr::PlusMinus(Box::new(Expr::Neg(Box::new(Expr::Printed(Atom::InitialVelocity)))), Box::new(Expr::Sqrt(Box::new(radicand(s)))))), Box::new(Expr::Mul(Box::new(Expr::Konst(Konst::Two)), Box::new(Expr::Printed(Atom::HalfAcceleration)))))),
        _ => no_formula(),
    }
}

/// One line of a step's worked solution.
pub enum WorkLine {
    Substitution,
    Solving,
    Formula(Expr, Expr),
    Answer,
}

/// The lines of a step: heading, substituted equation, solving heading,
/// rearrangement or quadratic and quadratic formula, answer.
pub open spec fn layout(s: Step) -> Seq<WorkLine> {
    match s {
        Step::AccFromFinalVelocity => seq![WorkLine::Substitution, WorkLine::Formula(substituted(s).0, substituted(s).1), WorkLine::Solving, WorkLine::Formula(solved_by(s).0, solved_by(s).1), WorkLine::Answer],
        Step::AccFromInitialVelocity => seq![WorkLine::Substitution, WorkLine::Formula(substituted(s).0, substituted(s).1), WorkLine::Solving, WorkLine::Formula(solved_by(s).0, solved_by(s).1), WorkLine::Answer],
        Step::AccFromVelocitySquares => seq![WorkLine::Substitution, WorkLine::Formula(substituted(s).0, substituted(s).1), WorkLine::Solving, WorkLine::Formula(solved_by(s).0, solved_by(s).1), WorkLine::Answer],
        Step::AccFromVelocityChange => seq![WorkLine::Substitution, WorkLine::Formula(substituted(s).0, substituted(s).1), WorkLine::Solving, WorkLine::Formula(solved_by(s).0, solved_by(s).1), WorkLine::Answer],
        Step::DxFromFinalVelocity => seq![WorkLine::Substitution, WorkLine::Formula(substituted(s).0, substituted(s).1), WorkLine::Answer],
        Step::DxFromInitialVelocity => seq![WorkLine::Substitution, WorkLine::Formula(substituted(s).0, substituted(s).1), WorkLine::Answer],
        Step::DxFromVelocitySquares => seq![WorkLine::Substitution, WorkLine::Formula(substituted(s).0, substituted(s).1), WorkLine::Solving, WorkLine::Formula(solved_by(s).0, solved_by(s).1), WorkLine::Answer],
        Step::TimeQuadraticFinal => seq![WorkLine::Substitution, WorkLine::Formula(substituted(s).0, substituted(s).1), WorkLine::Solving, WorkLine::Formula(quadratic(s).0, quadratic(s).1), WorkLine::Formula(root_formula(s).0, root_formula(s).1), WorkLine::Answer],
        Step::TimeQuadraticInitial => seq![WorkLine::Substitution, WorkLine::Formula(substituted(s).0, substituted(s).1), WorkLine::Solving, WorkLine::Formula(quadratic(s).0, quadratic(s).1), WorkLine::Formula(root_formula(s).0, root_formula(s).1), WorkLine::Answer],
        Step::TimeFromVelocityChange => seq![WorkLine::Substitution, WorkLine::Formula(substituted(s).0, substituted(s).1), WorkLine::Solving, WorkLine::Formula(solved_by(s).0, solved_by(s).1), WorkLine::Answer],
        Step::ViFromDisplacement => seq![WorkLine::Substitution, WorkLine::Formula(substituted(s).0, substituted(s).1), WorkLine::Solving, WorkLine::Formula(solved_by(s).0, solved_by(s).1), WorkLine::Answer],
        Step::VfFromVelocityChange { .. } => seq![
            WorkLine::Substitution,
            WorkLine::Formula(substituted(s).0, substituted(s).1),
            WorkLine::Answer,
        ],
        Step::ViFromVelocityChange { .. } => seq![WorkLine::Answer],
    }
}

/// The text of a line of the layout.
pub open spec fn layout_text(s: Step, l: WorkLine, p: Printed) -> Seq<char> {
    match l {
        WorkLine::Substitution => spec_substitution_line(s).unwrap(),
        WorkLine::Solving => spec_solving_line(s).unwrap(),
        WorkLine::Formula(lhs, rhs) => render_eq(lhs, rhs, p),
        WorkLine::Answer => answer_label(s) + p.answer@ + if shows_second(s) {
            ", "@ + p.second@
        } else {
            Seq::<char>::empty()
        },
    }
}

#[verifier::rlimit(60)]
proof fn lemma_layout_acc_from_final_velocity(p: Printed)
    ensures
        spec_step_lines(Step::AccFromFinalVelocity, p).len() == layout(Step::AccFromFinalVelocity).len(),
        forall|j: int|
            0 <= j < layout(Step::AccFromFinalVelocity).len() ==> #[trigger] spec_step_lines(Step::AccFromFinalVelocity, p)[j] == layout_text(Step::AccFromFinalVelocity, layout(Step::AccFromFinalVelocity)[j], p),
{
    lemma_answer_line(Step::AccFromFinalVelocity, p);
    render_line_0_1(p);
    text_line_0_1(p);
    render_line_1_3(p);
    text_line_1_3(p);
}

#[verifier::rlimit(60)]
proof fn lemma_layout_acc_from_initial_velocity(p: Printed)
    ensures
        spec_step_lines(Step::AccFromInitialVelocity, p).len() == layout(Step::AccFromInitialVelocity).len(),
        forall|j: int|
            0 <= j < layout(Step::AccFromInitialVelocity).len() ==> #[trigger] spec_step_lines(Step::AccFromInitialVelocity, p)[j] == layout_text(Step::AccFromInitialVelocity, layout(Step::AccFromInitialVelocity)[j], p),
{
    lemma_answer_line(Step::AccFromInitialVelocity, p);
    render_line_2_1(p);
    text_line_2_1(p);
    render_line_3_3(p);
    text_line_3_3(p);
}

#[verifier::rlimit(60)]
proof fn lemma_layout_acc_from_velocity_squares(p: Printed)
    ensures
        spec_step_lines(Step::AccFromVelocitySquares, p).len() == layout(Step::AccFromVelocitySquares).len(),
        forall|j: int|
            0 <= j < layout(Step::AccFromVelocitySquares).len() ==> #[trigger] spec_step_lines(Step::AccFromVelocitySquares, p)[j] == layout_text(Step::AccFromVelocitySquares, layout(Step::AccFromVelocitySquares)[j], p),
{
    lemma_answer_line(Step::AccFromVelocitySquares, p);
    render_line_4_1(p);
    text_line_4_1(p);
    render_line_5_3(p);
    text_line_5_3(p);
}

#[verifier::rlimit(60)]
proof fn lemma_layout_acc_from_velocity_change(p: Printed)
    ensures
        spec_step_lines(Step::AccFromVelocityChange, p).len() == layout(Step::AccFromVelocityChange).len(),
        forall|j: int|
            0 <= j < layout(Step::AccFromVelocityChange).len() ==> #[trigger] spec_step_lines(Step::AccFromVelocityChange, p)[j] == layout_text(Step::AccFromVelocityChange, layout(Step::AccFromVelocityChange)[j], p),
{
    lemma_answer_line(Step::AccFromVelocityChange, p);
    render_line_6_1(p);
    text_line_6_1(p);
    render_line_7_3(p);
    text_line_7_3(p);
}

#[verifier::rlimit(60)]
proof fn lemma_layout_dx_from_final_velocity(p: Printed)
    ensures
        spec_step_lines(Step::DxFromFinalVelocity, p).len() == layout(Step::DxFromFinalVelocity).len(),
        forall|j: int|
            0 <= j < layout(Step::DxFromFinalVelocity).len() ==> #[trigger] spec_step_lines(Step::DxFromFinalVelocity, p)[j] == layout_text(Step::DxFromFinalVelocity, layout(Step::DxFromFinalVelocity)[j], p),
{
    lemma_answer_line(Step::DxFromFinalVelocity, p);
    render_line_8_1(p);
    text_line_8_1(p);
}

#[verifier::rlimit(60)]
proof fn lemma_layout_dx_from_initial_velocity(p: Printed)
    ensures
        spec_step_lines(Step::DxFromInitialVelocity, p).len() == layout(Step::DxFromInitialVelocity).len(),
        forall|j: int|
            0 <= j < layout(Step::DxFromInitialVelocity).len() ==> #[trigger] spec_step_lines(Step::DxFromInitialVelocity, p)[j] == layout_text(Step::DxFromInitialVelocity, layout(Step::DxFromInitialVelocity)[j], p),
{
    lemma_answer_line(Step::DxFromInitialVelocity, p);
    render_line_9_1(p);
    text_line_9_1(p);
}

#[verifier::rlimit(60)]
proof fn lemma_layout_dx_from_velocity_squares(p: Printed)
    ensures
        spec_step_lines(Step::DxFromVelocitySquares, p).len() == layout(Step::DxFromVelocitySquares).len(),
        forall|j: int|
            0 <= j < layout(Step::DxFromVelocitySquares).len() ==> #[trigger] spec_step_lines(Step::DxFromVelocitySquares, p)[j] == layout_text(Step::DxFromVelocitySquares, layout(Step::DxFromVelocitySquares)[j], p),
{
    lemma_answer_line(Step::DxFromVelocitySquares, p);
    render_line_10_1(p);
    text_line_10_1(p);
    render_line_11_3(p);
    text_line_11_3(p);
}

#[verifier::rlimit(60)]
proof fn lemma_layout_time_quadratic_final(p: Printed)
    ensures
        spec_step_lines(Step::TimeQuadraticFinal, p).len() == layout(Step::TimeQuadraticFinal).len(),
        forall|j: int|
            0 <= j < layout(Step::TimeQuadraticFinal).len() ==> #[trigger] spec_step_lines(Step::TimeQuadraticFinal, p)[j] == layout_text(Step::TimeQuadraticFinal, layout(Step::TimeQuadraticFinal)[j], p),
{
    lemma_answer_line(Step::TimeQuadraticFinal, p);
    render_line_12_1(p);
    text_line_12_1(p);
    render_line_13_3(p);
    text_line_13_3(p);
    render_line_14_4(p);
    text_line_14_4(p);
}

#[verifier::rlimit(60)]
proof fn lemma_layout_time_quadratic_initial(p: Printed)
    ensures
        spec_step_lines(Step::TimeQuadraticInitial, p).len() == layout(Step::TimeQuadraticInitial).len(),
        forall|j: int|
            0 <= j < layout(Step::TimeQuadraticInitial).len() ==> #[trigger] spec_step_lines(Step::TimeQuadraticInitial, p)[j] == layout_text(Step::TimeQuadraticInitial, layout(Step::TimeQuadraticInitial)[j], p),
{
    lemma_answer_line(Step::TimeQuadraticInitial, p);
    render_line_15_1(p);
    text_line_15_1(p);
    render_line_16_3(p);
    text_line_16_3(p);
    render_line_17_4(p);
    text_line_17_4(p);
}

#[verifier::rlimit(60)]
proof fn lemma_layout_time_from_velocity_change(p: Printed)
    ensures
        spec_step_lines(Step::TimeFromVelocityChange, p).len() == layout(Step::TimeFromVelocityChange).len(),
        forall|j: int|
            0 <= j < layout(Step::TimeFromVelocityChange).len() ==> #[trigger] spec_step_lines(Step::TimeFromVelocityChange, p)[j] == layout_text(Step::TimeFromVelocityChange, layout(Step::TimeFromVelocityChange)[j], p),
{
    lemma_answer_line(Step::TimeFromVelocityChange, p);
    render_line_18_1(p);
    text_line_18_1(p);
    render_line_19_3(p);
    text_line_19_3(p);
}

#[verifier::rlimit(60)]
proof fn lemma_layout_vi_from_displacement(p: Printed)
    ensures
        spec_step_lines(Step::ViFromDisplacement, p).len() == layout(Step::ViFromDisplacement).len(),
        forall|j: int|
            0 <= j < layout(Step::ViFromDisplacement).len() ==> #[trigger] spec_step_lines(Step::ViFromDisplacement, p)[j] == layout_text(Step::ViFromDisplacement, layout(Step::ViFromDisplacement)[j], p),
{
    lemma_answer_line(Step::ViFromDisplacement, p);
    render_line_20_1(p);
    text_line_20_1(p);
    render_line_21_3(p);
    text_line_21_3(p);
}

#[verifier::rlimit(60)]
proof fn lemma_layout_vf_from_velocity_change(sr: bool, p: Printed)
    ensures
        spec_step_lines(Step::VfFromVelocityChange { second_root: sr }, p).len() == layout(Step::VfFromVelocityChange { second_root: sr }).len(),
        forall|j: int|
            0 <= j < layout(Step::VfFromVelocityChange { second_root: sr }).len() ==> #[trigger] spec_step_lines(Step::VfFromVelocityChange { second_root: sr }, p)[j] == layout_text(Step::VfFromVelocityChange { second_root: sr }, layout(Step::VfFromVelocityChange { second_root: sr })[j], p),
{
    lemma_answer_line(Step::VfFromVelocityChange { second_root: sr }, p);
    render_line_22_1(sr, p);
    text_line_22_1(sr, p);
}

#[verifier::rlimit(100)]
proof fn render_line_0_1(p: Printed)
    ensures
        render_eq(layout(Step::AccFromFinalVelocity)[1]->Formula_0, layout(Step::AccFromFinalVelocity)[1]->Formula_1, p) == p.dx@ + "="@ + ((p.vf@ + "*"@ + p.time@) + "-"@ + ((("0.5"@ + "*"@ + "a"@) + "*"@ + p.time@) + "*"@ + p.time@)),
{
    reveal_with_fuel(render, 8);
}

#[verifier::rlimit(40)]
proof fn text_line_0_1(p: Printed)
    ensures
        spec_step_lines(Step::AccFromFinalVelocity, p)[1] == p.dx@ + "="@ + ((p.vf@ + "*"@ + p.time@) + "-"@ + ((("0.5"@ + "*"@ + "a"@) + "*"@ + p.time@) + "*"@ + p.time@)),
{
    reveal_strlit("(");
    reveal_strlit(")");
    reveal_strlit("*");
    reveal_strlit("-");
    reveal_strlit("-0.5*a*");
    reveal_strlit("0.5");
    reveal_strlit("=");
    reveal_strlit("a");
    assert(spec_step_lines(Step::AccFromFinalVelocity, p)[1] =~= p.dx@ + "="@ + ((p.vf@ + "*"@ + p.time@) + "-"@ + ((("0.5"@ + "*"@ + "a"@) + "*"@ + p.time@) + "*"@ + p.time@)));
}

#[verifier::rlimit(100)]
proof fn render_line_1_3(p: Printed)
    ensures
        render_eq(layout(Step::AccFromFinalVelocity)[3]->Formula_0, layout(Step::AccFromFinalVelocity)[3]->Formula_1, p) == "a"@ + "="@ + (("("@ + (p.dx@ + "-"@ + (p.vf@ + "*"@ + p.time@)) + ")"@) + "/"@ + ("("@ + (("-0.5"@ + "*"@ + p.time@) + "*"@ + p.time@) + ")"@)),
{
    reveal_with_fuel(render, 8);
}

#[verifier::rlimit(40)]
proof fn text_line_1_3(p: Printed)
    ensures
        spec_step_lines(Step::AccFromFinalVelocity, p)[3] == "a"@ + "="@ + (("("@ + (p.dx@ + "-"@ + (p.vf@ + "*"@ + p.time@)) + ")"@) + "/"@ + ("("@ + (("-0.5"@ + "*"@ + p.time@) + "*"@ + p.time@) + ")"@)),
{
    reveal_strlit("(");
    reveal_strlit(")");
    reveal_strlit(")/(-0.5*");
    reveal_strlit("*");
    reveal_strlit("-");
    reveal_strlit("-0.5");
    reveal_strlit("/");
    reveal_strlit("=");
    reveal_strlit("a");
    reveal_strlit("a=(");
    assert(spec_step_lines(Step::AccFromFinalVelocity, p)[3] =~= "a"@ + "="@ + (("("@ + (p.dx@ + "-"@ + (p.vf@ + "*"@ + p.time@)) + ")"@) + "/"@ + ("("@ + (("-0.5"@ + "*"@ + p.time@) + "*"@ + p.time@) + ")"@)));
}

#[verifier::rlimit(100)]
proof fn render_line_2_1(p: Printed)
    ensures
        render_eq(layout(Step::AccFromInitialVelocity)[1]->Formula_0, layout(Step::AccFromInitialVelocity)[1]->Formula_1, p) == p.dx@ + "="@ + ((p.vi@ + "*"@ + p.time@) + "+"@ + ((("0.5"@ + "*"@ + "a"@) + "*"@ + p.time@) + "*"@ + p.time@)),
{
    reveal_with_fuel(render, 8);
}

#[verifier::rlimit(40)]
proof fn text_line_2_1(p: Printed)
    ensures
        spec_step_lines(Step::AccFromInitialVelocity, p)[1] == p.dx@ + "="@ + ((p.vi@ + "*"@ + p.time@) + "+"@ + ((("0.5"@ + "*"@ + "a"@) + "*"@ + p.time@) + "*"@ + p.time@)),
{
    reveal_strlit("(");
    reveal_strlit(")");
    reveal_strlit("*");
    reveal_strlit("+");
    reveal_strlit("+0.5*a*");
    reveal_strlit("0.5");
    reveal_strlit("=");
    reveal_strlit("a");
    assert(spec_step_lines(Step::AccFromInitialVelocity, p)[1] =~= p.dx@ + "="@ + ((p.vi@ + "*"@ + p.time@) + "+"@ + ((("0.5"@ + "*"@ + "a"@) + "*"@ + p.time@) + "*"@ + p.time@)));
}

#[verifier::rlimit(100)]
proof fn render_line_3_3(p: Printed)
    ensures
        render_eq(layout(Step::AccFromInitialVelocity)[3]->Formula_0, layout(Step::AccFromInitialVelocity)[3]->Formula_1, p) == "a"@ + "="@ + (("("@ + (p.dx@ + "-"@ + (p.vi@ + "*"@ + p.time@)) + ")"@) + "/"@ + ("("@ + (("0.5"@ + "*"@ + p.time@) + "*"@ + p.time@) + ")"@)),
{
    reveal_with_fuel(render, 8);
}

#[verifier::rlimit(40)]
proof fn text_line_3_3(p: Printed)
    ensures
        spec_step_lines(Step::AccFromInitialVelocity, p)[3] == "a"@ + "="@ + (("("@ + (p.dx@ + "-"@ + (p.vi@ + "*"@ + p.time@)) + ")"@) + "/"@ + ("("@ + (("0.5"@ + "*"@ + p.time@) + "*"@ + p.time@) + ")"@)),
{
    reveal_strlit("(");
    reveal_strlit(")");
    reveal_strlit(")/(0.5*");
    reveal_strlit("*");
    reveal_strlit("-");
    reveal_strlit("/");
    reveal_strlit("0.5");
    reveal_strlit("=");
    reveal_strlit("a");
    reveal_strlit("a=(");
    assert(spec_step_lines(Step::AccFromInitialVelocity, p)[3] =~= "a"@ + "="@ + (("("@ + (p.dx@ + "-"@ + (p.vi@ + "*"@ + p.time@)) + ")"@) + "/"@ + ("("@ + (("0.5"@ + "*"@ + p.time@) + "*"@ + p.time@) + ")"@)));
}

#[verifier::rlimit(100)]
proof fn render_line_4_1(p: Printed)
    ensures
        render_eq(layout(Step::AccFromVelocitySquares)[1]->Formula_0, layout(Step::AccFromVelocitySquares)[1]->Formula_1, p) == (p.vf@ + "*"@ + p.vf@) + "="@ + ((p.vi@ + "*"@ + p.vi@) + "+"@ + (("2"@ + "*"@ + "a"@) + "*"@ + p.dx@)),
{
    reveal_with_fuel(render, 8);
}

#[verifier::rlimit(40)]
proof fn text_line_4_1(p: Printed)
    ensures
        spec_step_lines(Step::AccFromVelocitySquares, p)[1] == (p.vf@ + "*"@ + p.vf@) + "="@ + ((p.vi@ + "*"@ + p.vi@) + "+"@ + (("2"@ + "*"@ + "a"@) + "*"@ + p.dx@)),
{
    reveal_strlit("(");
    reveal_strlit(")");
    reveal_strlit("*");
    reveal_strlit("+");
    reveal_strlit("+2*a*");
    reveal_strlit("2");
    reveal_strlit("=");
    reveal_strlit("a");
    assert(spec_step_lines(Step::AccFromVelocitySquares, p)[1] =~= (p.vf@ + "*"@ + p.vf@) + "="@ + ((p.vi@ + "*"@ + p.vi@) + "+"@ + (("2"@ + "*"@ + "a"@) + "*"@ + p.dx@)));
}

#[verifier::rlimit(100)]
proof fn render_line_5_3(p: Printed)
    ensures
        render_eq(layout(Step::AccFromVelocitySquares)[3]->Formula_0, layout(Step::AccFromVelocitySquares)[3]->Formula_1, p) == "a"@ + "="@ + (("("@ + ((p.vf@ + "*"@ + p.vf@) + "-"@ + (p.vi@ + "*"@ + p.vi@)) + ")"@) + "/"@ + ("("@ + ("2"@ + "*"@ + p.dx@) + ")"@)),
{
    reveal_with_fuel(render, 8);
}

#[verifier::rlimit(40)]
proof fn text_line_5_3(p: Printed)
    ensures
        spec_step_lines(Step::AccFromVelocitySquares, p)[3] == "a"@ + "="@ + (("("@ + ((p.vf@ + "*"@ + p.vf@) + "-"@ + (p.vi@ + "*"@ + p.vi@)) + ")"@) + "/"@ + ("("@ + ("2"@ + "*"@ + p.dx@) + ")"@)),
{
    reveal_strlit("(");
    reveal_strlit(")");
    reveal_strlit(")/(2*");
    reveal_strlit("*");
    reveal_strlit("-");
    reveal_strlit("/");
    reveal_strlit("2");
    reveal_strlit("=");
    reveal_strlit("a");
    reveal_strlit("a=(");
    assert(spec_step_lines(Step::AccFromVelocitySquares, p)[3] =~= "a"@ + "="@ + (("("@ + ((p.vf@ + "*"@ + p.vf@) + "-"@ + (p.vi@ + "*"@ + p.vi@)) + ")"@) + "/"@ + ("("@ + ("2"@ + "*"@ + p.dx@) + ")"@)));
}

#[verifier::rlimit(100)]
proof fn render_line_6_1(p: Printed)
    ensures
        render_eq(layout(Step::AccFromVelocityChange)[1]->Formula_0, layout(Step::AccFromVelocityChange)[1]->Formula_1, p) == p.vf@ + "="@ + (p.vi@ + "+"@ + ("a"@ + "*"@ + p.time@)),
{
    reveal_with_fuel(render, 8);
}

#[verifier::rlimit(40)]
proof fn text_line_6_1(p: Printed)
    ensures
        spec_step_lines(Step::AccFromVelocityChange, p)[1] == p.vf@ + "="@ + (p.vi@ + "+"@ + ("a"@ + "*"@ + p.time@)),
{
    reveal_strlit("(");
    reveal_strlit(")");
    reveal_strlit("*");
    reveal_strlit("+");
    reveal_strlit("+a*");
    reveal_strlit("=");
    reveal_strlit("a");
    assert(spec_step_lines(Step::AccFromVelocityChange, p)[1] =~= p.vf@ + "="@ + (p.vi@ + "+"@ + ("a"@ + "*"@ + p.time@)));
}

#[verifier::rlimit(100)]
proof fn render_line_7_3(p: Printed)
    ensures
        render_eq(layout(Step::AccFromVelocityChange)[3]->Formula_0, layout(Step::AccFromVelocityChange)[3]->Formula_1, p) == "a"@ + "="@ + (("("@ + (p.vf@ + "-"@ + p.vi@) + ")"@) + "/"@ + p.time@),
{
    reveal_with_fuel(render, 8);
}

#[verifier::rlimit(40)]
proof fn text_line_7_3(p: Printed)
    ensures
        spec_step_lines(Step::AccFromVelocityChange, p)[3] == "a"@ + "="@ + (("("@ + (p.vf@ + "-"@ + p.vi@) + ")"@) + "/"@ + p.time@),
{
    reveal_strlit("(");
    reveal_strlit(")");
    reveal_strlit(")/");
    reveal_strlit("-");
    reveal_strlit("/");
    reveal_strlit("=");
    reveal_strlit("a");
    reveal_strlit("a=(");
    assert(spec_step_lines(Step::AccFromVelocityChange, p)[3] =~= "a"@ + "="@ + (("("@ + (p.vf@ + "-"@ + p.vi@) + ")"@) + "/"@ + p.time@));
}

#[verifier::rlimit(100)]
proof fn render_line_8_1(p: Printed)
    ensures
        render_eq(layout(Step::DxFromFinalVelocity)[1]->Formula_0, layout(Step::DxFromFinalVelocity)[1]->Formula_1, p) == "Δx"@ + "="@ + ((p.vf@ + "*"@ + p.time@) + "-"@ + ((("0.5"@ + "*"@ + p.acc@) + "*"@ + p.time@) + "*"@ + p.time@)),
{
    reveal_with_fuel(render, 8);
}

#[verifier::rlimit(40)]
proof fn text_line_8_1(p: Printed)
    ensures
        spec_step_lines(Step::DxFromFinalVelocity, p)[1] == "Δx"@ + "="@ + ((p.vf@ + "*"@ + p.time@) + "-"@ + ((("0.5"@ + "*"@ + p.acc@) + "*"@ + p.time@) + "*"@ + p.time@)),
{
    reveal_strlit("(");
    reveal_strlit(")");
    reveal_strlit("*");
    reveal_strlit("-");
    reveal_strlit("-0.5*");
    reveal_strlit("0.5");
    reveal_strlit("=");
    reveal_strlit("Δx");
    reveal_strlit("Δx=");
    assert(spec_step_lines(Step::DxFromFinalVelocity, p)[1] =~= "Δx"@ + "="@ + ((p.vf@ + "*"@ + p.time@) + "-"@ + ((("0.5"@ + "*"@ + p.acc@) + "*"@ + p.time@) + "*"@ + p.time@)));
}

#[verifier::rlimit(100)]
proof fn render_line_9_1(p: Printed)
    ensures
        render_eq(layout(Step::DxFromInitialVelocity)[1]->Formula_0, layout(Step::DxFromInitialVelocity)[1]->Formula_1, p) == "Δx"@ + "="@ + ((p.vf@ + "*"@ + p.time@) + "+"@ + ((("0.5"@ + "*"@ + p.acc@) + "*"@ + p.time@) + "*"@ + p.time@)),
{
    reveal_with_fuel(render, 8);
}

#[verifier::rlimit(40)]
proof fn text_line_9_1(p: Printed)
    ensures
        spec_step_lines(Step::DxFromInitialVelocity, p)[1] == "Δx"@ + "="@ + ((p.vf@ + "*"@ + p.time@) + "+"@ + ((("0.5"@ + "*"@ + p.acc@) + "*"@ + p.time@) + "*"@ + p.time@)),
{
    reveal_strlit("(");
    reveal_strlit(")");
    reveal_strlit("*");
    reveal_strlit("+");
    reveal_strlit("+0.5*");
    reveal_strlit("0.5");
    reveal_strlit("=");
    reveal_strlit("Δx");
    reveal_strlit("Δx=");
    assert(spec_step_lines(Step::DxFromInitialVelocity, p)[1] =~= "Δx"@ + "="@ + ((p.vf@ + "*"@ + p.time@) + "+"@ + ((("0.5"@ + "*"@ + p.acc@) + "*"@ + p.time@) + "*"@ + p.time@)));
}

#[verifier::rlimit(100)]
proof fn render_line_10_1(p: Printed)
    ensures
        render_eq(layout(Step::DxFromVelocitySquares)[1]->Formula_0, layout(Step::DxFromVelocitySquares)[1]->Formula_1, p) == (p.vf@ + "*"@ + p.vf@) + "="@ + ((p.vi@ + "*"@ + p.vi@) + "+"@ + (("2"@ + "*"@ + p.acc@) + "*"@ + "Δd"@)),
{
    reveal_with_fuel(render, 8);
}

#[verifier::rlimit(40)]
proof fn text_line_10_1(p: Printed)
    ensures
        spec_step_lines(Step::DxFromVelocitySquares, p)[1] == (p.vf@ + "*"@ + p.vf@) + "="@ + ((p.vi@ + "*"@ + p.vi@) + "+"@ + (("2"@ + "*"@ + p.acc@) + "*"@ + "Δd"@)),
{
    reveal_strlit("(");
    reveal_strlit(")");
    reveal_strlit("*");
    reveal_strlit("*Δd");
    reveal_strlit("+");
    reveal_strlit("+2*");
    reveal_strlit("2");
    reveal_strlit("=");
    reveal_strlit("Δd");
    assert(spec_step_lines(Step::DxFromVelocitySquares, p)[1] =~= (p.vf@ + "*"@ + p.vf@) + "="@ + ((p.vi@ + "*"@ + p.vi@) + "+"@ + (("2"@ + "*"@ + p.acc@) + "*"@ + "Δd"@)));
}

#[verifier::rlimit(100)]
proof fn render_line_11_3(p: Printed)
    ensures
        render_eq(layout(Step::DxFromVelocitySquares)[3]->Formula_0, layout(Step::DxFromVelocitySquares)[3]->Formula_1, p) == "Δx"@ + "="@ + (("("@ + ((p.vf@ + "*"@ + p.vf@) + "-"@ + (p.vi@ + "*"@ + p.vi@)) + ")"@) + "/"@ + ("("@ + ("2"@ + "*"@ + p.acc@) + ")"@)),
{
    reveal_with_fuel(render, 8);
}

#[verifier::rlimit(40)]
proof fn text_line_11_3(p: Printed)
    ensures
        spec_step_lines(Step::DxFromVelocitySquares, p)[3] == "Δx"@ + "="@ + (("("@ + ((p.vf@ + "*"@ + p.vf@) + "-"@ + (p.vi@ + "*"@ + p.vi@)) + ")"@) + "/"@ + ("("@ + ("2"@ + "*"@ + p.acc@) + ")"@)),
{
    reveal_strlit("(");
    reveal_strlit(")");
    reveal_strlit(")/(2*");
    reveal_strlit("*");
    reveal_strlit("-");
    reveal_strlit("/");
    reveal_strlit("2");
    reveal_strlit("=");
    reveal_strlit("Δx");
    reveal_strlit("Δx=(");
    assert(spec_step_lines(Step::DxFromVelocitySquares, p)[3] =~= "Δx"@ + "="@ + (("("@ + ((p.vf@ + "*"@ + p.vf@) + "-"@ + (p.vi@ + "*"@ + p.vi@)) + ")"@) + "/"@ + ("("@ + ("2"@ + "*"@ + p.acc@) + ")"@)));
}

#[verifier::rlimit(100)]
proof fn render_line_12_1(p: Printed)
    ensures
        render_eq(layout(Step::TimeQuadraticFinal)[1]->Formula_0, layout(Step::TimeQuadraticFinal)[1]->Formula_1, p) == p.dx@ + "="@ + ((p.vf@ + "*"@ + "t"@) + "-"@ + ((("0.5"@ + "*"@ + p.acc@) + "*"@ + "t"@) + "*"@ + "t"@)),
{
    reveal_with_fuel(render, 8);
}

#[verifier::rlimit(40)]
proof fn text_line_12_1(p: Printed)
    ensures
        spec_step_lines(Step::TimeQuadraticFinal, p)[1] == p.dx@ + "="@ + ((p.vf@ + "*"@ + "t"@) + "-"@ + ((("0.5"@ + "*"@ + p.acc@) + "*"@ + "t"@) + "*"@ + "t"@)),
{
    reveal_strlit("(");
    reveal_strlit(")");
    reveal_strlit("*");
    reveal_strlit("*t*t");
    reveal_strlit("*t-0.5*");
    reveal_strlit("-");
    reveal_strlit("0.5");
    reveal_strlit("=");
    reveal_strlit("t");
    assert(spec_step_lines(Step::TimeQuadraticFinal, p)[1] =~= p.dx@ + "="@ + ((p.vf@ + "*"@ + "t"@) + "-"@ + ((("0.5"@ + "*"@ + p.acc@) + "*"@ + "t"@) + "*"@ + "t"@)));
}

#[verifier::rlimit(100)]
proof fn render_line_13_3(p: Printed)
    ensures
        render_eq(layout(Step::TimeQuadraticFinal)[3]->Formula_0, layout(Step::TimeQuadraticFinal)[3]->Formula_1, p) == "0"@ + "="@ + (((p.half_acc@ + ("t"@ + "²"@)) + "-"@ + (p.vf@ + "t"@)) + "+"@ + p.dx@),
{
    reveal_with_fuel(render, 8);
}

#[verifier::rlimit(40)]
proof fn text_line_13_3(p: Printed)
    ensures
        spec_step_lines(Step::TimeQuadraticFinal, p)[3] == "0"@ + "="@ + (((p.half_acc@ + ("t"@ + "²"@)) + "-"@ + (p.vf@ + "t"@)) + "+"@ + p.dx@),
{
    reveal_strlit("(");
    reveal_strlit(")");
    reveal_strlit("+");
    reveal_strlit("-");
    reveal_strlit("0");
    reveal_strlit("0=");
    reveal_strlit("=");
    reveal_strlit("t");
    reveal_strlit("t+");
    reveal_strlit("t²-");
    reveal_strlit("²");
    assert(spec_step_lines(Step::TimeQuadraticFinal, p)[3] =~= "0"@ + "="@ + (((p.half_acc@ + ("t"@ + "²"@)) + "-"@ + (p.vf@ + "t"@)) + "+"@ + p.dx@));
}

#[verifier::rlimit(100)]
proof fn render_line_14_4(p: Printed)
    ensures
        render_eq(layout(Step::TimeQuadraticFinal)[4]->Formula_0, layout(Step::TimeQuadraticFinal)[4]->Formula_1, p) == "t"@ + "="@ + (("("@ + (p.vf@ + "+-"@ + ("√("@ + ((p.vf@ + "*"@ + p.vf@) + "-"@ + (("4"@ + "*"@ + p.half_acc@) + "*"@ + p.dx@)) + ")"@)) + ")"@) + "/"@ + ("("@ + ("2"@ + "*"@ + p.half_acc@) + ")"@)),
{
    reveal_with_fuel(render, 8);
}

#[verifier::rlimit(40)]
proof fn text_line_14_4(p: Printed)
    ensures
        spec_step_lines(Step::TimeQuadraticFinal, p)[4] == "t"@ + "="@ + (("("@ + (p.vf@ + "+-"@ + ("√("@ + ((p.vf@ + "*"@ + p.vf@) + "-"@ + (("4"@ + "*"@ + p.half_acc@) + "*"@ + p.dx@)) + ")"@)) + ")"@) + "/"@ + ("("@ + ("2"@ + "*"@ + p.half_acc@) + ")"@)),
{
    reveal_strlit("(");
    reveal_strlit(")");
    reveal_strlit("))/(2*");
    reveal_strlit("*");
    reveal_strlit("+-");
    reveal_strlit("+-√(");
    reveal_strlit("-");
    reveal_strlit("-4*");
    reveal_strlit("/");
    reveal_strlit("2");
    reveal_strlit("4");
    reveal_strlit("=");
    reveal_strlit("t");
    reveal_strlit("t=(");
    reveal_strlit("√(");
    assert(spec_step_lines(Step::TimeQuadraticFinal, p)[4] =~= "t"@ + "="@ + (("("@ + (p.vf@ + "+-"@ + ("√("@ + ((p.vf@ + "*"@ + p.vf@) + "-"@ + (("4"@ + "*"@ + p.half_acc@) + "*"@ + p.dx@)) + ")"@)) + ")"@) + "/"@ + ("("@ + ("2"@ + "*"@ + p.half_acc@) + ")"@)));
}

#[verifier::rlimit(100)]
proof fn render_line_15_1(p: Printed)
    ensures
        render_eq(layout(Step::TimeQuadraticInitial)[1]->Formula_0, layout(Step::TimeQuadraticInitial)[1]->Formula_1, p) == p.dx@ + "="@ + ((p.vi@ + "*"@ + "t"@) + "+"@ + ((("0.5"@ + "*"@ + p.acc@) + "*"@ + "t"@) + "*"@ + "t"@)),
{
    reveal_with_fuel(render, 8);
}

#[verifier::rlimit(40)]
proof fn text_line_15_1(p: Printed)
    ensures
        spec_step_lines(Step::TimeQuadraticInitial, p)[1] == p.dx@ + "="@ + ((p.vi@ + "*"@ + "t"@) + "+"@ + ((("0.5"@ + "*"@ + p.acc@) + "*"@ + "t"@) + "*"@ + "t"@)),
{
    reveal_strlit("(");
    reveal_strlit(")");
    reveal_strlit("*");
    reveal_strlit("*t*t");
    reveal_strlit("*t+0.5*");
    reveal_strlit("+");
    reveal_strlit("0.5");
    reveal_strlit("=");
    reveal_strlit("t");
    assert(spec_step_lines(Step::TimeQuadraticInitial, p)[1] =~= p.dx@ + "="@ + ((p.vi@ + "*"@ + "t"@) + "+"@ + ((("0.5"@ + "*"@ + p.acc@) + "*"@ + "t"@) + "*"@ + "t"@)));
}

#[verifier::rlimit(100)]
proof fn render_line_16_3(p: Printed)
    ensures
        render_eq(layout(Step::TimeQuadraticInitial)[3]->Formula_0, layout(Step::TimeQuadraticInitial)[3]->Formula_1, p) == "0"@ + "="@ + (((p.half_acc@ + ("t"@ + "²"@)) + "+"@ + (p.vi@ + "t"@)) + "-"@ + p.dx@),
{
    reveal_with_fuel(render, 8);
}

#[verifier::rlimit(40)]
proof fn text_line_16_3(p: Printed)
    ensures
        spec_step_lines(Step::TimeQuadraticInitial, p)[3] == "0"@ + "="@ + (((p.half_acc@ + ("t"@ + "²"@)) + "+"@ + (p.vi@ + "t"@)) + "-"@ + p.dx@),
{
    reveal_strlit("(");
    reveal_strlit(")");
    reveal_strlit("+");
    reveal_strlit("-");
    reveal_strlit("0");
    reveal_strlit("0=");
    reveal_strlit("=");
    reveal_strlit("t");
    reveal_strlit("t-");
    reveal_strlit("t²+");
    reveal_strlit("²");
    assert(spec_step_lines(Step::TimeQuadraticInitial, p)[3] =~= "0"@ + "="@ + (((p.half_acc@ + ("t"@ + "²"@)) + "+"@ + (p.vi@ + "t"@)) + "-"@ + p.dx@));
}

#[verifier::rlimit(100)]
proof fn render_line_17_4(p: Printed)
    ensures
        render_eq(layout(Step::TimeQuadraticInitial)[4]->Formula_0, layout(Step::TimeQuadraticInitial)[4]->Formula_1, p) == "t"@ + "="@ + (("("@ + (("-"@ + p.vi@) + "+-"@ + ("√("@ + ((p.vi@ + "*"@ + p.vi@) + "+"@ + (("4"@ + "*"@ + p.half_acc@) + "*"@ + p.dx@)) + ")"@)) + ")"@) + "/"@ + ("("@ + ("2"@ + "*"@ + p.half_acc@) + ")"@)),
{
    reveal_with_fuel(render, 8);
}

#[verifier::rlimit(40)]
proof fn text_line_17_4(p: Printed)
    ensures
        spec_step_lines(Step::TimeQuadraticInitial, p)[4] == "t"@ + "="@ + (("("@ + (("-"@ + p.vi@) + "+-"@ + ("√("@ + ((p.vi@ + "*"@ + p.vi@) + "+"@ + (("4"@ + "*"@ + p.half_acc@) + "*"@ + p.dx@)) + ")"@)) + ")"@) + "/"@ + ("("@ + ("2"@ + "*"@ + p.half_acc@) + ")"@)),
{
    reveal_strlit("(");
    reveal_strlit(")");
    reveal_strlit("))/(2*");
    reveal_strlit("*");
    reveal_strlit("+");
    reveal_strlit("+-");
    reveal_strlit("+-√(");
    reveal_strlit("+4*");
    reveal_strlit("-");
    reveal_strlit("/");
    reveal_strlit("2");
    reveal_strlit("4");
    reveal_strlit("=");
    reveal_strlit("t");
    reveal_strlit("t=(-");
    reveal_strlit("√(");
    assert(spec_step_lines(Step::TimeQuadraticInitial, p)[4] =~= "t"@ + "="@ + (("("@ + (("-"@ + p.vi@) + "+-"@ + ("√("@ + ((p.vi@ + "*"@ + p.vi@) + "+"@ + (("4"@ + "*"@ + p.half_acc@) + "*"@ + p.dx@)) + ")"@)) + ")"@) + "/"@ + ("("@ + ("2"@ + "*"@ + p.half_acc@) + ")"@)));
}

#[verifier::rlimit(100)]
proof fn render_line_18_1(p: Printed)
    ensures
        render_eq(layout(Step::TimeFromVelocityChange)[1]->Formula_0, layout(Step::TimeFromVelocityChange)[1]->Formula_1, p) == p.vf@ + "="@ + (p.vi@ + "+"@ + (p.acc@ + "*"@ + "t"@)),
{
    reveal_with_fuel(render, 8);
}

#[verifier::rlimit(40)]
proof fn text_line_18_1(p: Printed)
    ensures
        spec_step_lines(Step::TimeFromVelocityChange, p)[1] == p.vf@ + "="@ + (p.vi@ + "+"@ + (p.acc@ + "*"@ + "t"@)),
{
    reveal_strlit("(");
    reveal_strlit(")");
    reveal_strlit("*");
    reveal_strlit("*t");
    reveal_strlit("+");
    reveal_strlit("=");
    reveal_strlit("t");
    assert(spec_step_lines(Step::TimeFromVelocityChange, p)[1] =~= p.vf@ + "="@ + (p.vi@ + "+"@ + (p.acc@ + "*"@ + "t"@)));
}

#[verifier::rlimit(100)]
proof fn render_line_19_3(p: Printed)
    ensures
        render_eq(layout(Step::TimeFromVelocityChange)[3]->Formula_0, layout(Step::TimeFromVelocityChange)[3]->Formula_1, p) == "t"@ + "="@ + (("("@ + (p.vf@ + "-"@ + p.vi@) + ")"@) + "/"@ + p.acc@),
{
    reveal_with_fuel(render, 8);
}

#[verifier::rlimit(40)]
proof fn text_line_19_3(p: Printed)
    ensures
        spec_step_lines(Step::TimeFromVelocityChange, p)[3] == "t"@ + "="@ + (("("@ + (p.vf@ + "-"@ + p.vi@) + ")"@) + "/"@ + p.acc@),
{
    reveal_strlit("(");
    reveal_strlit(")");
    reveal_strlit(")/");
    reveal_strlit("-");
    reveal_strlit("/");
    reveal_strlit("=");
    reveal_strlit("t");
    reveal_strlit("t=(");
    assert(spec_step_lines(Step::TimeFromVelocityChange, p)[3] =~= "t"@ + "="@ + (("("@ + (p.vf@ + "-"@ + p.vi@) + ")"@) + "/"@ + p.acc@));
}

#[verifier::rlimit(100)]
proof fn render_line_20_1(p: Printed)
    ensures
        render_eq(layout(Step::ViFromDisplacement)[1]->Formula_0, layout(Step::ViFromDisplacement)[1]->Formula_1, p) == p.dx@ + "="@ + (("v₀"@ + "*"@ + p.time@) + "+"@ + ((("0.5"@ + "*"@ + p.acc@) + "*"@ + p.time@) + "*"@ + p.time@)),
{
    reveal_with_fuel(render, 8);
}

#[verifier::rlimit(40)]
proof fn text_line_20_1(p: Printed)
    ensures
        spec_step_lines(Step::ViFromDisplacement, p)[1] == p.dx@ + "="@ + (("v₀"@ + "*"@ + p.time@) + "+"@ + ((("0.5"@ + "*"@ + p.acc@) + "*"@ + p.time@) + "*"@ + p.time@)),
{
    reveal_strlit("(");
    reveal_strlit(")");
    reveal_strlit("*");
    reveal_strlit("+");
    reveal_strlit("+0.5*");
    reveal_strlit("0.5");
    reveal_strlit("=");
    reveal_strlit("=v₀*");
    reveal_strlit("v₀");
    assert(spec_step_lines(Step::ViFromDisplacement, p)[1] =~= p.dx@ + "="@ + (("v₀"@ + "*"@ + p.time@) + "+"@ + ((("0.5"@ + "*"@ + p.acc@) + "*"@ + p.time@) + "*"@ + p.time@)));
}

#[verifier::rlimit(100)]
proof fn render_line_21_3(p: Printed)
    ensures
        render_eq(layout(Step::ViFromDisplacement)[3]->Formula_0, layout(Step::ViFromDisplacement)[3]->Formula_1, p) == "v₀"@ + "="@ + (("("@ + (((("0.5"@ + "*"@ + p.acc@) + "*"@ + p.time@) + "*"@ + p.time@) + "-"@ + p.dx@) + ")"@) + "/"@ + p.time@),
{
    reveal_with_fuel(render, 8);
}

#[verifier::rlimit(40)]
proof fn text_line_21_3(p: Printed)
    ensures
        spec_step_lines(Step::ViFromDisplacement, p)[3] == "v₀"@ + "="@ + (("("@ + (((("0.5"@ + "*"@ + p.acc@) + "*"@ + p.time@) + "*"@ + p.time@) + "-"@ + p.dx@) + ")"@) + "/"@ + p.time@),
{
    reveal_strlit("(");
    reveal_strlit(")");
    reveal_strlit(")/");
    reveal_strlit("*");
    reveal_strlit("-");
    reveal_strlit("/");
    reveal_strlit("0.5");
    reveal_strlit("=");
    reveal_strlit("v₀");
    reveal_strlit("v₀=(0.5*");
    assert(spec_step_lines(Step::ViFromDisplacement, p)[3] =~= "v₀"@ + "="@ + (("("@ + (((("0.5"@ + "*"@ + p.acc@) + "*"@ + p.time@) + "*"@ + p.time@) + "-"@ + p.dx@) + ")"@) + "/"@ + p.time@));
}

#[verifier::rlimit(100)]
proof fn render_line_22_1(sr: bool, p: Printed)
    ensures
        render_eq(layout(Step::VfFromVelocityChange { second_root: sr })[1]->Formula_0, layout(Step::VfFromVelocityChange { second_root: sr })[1]->Formula_1, p) == "v₁"@ + "="@ + (p.vi@ + "+"@ + (p.acc@ + "*"@ + p.time@)),
{
    reveal_with_fuel(render, 8);
}

#[verifier::rlimit(40)]
proof fn text_line_22_1(sr: bool, p: Printed)
    ensures
        spec_step_lines(Step::VfFromVelocityChange { second_root: sr }, p)[1] == "v₁"@ + "="@ + (p.vi@ + "+"@ + (p.acc@ + "*"@ + p.time@)),
{
    reveal_strlit("(");
    reveal_strlit(")");
    reveal_strlit("*");
    reveal_strlit("+");
    reveal_strlit("=");
    reveal_strlit("v₁");
    reveal_strlit("v₁=");
    assert(spec_step_lines(Step::VfFromVelocityChange { second_root: sr }, p)[1] =~= "v₁"@ + "="@ + (p.vi@ + "+"@ + (p.acc@ + "*"@ + p.time@)));
}

/// Every line of a step's worked solution is its layout's line: the
/// headings, each formula written out from its expression (operators,
/// numbers and the parentheses that precedence needs), and the answer.
pub proof fn lemma_lines_follow_layout(s: Step, p: Printed)
    ensures
        spec_step_lines(s, p).len() == layout(s).len(),
        forall|j: int|
            0 <= j < layout(s).len() ==> #[trigger] spec_step_lines(s, p)[j] == layout_text(s, layout(s)[j], p),
{
    lemma_answer_line(s, p);
    match s {
        Step::AccFromFinalVelocity => lemma_layout_acc_from_final_velocity(p),
        Step::AccFromInitialVelocity => lemma_layout_acc_from_initial_velocity(p),
        Step::AccFromVelocitySquares => lemma_layout_acc_from_velocity_squares(p),
        Step::AccFromVelocityChange => lemma_layout_acc_from_velocity_change(p),
        Step::DxFromFinalVelocity => lemma_layout_dx_from_final_velocity(p),
        Step::DxFromInitialVelocity => lemma_layout_dx_from_initial_velocity(p),
        Step::DxFromVelocitySquares => lemma_layout_dx_from_velocity_squares(p),
        Step::TimeQuadraticFinal => lemma_layout_time_quadratic_final(p),
        Step::TimeQuadraticInitial => lemma_layout_time_quadratic_initial(p),
        Step::TimeFromVelocityChange => lemma_layout_time_from_velocity_change(p),
        Step::ViFromDisplacement => lemma_layout_vi_from_displacement(p),
        Step::VfFromVelocityChange { second_root } => lemma_layout_vf_from_velocity_change(second_root, p),
        Step::ViFromVelocityChange { .. } => {},
    }
}

/// The symbol that names a field (form order) in a worked solution.
pub open spec fn field_symbol(field: int) -> Sym {
    if field == 2 {
        Sym::A
    } else if field == 4 {
        Sym::Dx
    } else if field == 3 {
        Sym::T
    } else if field == 0 {
        Sym::V0
    } else {
        Sym::V1
    }
}

pub open spec fn field_atom(field: int) -> Atom {
    if field == 0 {
        Atom::InitialVelocity
    } else if field == 1 {
        Atom::FinalVelocity
    } else if field == 2 {
        Atom::Acceleration
    } else if field == 3 {
        Atom::Time
    } else {
        Atom::Displacement
    }
}

/// Whether a step rearranges its equation as `x=...` for the solved quantity.
pub open spec fn rearranges(s: Step) -> bool {
    match s {
        Step::AccFromFinalVelocity => true,
        Step::AccFromInitialVelocity => true,
        Step::AccFromVelocitySquares => true,
        Step::AccFromVelocityChange => true,
        Step::DxFromVelocitySquares => true,
        Step::TimeFromVelocityChange => true,
        Step::ViFromDisplacement => true,
        _ => false,
    }
}

/// Whether a step solves its equation with the quadratic formula.
pub open spec fn uses_quadratic(s: Step) -> bool {
    s == Step::TimeQuadraticFinal || s == Step::TimeQuadraticInitial
}

#[verifier::rlimit(40)]
proof fn heading_displacementfromfinal(p: Printed)
    ensures
        "&2Substitute values into Δd=v₁t-0.5at² :"@ == "&2Substitute values into "@ + render_eq(
            equation(Equation::DisplacementFromFinal).0,
            equation(Equation::DisplacementFromFinal).1,
            p,
        ) + " :"@,
{
    reveal_with_fuel(render, 8);
    assert(render_eq(equation(Equation::DisplacementFromFinal).0, equation(Equation::DisplacementFromFinal).1, p) == "Δd"@ + "="@ + (("v₁"@ + "t"@) + "-"@ + (("0.5"@ + "a"@) + ("t"@ + "²"@))));
    reveal_strlit(" :");
    reveal_strlit("&2Substitute values into ");
    reveal_strlit("&2Substitute values into Δd=v₁t-0.5at² :");
    reveal_strlit("(");
    reveal_strlit(")");
    reveal_strlit("-");
    reveal_strlit("0.5");
    reveal_strlit("=");
    reveal_strlit("a");
    reveal_strlit("t");
    reveal_strlit("v₁");
    reveal_strlit("²");
    reveal_strlit("Δd");
    assert("&2Substitute values into Δd=v₁t-0.5at² :"@ =~= "&2Substitute values into "@ + ("Δd"@ + "="@ + (("v₁"@ + "t"@) + "-"@ + (("0.5"@ + "a"@) + ("t"@ + "²"@)))) + " :"@);
}

#[verifier::rlimit(40)]
proof fn heading_displacementfrominitial(p: Printed)
    ensures
        "&2Substitute values into Δd=v₀t+0.5at² :"@ == "&2Substitute values into "@ + render_eq(
            equation(Equation::DisplacementFromInitial).0,
            equation(Equation::DisplacementFromInitial).1,
            p,
        ) + " :"@,
{
    reveal_with_fuel(render, 8);
    assert(render_eq(equation(Equation::DisplacementFromInitial).0, equation(Equation::DisplacementFromInitial).1, p) == "Δd"@ + "="@ + (("v₀"@ + "t"@) + "+"@ + (("0.5"@ + "a"@) + ("t"@ + "²"@))));
    reveal_strlit(" :");
    reveal_strlit("&2Substitute values into ");
    reveal_strlit("&2Substitute values into Δd=v₀t+0.5at² :");
    reveal_strlit("(");
    reveal_strlit(")");
    reveal_strlit("+");
    reveal_strlit("0.5");
    reveal_strlit("=");
    reveal_strlit("a");
    reveal_strlit("t");
    reveal_strlit("v₀");
    reveal_strlit("²");
    reveal_strlit("Δd");
    assert("&2Substitute values into Δd=v₀t+0.5at² :"@ =~= "&2Substitute values into "@ + ("Δd"@ + "="@ + (("v₀"@ + "t"@) + "+"@ + (("0.5"@ + "a"@) + ("t"@ + "²"@)))) + " :"@);
}

#[verifier::rlimit(40)]
proof fn heading_velocitysquares(p: Printed)
    ensures
        "&2Substitute values into v₁²=v₀²+2aΔd :"@ == "&2Substitute values into "@ + render_eq(
            equation(Equation::VelocitySquares).0,
            equation(Equation::VelocitySquares).1,
            p,
        ) + " :"@,
{
    reveal_with_fuel(render, 8);
    assert(render_eq(equation(Equation::VelocitySquares).0, equation(Equation::VelocitySquares).1, p) == ("v₁"@ + "²"@) + "="@ + (("v₀"@ + "²"@) + "+"@ + (("2"@ + "a"@) + "Δd"@)));
    reveal_strlit(" :");
    reveal_strlit("&2Substitute values into ");
    reveal_strlit("&2Substitute values into v₁²=v₀²+2aΔd :");
    reveal_strlit("(");
    reveal_strlit(")");
    reveal_strlit("+");
    reveal_strlit("2");
    reveal_strlit("=");
    reveal_strlit("a");
    reveal_strlit("v₀");
    reveal_strlit("v₁");
    reveal_strlit("²");
    reveal_strlit("Δd");
    assert("&2Substitute values into v₁²=v₀²+2aΔd :"@ =~= "&2Substitute values into "@ + (("v₁"@ + "²"@) + "="@ + (("v₀"@ + "²"@) + "+"@ + (("2"@ + "a"@) + "Δd"@))) + " :"@);
}

#[verifier::rlimit(40)]
proof fn heading_velocitychange(p: Printed)
    ensures
        "&2Substitute values into v₁=v₀+at :"@ == "&2Substitute values into "@ + render_eq(
            equation(Equation::VelocityChange).0,
            equation(Equation::VelocityChange).1,
            p,
        ) + " :"@,
{
    reveal_with_fuel(render, 8);
    assert(render_eq(equation(Equation::VelocityChange).0, equation(Equation::VelocityChange).1, p) == "v₁"@ + "="@ + ("v₀"@ + "+"@ + ("a"@ + "t"@)));
    reveal_strlit(" :");
    reveal_strlit("&2Substitute values into ");
    reveal_strlit("&2Substitute values into v₁=v₀+at :");
    reveal_strlit("(");
    reveal_strlit(")");
    reveal_strlit("+");
    reveal_strlit("=");
    reveal_strlit("a");
    reveal_strlit("t");
    reveal_strlit("v₀");
    reveal_strlit("v₁");
    assert("&2Substitute values into v₁=v₀+at :"@ =~= "&2Substitute values into "@ + ("v₁"@ + "="@ + ("v₀"@ + "+"@ + ("a"@ + "t"@))) + " :"@);
}

/// A step's heading names the equation it substitutes into, written out
/// from that equation's expression; a step with no equation has none.
pub proof fn lemma_substitution_heading_names_its_equation(s: Step, p: Printed)
    ensures
        spec_substitution_line(s) == match equation_of(s) {
            Some(e) => Some(
                "&2Substitute values into "@ + render_eq(equation(e).0, equation(e).1, p) + " :"@,
            ),
            None => None,
        },
{
    heading_displacementfromfinal(p);
    heading_displacementfrominitial(p);
    heading_velocitysquares(p);
    heading_velocitychange(p);
}

/// A step's "Solve for" heading names the quantity the step solves (and
/// says when the quadratic formula is used); steps without a rearrangement
/// or quadratic have none. The rearranged equation, and the quadratic
/// formula, have that quantity's symbol on the left.
pub proof fn lemma_solving_heading_names_the_solved_quantity(s: Step)
    ensures
        spec_solving_line(s) == if rearranges(s) || uses_quadratic(s) {
            Some(
                "&2Solve for "@ + sym_text(field_symbol(solved_field(s))) + if uses_quadratic(s) {
                    " using quadratic formula"@
                } else {
                    Seq::<char>::empty()
                } + " :"@,
            )
        } else {
            None
        },
        rearranges(s) ==> solved_by(s).0 == Expr::Sym(field_symbol(solved_field(s))),
        uses_quadratic(s) ==> root_formula(s).0 == Expr::Sym(field_symbol(solved_field(s))),
        sym_atom(field_symbol(solved_field(s))) == field_atom(solved_field(s)),
{
    reveal_strlit("&2Solve for a :");
    reveal_strlit("&2Solve for Δx :");
    reveal_strlit("&2Solve for t using quadratic formula :");
    reveal_strlit("&2Solve for t :");
    reveal_strlit("&2Solve for v₀ :");
    reveal_strlit("&2Solve for ");
    reveal_strlit("a");
    reveal_strlit("Δx");
    reveal_strlit("t");
    reveal_strlit("v₀");
    reveal_strlit(" using quadratic formula");
    reveal_strlit(" :");
    assert("&2Solve for a :"@ =~= "&2Solve for "@ + "a"@ + Seq::<char>::empty() + " :"@);
    assert("&2Solve for Δx :"@ =~= "&2Solve for "@ + "Δx"@ + Seq::<char>::empty() + " :"@);
    assert("&2Solve for t :"@ =~= "&2Solve for "@ + "t"@ + Seq::<char>::empty() + " :"@);
    assert("&2Solve for v₀ :"@ =~= "&2Solve for "@ + "v₀"@ + Seq::<char>::empty() + " :"@);
    assert("&2Solve for t using quadratic formula :"@ =~= "&2Solve for "@ + "t"@
        + " using quadratic formula"@ + " :"@);
}

/// The equations named in the headings hold of every motion with constant
/// acceleration (integer initial velocity, acceleration and duration).
pub proof fn lemma_named_equations_hold(e: Equation, vi: int, a: int, t: int)
    ensures
        q_same(
            eval(equation(e).0, motion(vi, a, t), 1, (0, 1)),
            eval(equation(e).1, motion(vi, a, t), 1, (0, 1)),
        ),
{
    reveal_with_fuel(eval, 8);
    match e {
        Equation::DisplacementFromFinal => {
            assert(eval(equation(e).0, motion(vi, a, t), 1, (0, 1)) == (((2 * vi * t + a * t * t)) as int, (2) as int));
            assert(eval(equation(e).1, motion(vi, a, t), 1, (0, 1)) == (((((vi + a * t) * t) * ((2 * 1) * (1 * 1)) - ((1 * a) * (t * t)) * (1 * 1))) as int, (((1 * 1) * ((2 * 1) * (1 * 1)))) as int));
            identity_0(vi, a, t);
        },
        Equation::DisplacementFromInitial => {
            assert(eval(equation(e).0, motion(vi, a, t), 1, (0, 1)) == (((2 * vi * t + a * t * t)) as int, (2) as int));
            assert(eval(equation(e).1, motion(vi, a, t), 1, (0, 1)) == ((((vi * t) * ((2 * 1) * (1 * 1)) + ((1 * a) * (t * t)) * (1 * 1))) as int, (((1 * 1) * ((2 * 1) * (1 * 1)))) as int));
            identity_1(vi, a, t);
        },
        Equation::VelocitySquares => {
            assert(eval(equation(e).0, motion(vi, a, t), 1, (0, 1)) == ((((vi + a * t) * (vi + a * t))) as int, ((1 * 1)) as int));
            assert(eval(equation(e).1, motion(vi, a, t), 1, (0, 1)) == ((((vi * vi) * ((1 * 1) * 2) + ((2 * a) * (2 * vi * t + a * t * t)) * (1 * 1))) as int, (((1 * 1) * ((1 * 1) * 2))) as int));
            identity_2(vi, a, t);
        },
        Equation::VelocityChange => {
            assert(eval(equation(e).0, motion(vi, a, t), 1, (0, 1)) == (((vi + a * t)) as int, (1) as int));
            assert(eval(equation(e).1, motion(vi, a, t), 1, (0, 1)) == (((vi * (1 * 1) + (a * t) * 1)) as int, ((1 * (1 * 1))) as int));
            identity_3(vi, a, t);
        },
    }
}

/// A step's substituted line is the equation its heading names: for any
/// values of the five quantities, its two sides differ by exactly what the
/// equation's two sides differ by. (The displacement step from the initial
/// velocity writes v₁ where its equation has v₀, as the solver prints it,
/// so it is left out.)
pub proof fn lemma_substituted_line_is_the_named_equation(
    s: Step,
    vi: int,
    vf: int,
    a: int,
    t: int,
    dx: int,
)
    requires
        equation_of(s) is Some,
        s != Step::DxFromInitialVelocity,
    ensures
        q_same(
            q_sub(
                eval(substituted(s).0, values(vi, vf, a, t, dx), 1, (0, 1)),
                eval(substituted(s).1, values(vi, vf, a, t, dx), 1, (0, 1)),
            ),
            q_sub(
                eval(equation(equation_of(s)->0).0, values(vi, vf, a, t, dx), 1, (0, 1)),
                eval(equation(equation_of(s)->0).1, values(vi, vf, a, t, dx), 1, (0, 1)),
            ),
        ),
{
    reveal_with_fuel(eval, 8);
    match s {
        Step::AccFromFinalVelocity => {
            assert(eval(substituted(s).0, values(vi, vf, a, t, dx), 1, (0, 1)) == ((dx) as int, (1) as int));
            assert(eval(substituted(s).1, values(vi, vf, a, t, dx), 1, (0, 1)) == ((((vf * t) * (((2 * 1) * 1) * 1) - (((1 * a) * t) * t) * (1 * 1))) as int, (((1 * 1) * (((2 * 1) * 1) * 1))) as int));
            assert(eval(equation(equation_of(s)->0).0, values(vi, vf, a, t, dx), 1, (0, 1)) == ((dx) as int, (1) as int));
            assert(eval(equation(equation_of(s)->0).1, values(vi, vf, a, t, dx), 1, (0, 1)) == ((((vf * t) * ((2 * 1) * (1 * 1)) - ((1 * a) * (t * t)) * (1 * 1))) as int, (((1 * 1) * ((2 * 1) * (1 * 1)))) as int));
            identity_4(vi, vf, a, t, dx);
        },
        Step::AccFromInitialVelocity => {
            assert(eval(substituted(s).0, values(vi, vf, a, t, dx), 1, (0, 1)) == ((dx) as int, (1) as int));
            assert(eval(substituted(s).1, values(vi, vf, a, t, dx), 1, (0, 1)) == ((((vi * t) * (((2 * 1) * 1) * 1) + (((1 * a) * t) * t) * (1 * 1))) as int, (((1 * 1) * (((2 * 1) * 1) * 1))) as int));
            assert(eval(equation(equation_of(s)->0).0, values(vi, vf, a, t, dx), 1, (0, 1)) == ((dx) as int, (1) as int));
            assert(eval(equation(equation_of(s)->0).1, values(vi, vf, a, t, dx), 1, (0, 1)) == ((((vi * t) * ((2 * 1) * (1 * 1)) + ((1 * a) * (t * t)) * (1 * 1))) as int, (((1 * 1) * ((2 * 1) * (1 * 1)))) as int));
            identity_5(vi, vf, a, t, dx);
        },
        Step::AccFromVelocitySquares => {
            assert(eval(substituted(s).0, values(vi, vf, a, t, dx), 1, (0, 1)) == (((vf * vf)) as int, ((1 * 1)) as int));
            assert(eval(substituted(s).1, values(vi, vf, a, t, dx), 1, (0, 1)) == ((((vi * vi) * ((1 * 1) * 1) + ((2 * a) * dx) * (1 * 1))) as int, (((1 * 1) * ((1 * 1) * 1))) as int));
            assert(eval(equation(equation_of(s)->0).0, values(vi, vf, a, t, dx), 1, (0, 1)) == (((vf * vf)) as int, ((1 * 1)) as int));
            assert(eval(equation(equation_of(s)->0).1, values(vi, vf, a, t, dx), 1, (0, 1)) == ((((vi * vi) * ((1 * 1) * 1) + ((2 * a) * dx) * (1 * 1))) as int, (((1 * 1) * ((1 * 1) * 1))) as int));
            identity_6(vi, vf, a, t, dx);
        },
        Step::AccFromVelocityChange => {
            assert(eval(substituted(s).0, values(vi, vf, a, t, dx), 1, (0, 1)) == ((vf) as int, (1) as int));
            assert(eval(substituted(s).1, values(vi, vf, a, t, dx), 1, (0, 1)) == (((vi * (1 * 1) + (a * t) * 1)) as int, ((1 * (1 * 1))) as int));
            assert(eval(equation(equation_of(s)->0).0, values(vi, vf, a, t, dx), 1, (0, 1)) == ((vf) as int, (1) as int));
            assert(eval(equation(equation_of(s)->0).1, values(vi, vf, a, t, dx), 1, (0, 1)) == (((vi * (1 * 1) + (a * t) * 1)) as int, ((1 * (1 * 1))) as int));
            identity_7(vi, vf, a, t, dx);
        },
        Step::DxFromFinalVelocity => {
            assert(eval(substituted(s).0, values(vi, vf, a, t, dx), 1, (0, 1)) == ((dx) as int, (1) as int));
            assert(eval(substituted(s).1, values(vi, vf, a, t, dx), 1, (0, 1)) == ((((vf * t) * (((2 * 1) * 1) * 1) - (((1 * a) * t) * t) * (1 * 1))) as int, (((1 * 1) * (((2 * 1) * 1) * 1))) as int));
            assert(eval(equation(equation_of(s)->0).0, values(vi, vf, a, t, dx), 1, (0, 1)) == ((dx) as int, (1) as int));
            assert(eval(equation(equation_of(s)->0).1, values(vi, vf, a, t, dx), 1, (0, 1)) == ((((vf * t) * ((2 * 1) * (1 * 1)) - ((1 * a) * (t * t)) * (1 * 1))) as int, (((1 * 1) * ((2 * 1) * (1 * 1)))) as int));
            identity_8(vi, vf, a, t, dx);
        },
        Step::DxFromVelocitySquares => {
            assert(eval(substituted(s).0, values(vi, vf, a, t, dx), 1, (0, 1)) == (((vf * vf)) as int, ((1 * 1)) as int));
            assert(eval(substituted(s).1, values(vi, vf, a, t, dx), 1, (0, 1)) == ((((vi * vi) * ((1 * 1) * 1) + ((2 * a) * dx) * (1 * 1))) as int, (((1 * 1) * ((1 * 1) * 1))) as int));
            assert(eval(equation(equation_of(s)->0).0, values(vi, vf, a, t, dx), 1, (0, 1)) == (((vf * vf)) as int, ((1 * 1)) as int));
            assert(eval(equation(equation_of(s)->0).1, values(vi, vf, a, t, dx), 1, (0, 1)) == ((((vi * vi) * ((1 * 1) * 1) + ((2 * a) * dx) * (1 * 1))) as int, (((1 * 1) * ((1 * 1) * 1))) as int));
            identity_9(vi, vf, a, t, dx);
        },
        Step::TimeQuadraticFinal => {
            assert(eval(substituted(s).0, values(vi, vf, a, t, dx), 1, (0, 1)) == ((dx) as int, (1) as int));
            assert(eval(substituted(s).1, values(vi, vf, a, t, dx), 1, (0, 1)) == ((((vf * t) * (((2 * 1) * 1) * 1) - (((1 * a) * t) * t) * (1 * 1))) as int, (((1 * 1) * (((2 * 1) * 1) * 1))) as int));
            assert(eval(equation(equation_of(s)->0).0, values(vi, vf, a, t, dx), 1, (0, 1)) == ((dx) as int, (1) as int));
            assert(eval(equation(equation_of(s)->0).1, values(vi, vf, a, t, dx), 1, (0, 1)) == ((((vf * t) * ((2 * 1) * (1 * 1)) - ((1 * a) * (t * t)) * (1 * 1))) as int, (((1 * 1) * ((2 * 1) * (1 * 1)))) as int));
            identity_10(vi, vf, a, t, dx);
        },
        Step::TimeQuadraticInitial => {
            assert(eval(substituted(s).0, values(vi, vf, a, t, dx), 1, (0, 1)) == ((dx) as int, (1) as int));
            assert(eval(substituted(s).1, values(vi, vf, a, t, dx), 1, (0, 1)) == ((((vi * t) * (((2 * 1) * 1) * 1) + (((1 * a) * t) * t) * (1 * 1))) as int, (((1 * 1) * (((2 * 1) * 1) * 1))) as int));
            assert(eval(equation(equation_of(s)->0).0, values(vi, vf, a, t, dx), 1, (0, 1)) == ((dx) as int, (1) as int));
            assert(eval(equation(equation_of(s)->0).1, values(vi, vf, a, t, dx), 1, (0, 1)) == ((((vi * t) * ((2 * 1) * (1 * 1)) + ((1 * a) * (t * t)) * (1 * 1))) as int, (((1 * 1) * ((2 * 1) * (1 * 1)))) as int));
            identity_11(vi, vf, a, t, dx);
        },
        Step::TimeFromVelocityChange => {
            assert(eval(substituted(s).0, values(vi, vf, a, t, dx), 1, (0, 1)) == ((vf) as int, (1) as int));
            assert(eval(substituted(s).1, values(vi, vf, a, t, dx), 1, (0, 1)) == (((vi * (1 * 1) + (a * t) * 1)) as int, ((1 * (1 * 1))) as int));
            assert(eval(equation(equation_of(s)->0).0, values(vi, vf, a, t, dx), 1, (0, 1)) == ((vf) as int, (1) as int));
            assert(eval(equation(equation_of(s)->0).1, values(vi, vf, a, t, dx), 1, (0, 1)) == (((vi * (1 * 1) + (a * t) * 1)) as int, ((1 * (1 * 1))) as int));
            identity_12(vi, vf, a, t, dx);
        },
        Step::ViFromDisplacement => {
            assert(eval(substituted(s).0, values(vi, vf, a, t, dx), 1, (0, 1)) == ((dx) as int, (1) as int));
            assert(eval(substituted(s).1, values(vi, vf, a, t, dx), 1, (0, 1)) == ((((vi * t) * (((2 * 1) * 1) * 1) + (((1 * a) * t) * t) * (1 * 1))) as int, (((1 * 1) * (((2 * 1) * 1) * 1))) as int));
            assert(eval(equation(equation_of(s)->0).0, values(vi, vf, a, t, dx), 1, (0, 1)) == ((dx) as int, (1) as int));
            assert(eval(equation(equation_of(s)->0).1, values(vi, vf, a, t, dx), 1, (0, 1)) == ((((vi * t) * ((2 * 1) * (1 * 1)) + ((1 * a) * (t * t)) * (1 * 1))) as int, (((1 * 1) * ((2 * 1) * (1 * 1)))) as int));
            identity_13(vi, vf, a, t, dx);
        },
        Step::VfFromVelocityChange { .. } => {
            assert(eval(substituted(s).0, values(vi, vf, a, t, dx), 1, (0, 1)) == ((vf) as int, (1) as int));
            assert(eval(substituted(s).1, values(vi, vf, a, t, dx), 1, (0, 1)) == (((vi * (1 * 1) + (a * t) * 1)) as int, ((1 * (1 * 1))) as int));
            assert(eval(equation(equation_of(s)->0).0, values(vi, vf, a, t, dx), 1, (0, 1)) == ((vf) as int, (1) as int));
            assert(eval(equation(equation_of(s)->0).1, values(vi, vf, a, t, dx), 1, (0, 1)) == (((vi * (1 * 1) + (a * t) * 1)) as int, ((1 * (1 * 1))) as int));
            identity_14(vi, vf, a, t, dx);
        },
        _ => {},
    }
}

/// A step's rearranged equation gives the quantity it solves for: on any
/// motion with constant acceleration (non-zero acceleration, duration and
/// displacement, so that no divisor vanishes) its right side is that
/// quantity's value. The initial velocity from Δd=v₀t+0.5at² is the one
/// exception: its rearrangement, as the solver writes and computes it, gives
/// the opposite of v₀.
pub proof fn lemma_rearrangement_gives_the_solved_quantity(s: Step, vi: int, a: int, t: int)
    requires
        rearranges(s),
        a != 0,
        t != 0,
        2 * vi * t + a * t * t != 0,
    ensures
        s != Step::ViFromDisplacement ==> q_same(
            eval(solved_by(s).1, motion(vi, a, t), 1, (0, 1)),
            motion(vi, a, t)(field_atom(solved_field(s))),
        ),
        s == Step::ViFromDisplacement ==> q_same(
            eval(solved_by(s).1, motion(vi, a, t), 1, (0, 1)),
            (-vi, 1),
        ),
{
    reveal_with_fuel(eval, 8);
    match s {
        Step::AccFromFinalVelocity => {
            assert(eval(solved_by(s).1, motion(vi, a, t), 1, (0, 1)) == (((((2 * vi * t + a * t * t) * (1 * 1) - ((vi + a * t) * t) * 2) * ((2 * 1) * 1))) as int, (((2 * (1 * 1)) * ((-1 * t) * t))) as int));
            identity_15(vi, a, t);
        },
        Step::AccFromInitialVelocity => {
            assert(eval(solved_by(s).1, motion(vi, a, t), 1, (0, 1)) == (((((2 * vi * t + a * t * t) * (1 * 1) - (vi * t) * 2) * ((2 * 1) * 1))) as int, (((2 * (1 * 1)) * ((1 * t) * t))) as int));
            identity_16(vi, a, t);
        },
        Step::AccFromVelocitySquares => {
            assert(eval(solved_by(s).1, motion(vi, a, t), 1, (0, 1)) == ((((((vi + a * t) * (vi + a * t)) * (1 * 1) - (vi * vi) * (1 * 1)) * (1 * 2))) as int, ((((1 * 1) * (1 * 1)) * (2 * (2 * vi * t + a * t * t)))) as int));
            identity_17(vi, a, t);
        },
        Step::AccFromVelocityChange => {
            assert(eval(solved_by(s).1, motion(vi, a, t), 1, (0, 1)) == (((((vi + a * t) * 1 - vi * 1) * 1)) as int, (((1 * 1) * t)) as int));
            identity_18(vi, a, t);
        },
        Step::DxFromVelocitySquares => {
            assert(eval(solved_by(s).1, motion(vi, a, t), 1, (0, 1)) == ((((((vi + a * t) * (vi + a * t)) * (1 * 1) - (vi * vi) * (1 * 1)) * (1 * 1))) as int, ((((1 * 1) * (1 * 1)) * (2 * a))) as int));
            identity_19(vi, a, t);
        },
        Step::TimeFromVelocityChange => {
            assert(eval(solved_by(s).1, motion(vi, a, t), 1, (0, 1)) == (((((vi + a * t) * 1 - vi * 1) * 1)) as int, (((1 * 1) * a)) as int));
            identity_20(vi, a, t);
        },
        Step::ViFromDisplacement => {
            assert(eval(solved_by(s).1, motion(vi, a, t), 1, (0, 1)) == (((((((1 * a) * t) * t) * 2 - (2 * vi * t + a * t * t) * (((2 * 1) * 1) * 1)) * 1)) as int, ((((((2 * 1) * 1) * 1) * 2) * t)) as int));
            identity_21(vi, a, t);
        },
        _ => {},
    }
}

/// The quadratic in t that a quadratic-formula step writes, `0=...`, holds
/// at the duration of any motion with constant acceleration.
pub proof fn lemma_quadratic_line_holds(s: Step, vi: int, a: int, t: int)
    requires
        uses_quadratic(s),
    ensures
        quadratic(s).0 == Expr::Konst(Konst::Zero),
        q_same(eval(quadratic(s).1, motion(vi, a, t), 1, (0, 1)), (0, 1)),
{
    reveal_with_fuel(eval, 8);
    match s {
        Step::TimeQuadraticFinal => {
            assert(eval(quadratic(s).1, motion(vi, a, t), 1, (0, 1)) == ((((((a * 1) * (t * t)) * (1 * 1) - ((vi + a * t) * t) * ((1 * 2) * (1 * 1))) * 2 + (2 * vi * t + a * t * t) * (((1 * 2) * (1 * 1)) * (1 * 1)))) as int, (((((1 * 2) * (1 * 1)) * (1 * 1)) * 2)) as int));
            identity_22(vi, a, t);
        },
        Step::TimeQuadraticInitial => {
            assert(eval(quadratic(s).1, motion(vi, a, t), 1, (0, 1)) == ((((((a * 1) * (t * t)) * (1 * 1) + (vi * t) * ((1 * 2) * (1 * 1))) * 2 - (2 * vi * t + a * t * t) * (((1 * 2) * (1 * 1)) * (1 * 1)))) as int, (((((1 * 2) * (1 * 1)) * (1 * 1)) * 2)) as int));
            identity_23(vi, a, t);
        },
        _ => {},
    }
}

/// The quadratic formula a step writes gives both roots: on any motion with
/// constant acceleration (non-zero acceleration) the radicand is the square
/// of a velocity of the motion (the final velocity for Δd=v₀t+0.5at², the
/// initial one for Δd=v₁t-0.5at²), and with that square root one sign of
/// `+-` gives the duration t, the other the second root.
pub proof fn lemma_quadratic_formula_gives_the_roots(s: Step, vi: int, a: int, t: int)
    requires
        uses_quadratic(s),
        a != 0,
    ensures
        s == Step::TimeQuadraticInitial ==> {
            &&& q_same(
                eval(radicand(s), motion(vi, a, t), 1, (0, 1)),
                q_mul((vi + a * t, 1), (vi + a * t, 1)),
            )
            &&& q_same(eval(root_formula(s).1, motion(vi, a, t), 1, (vi + a * t, 1)), (t, 1))
            &&& q_same(
                eval(root_formula(s).1, motion(vi, a, t), -1, (vi + a * t, 1)),
                (-(a * t) - 2 * vi, a),
            )
        },
        s == Step::TimeQuadraticFinal ==> {
            &&& q_same(eval(radicand(s), motion(vi, a, t), 1, (0, 1)), q_mul((vi, 1), (vi, 1)))
            &&& q_same(eval(root_formula(s).1, motion(vi, a, t), -1, (vi, 1)), (t, 1))
            &&& q_same(
                eval(root_formula(s).1, motion(vi, a, t), 1, (vi, 1)),
                (a * t + 2 * vi, a),
            )
        },
{
    reveal_with_fuel(eval, 8);
    match s {
        Step::TimeQuadraticInitial => {
            assert(eval(radicand(s), motion(vi, a, t), 1, (0, 1)) == ((((vi * vi) * ((1 * (1 * 2)) * 2) + ((4 * (a * 1)) * (2 * vi * t + a * t * t)) * (1 * 1))) as int, (((1 * 1) * ((1 * (1 * 2)) * 2))) as int));
            identity_24(vi, a, t);
            assert(eval(root_formula(s).1, motion(vi, a, t), 1, ((vi + a * t), 1)) == (((((-vi) * (1 * 1) + (1 * (vi + a * t)) * 1) * (1 * (1 * 2)))) as int, (((1 * (1 * 1)) * (2 * (a * 1)))) as int));
            identity_25(vi, a, t);
            assert(eval(root_formula(s).1, motion(vi, a, t), -1, ((vi + a * t), 1)) == (((((-vi) * (1 * 1) + (-1 * (vi + a * t)) * 1) * (1 * (1 * 2)))) as int, (((1 * (1 * 1)) * (2 * (a * 1)))) as int));
            identity_26(vi, a, t);
        },
        Step::TimeQuadraticFinal => {
            assert(eval(radicand(s), motion(vi, a, t), 1, (0, 1)) == (((((vi + a * t) * (vi + a * t)) * ((1 * (1 * 2)) * 2) - ((4 * (a * 1)) * (2 * vi * t + a * t * t)) * (1 * 1))) as int, (((1 * 1) * ((1 * (1 * 2)) * 2))) as int));
            identity_27(vi, a, t);
            assert(eval(root_formula(s).1, motion(vi, a, t), -1, (vi, 1)) == (((((vi + a * t) * (1 * 1) + (-1 * vi) * 1) * (1 * (1 * 2)))) as int, (((1 * (1 * 1)) * (2 * (a * 1)))) as int));
            identity_28(vi, a, t);
            assert(eval(root_formula(s).1, motion(vi, a, t), 1, (vi, 1)) == (((((vi + a * t) * (1 * 1) + (1 * vi) * 1) * (1 * (1 * 2)))) as int, (((1 * (1 * 1)) * (2 * (a * 1)))) as int));
            identity_29(vi, a, t);
        },
        _ => {},
    }
}

/// The displacement step from the initial velocity writes the final
/// velocity where its equation Δd=v₀t+0.5at² has v₀ (as the solver prints
/// it): its substituted line is that equation with v₀ read as v₁.
pub proof fn lemma_displacement_from_initial_line_reads_v0_as_v1(vi: int, vf: int, a: int, t: int, dx: int)
    ensures
        q_same(
            q_sub(
                eval(substituted(Step::DxFromInitialVelocity).0, values(vi, vf, a, t, dx), 1, (0, 1)),
                eval(substituted(Step::DxFromInitialVelocity).1, values(vi, vf, a, t, dx), 1, (0, 1)),
            ),
            q_sub(
                eval(equation(Equation::DisplacementFromInitial).0, values(vf, vf, a, t, dx), 1, (0, 1)),
                eval(equation(Equation::DisplacementFromInitial).1, values(vf, vf, a, t, dx), 1, (0, 1)),
            ),
        ),
{
    reveal_with_fuel(eval, 8);
    assert(eval(substituted(Step::DxFromInitialVelocity).0, values(vi, vf, a, t, dx), 1, (0, 1)) == ((dx) as int, (1) as int));
    assert(eval(substituted(Step::DxFromInitialVelocity).1, values(vi, vf, a, t, dx), 1, (0, 1)) == ((((vf * t) * (((2 * 1) * 1) * 1) + (((1 * a) * t) * t) * (1 * 1))) as int, (((1 * 1) * (((2 * 1) * 1) * 1))) as int));
    assert(eval(equation(Equation::DisplacementFromInitial).0, values(vf, vf, a, t, dx), 1, (0, 1)) == ((dx) as int, (1) as int));
    assert(eval(equation(Equation::DisplacementFromInitial).1, values(vf, vf, a, t, dx), 1, (0, 1)) == ((((vf * t) * ((2 * 1) * (1 * 1)) + ((1 * a) * (t * t)) * (1 * 1))) as int, (((1 * 1) * ((2 * 1) * (1 * 1)))) as int));
    identity_30(vi, vf, a, t, dx);
}

/// Each answer line is labelled with the symbol of the quantity its step
/// solves; the final velocity paired with a second time root is the one
/// exception, labelled v₀ as the solver prints it.
pub proof fn lemma_answer_label_names_the_solved_quantity(s: Step)
    ensures
        s != (Step::VfFromVelocityChange { second_root: true }) ==> answer_label(s) == "&3"@ + sym_text(
            field_symbol(solved_field(s)),
        ) + "="@,
        s == (Step::VfFromVelocityChange { second_root: true }) ==> answer_label(s) == "&3"@
            + sym_text(Sym::V0) + "="@,
{
    reveal_strlit("&3a=");
    reveal_strlit("&3Δx=");
    reveal_strlit("&3t=");
    reveal_strlit("&3v₀=");
    reveal_strlit("&3v₁=");
    reveal_strlit("&3");
    reveal_strlit("=");
    reveal_strlit("a");
    reveal_strlit("Δx");
    reveal_strlit("t");
    reveal_strlit("v₀");
    reveal_strlit("v₁");
    assert("&3a="@ =~= "&3"@ + "a"@ + "="@);
    assert("&3Δx="@ =~= "&3"@ + "Δx"@ + "="@);
    assert("&3t="@ =~= "&3"@ + "t"@ + "="@);
    assert("&3v₀="@ =~= "&3"@ + "v₀"@ + "="@);
    assert("&3v₁="@ =~= "&3"@ + "v₁"@ + "="@);
}

/// The order of a step's worked solution: the heading naming its equation
/// and the substituted equation first (when it has an equation), then the
/// "Solve for" heading with the rearrangement, or with the quadratic and the
/// quadratic formula, and last the answer; nothing else.
pub proof fn lemma_layout_order(s: Step)
    ensures
        layout(s).len() == (if equation_of(s) is Some { 2int } else { 0 }) + (if rearranges(s) {
            2int
        } else {
            0
        }) + (if uses_quadratic(s) { 3int } else { 0 }) + 1,
        layout(s).last() == WorkLine::Answer,
        equation_of(s) is Some ==> layout(s)[0] == WorkLine::Substitution && layout(s)[1]
            == WorkLine::Formula(substituted(s).0, substituted(s).1),
        rearranges(s) ==> layout(s)[2] == WorkLine::Solving && layout(s)[3] == WorkLine::Formula(
            solved_by(s).0,
            solved_by(s).1,
        ),
        uses_quadratic(s) ==> layout(s)[2] == WorkLine::Solving && layout(s)[3] == WorkLine::Formula(
            quadratic(s).0,
            quadratic(s).1,
        ) && layout(s)[4] == WorkLine::Formula(root_formula(s).0, root_formula(s).1),
{
}

proof fn identity_0(vi: int, a: int, t: int)
    by (nonlinear_arith)
    requires
        true,
    ensures
        2 != 0,
        ((1 * 1) * ((2 * 1) * (1 * 1))) != 0,
        (2 * vi * t + a * t * t) * ((1 * 1) * ((2 * 1) * (1 * 1))) == (((vi + a * t) * t) * ((2 * 1) * (1 * 1)) - ((1 * a) * (t * t)) * (1 * 1)) * 2,
{
}

proof fn identity_1(vi: int, a: int, t: int)
    by (nonlinear_arith)
    requires
        true,
    ensures
        2 != 0,
        ((1 * 1) * ((2 * 1) * (1 * 1))) != 0,
        (2 * vi * t + a * t * t) * ((1 * 1) * ((2 * 1) * (1 * 1))) == ((vi * t) * ((2 * 1) * (1 * 1)) + ((1 * a) * (t * t)) * (1 * 1)) * 2,
{
}

proof fn identity_2(vi: int, a: int, t: int)
    by (nonlinear_arith)
    requires
        true,
    ensures
        (1 * 1) != 0,
        ((1 * 1) * ((1 * 1) * 2)) != 0,
        ((vi + a * t) * (vi + a * t)) * ((1 * 1) * ((1 * 1) * 2)) == ((vi * vi) * ((1 * 1) * 2) + ((2 * a) * (2 * vi * t + a * t * t)) * (1 * 1)) * (1 * 1),
{
}

proof fn identity_3(vi: int, a: int, t: int)
    by (nonlinear_arith)
    requires
        true,
    ensures
        1 != 0,
        (1 * (1 * 1)) != 0,
        (vi + a * t) * (1 * (1 * 1)) == (vi * (1 * 1) + (a * t) * 1) * 1,
{
}

proof fn identity_4(vi: int, vf: int, a: int, t: int, dx: int)
    by (nonlinear_arith)
    requires
        true,
    ensures
        (1 * ((1 * 1) * (((2 * 1) * 1) * 1))) != 0,
        (1 * ((1 * 1) * ((2 * 1) * (1 * 1)))) != 0,
        (dx * ((1 * 1) * (((2 * 1) * 1) * 1)) - ((vf * t) * (((2 * 1) * 1) * 1) - (((1 * a) * t) * t) * (1 * 1)) * 1) * (1 * ((1 * 1) * ((2 * 1) * (1 * 1)))) == (dx * ((1 * 1) * ((2 * 1) * (1 * 1))) - ((vf * t) * ((2 * 1) * (1 * 1)) - ((1 * a) * (t * t)) * (1 * 1)) * 1) * (1 * ((1 * 1) * (((2 * 1) * 1) * 1))),
{
}

proof fn identity_5(vi: int, vf: int, a: int, t: int, dx: int)
    by (nonlinear_arith)
    requires
        true,
    ensures
        (1 * ((1 * 1) * (((2 * 1) * 1) * 1))) != 0,
        (1 * ((1 * 1) * ((2 * 1) * (1 * 1)))) != 0,
        (dx * ((1 * 1) * (((2 * 1) * 1) * 1)) - ((vi * t) * (((2 * 1) * 1) * 1) + (((1 * a) * t) * t) * (1 * 1)) * 1) * (1 * ((1 * 1) * ((2 * 1) * (1 * 1)))) == (dx * ((1 * 1) * ((2 * 1) * (1 * 1))) - ((vi * t) * ((2 * 1) * (1 * 1)) + ((1 * a) * (t * t)) * (1 * 1)) * 1) * (1 * ((1 * 1) * (((2 * 1) * 1) * 1))),
{
}

proof fn identity_6(vi: int, vf: int, a: int, t: int, dx: int)
    by (nonlinear_arith)
    requires
        true,
    ensures
        ((1 * 1) * ((1 * 1) * ((1 * 1) * 1))) != 0,
        ((1 * 1) * ((1 * 1) * ((1 * 1) * 1))) != 0,
        ((vf * vf) * ((1 * 1) * ((1 * 1) * 1)) - ((vi * vi) * ((1 * 1) * 1) + ((2 * a) * dx) * (1 * 1)) * (1 * 1)) * ((1 * 1) * ((1 * 1) * ((1 * 1) * 1))) == ((vf * vf) * ((1 * 1) * ((1 * 1) * 1)) - ((vi * vi) * ((1 * 1) * 1) + ((2 * a) * dx) * (1 * 1)) * (1 * 1)) * ((1 * 1) * ((1 * 1) * ((1 * 1) * 1))),
{
}

proof fn identity_7(vi: int, vf: int, a: int, t: int, dx: int)
    by (nonlinear_arith)
    requires
        true,
    ensures
        (1 * (1 * (1 * 1))) != 0,
        (1 * (1 * (1 * 1))) != 0,
        (vf * (1 * (1 * 1)) - (vi * (1 * 1) + (a * t) * 1) * 1) * (1 * (1 * (1 * 1))) == (vf * (1 * (1 * 1)) - (vi * (1 * 1) + (a * t) * 1) * 1) * (1 * (1 * (1 * 1))),
{
}

proof fn identity_8(vi: int, vf: int, a: int, t: int, dx: int)
    by (nonlinear_arith)
    requires
        true,
    ensures
        (1 * ((1 * 1) * (((2 * 1) * 1) * 1))) != 0,
        (1 * ((1 * 1) * ((2 * 1) * (1 * 1)))) != 0,
        (dx * ((1 * 1) * (((2 * 1) * 1) * 1)) - ((vf * t) * (((2 * 1) * 1) * 1) - (((1 * a) * t) * t) * (1 * 1)) * 1) * (1 * ((1 * 1) * ((2 * 1) * (1 * 1)))) == (dx * ((1 * 1) * ((2 * 1) * (1 * 1))) - ((vf * t) * ((2 * 1) * (1 * 1)) - ((1 * a) * (t * t)) * (1 * 1)) * 1) * (1 * ((1 * 1) * (((2 * 1) * 1) * 1))),
{
}

proof fn identity_9(vi: int, vf: int, a: int, t: int, dx: int)
    by (nonlinear_arith)
    requires
        true,
    ensures
        ((1 * 1) * ((1 * 1) * ((1 * 1) * 1))) != 0,
        ((1 * 1) * ((1 * 1) * ((1 * 1) * 1))) != 0,
        ((vf * vf) * ((1 * 1) * ((1 * 1) * 1)) - ((vi * vi) * ((1 * 1) * 1) + ((2 * a) * dx) * (1 * 1)) * (1 * 1)) * ((1 * 1) * ((1 * 1) * ((1 * 1) * 1))) == ((vf * vf) * ((1 * 1) * ((1 * 1) * 1)) - ((vi * vi) * ((1 * 1) * 1) + ((2 * a) * dx) * (1 * 1)) * (1 * 1)) * ((1 * 1) * ((1 * 1) * ((1 * 1) * 1))),
{
}

proof fn identity_10(vi: int, vf: int, a: int, t: int, dx: int)
    by (nonlinear_arith)
    requires
        true,
    ensures
        (1 * ((1 * 1) * (((2 * 1) * 1) * 1))) != 0,
        (1 * ((1 * 1) * ((2 * 1) * (1 * 1)))) != 0,
        (dx * ((1 * 1) * (((2 * 1) * 1) * 1)) - ((vf * t) * (((2 * 1) * 1) * 1) - (((1 * a) * t) * t) * (1 * 1)) * 1) * (1 * ((1 * 1) * ((2 * 1) * (1 * 1)))) == (dx * ((1 * 1) * ((2 * 1) * (1 * 1))) - ((vf * t) * ((2 * 1) * (1 * 1)) - ((1 * a) * (t * t)) * (1 * 1)) * 1) * (1 * ((1 * 1) * (((2 * 1) * 1) * 1))),
{
}

proof fn identity_11(vi: int, vf: int, a: int, t: int, dx: int)
    by (nonlinear_arith)
    requires
        true,
    ensures
        (1 * ((1 * 1) * (((2 * 1) * 1) * 1))) != 0,
        (1 * ((1 * 1) * ((2 * 1) * (1 * 1)))) != 0,
        (dx * ((1 * 1) * (((2 * 1) * 1) * 1)) - ((vi * t) * (((2 * 1) * 1) * 1) + (((1 * a) * t) * t) * (1 * 1)) * 1) * (1 * ((1 * 1) * ((2 * 1) * (1 * 1)))) == (dx * ((1 * 1) * ((2 * 1) * (1 * 1))) - ((vi * t) * ((2 * 1) * (1 * 1)) + ((1 * a) * (t * t)) * (1 * 1)) * 1) * (1 * ((1 * 1) * (((2 * 1) * 1) * 1))),
{
}

proof fn identity_12(vi: int, vf: int, a: int, t: int, dx: int)
    by (nonlinear_arith)
    requires
        true,
    ensures
        (1 * (1 * (1 * 1))) != 0,
        (1 * (1 * (1 * 1))) != 0,
        (vf * (1 * (1 * 1)) - (vi * (1 * 1) + (a * t) * 1) * 1) * (1 * (1 * (1 * 1))) == (vf * (1 * (1 * 1)) - (vi * (1 * 1) + (a * t) * 1) * 1) * (1 * (1 * (1 * 1))),
{
}

proof fn identity_13(vi: int, vf: int, a: int, t: int, dx: int)
    by (nonlinear_arith)
    requires
        true,
    ensures
        (1 * ((1 * 1) * (((2 * 1) * 1) * 1))) != 0,
        (1 * ((1 * 1) * ((2 * 1) * (1 * 1)))) != 0,
        (dx * ((1 * 1) * (((2 * 1) * 1) * 1)) - ((vi * t) * (((2 * 1) * 1) * 1) + (((1 * a) * t) * t) * (1 * 1)) * 1) * (1 * ((1 * 1) * ((2 * 1) * (1 * 1)))) == (dx * ((1 * 1) * ((2 * 1) * (1 * 1))) - ((vi * t) * ((2 * 1) * (1 * 1)) + ((1 * a) * (t * t)) * (1 * 1)) * 1) * (1 * ((1 * 1) * (((2 * 1) * 1) * 1))),
{
}

proof fn identity_14(vi: int, vf: int, a: int, t: int, dx: int)
    by (nonlinear_arith)
    requires
        true,
    ensures
        (1 * (1 * (1 * 1))) != 0,
        (1 * (1 * (1 * 1))) != 0,
        (vf * (1 * (1 * 1)) - (vi * (1 * 1) + (a * t) * 1) * 1) * (1 * (1 * (1 * 1))) == (vf * (1 * (1 * 1)) - (vi * (1 * 1) + (a * t) * 1) * 1) * (1 * (1 * (1 * 1))),
{
}

proof fn identity_15(vi: int, a: int, t: int)
    by (nonlinear_arith)
    requires
        a != 0,
        t != 0,
        2 * vi * t + a * t * t != 0,
    ensures
        ((2 * (1 * 1)) * ((-1 * t) * t)) != 0,
        1 != 0,
        (((2 * vi * t + a * t * t) * (1 * 1) - ((vi + a * t) * t) * 2) * ((2 * 1) * 1)) * 1 == a * ((2 * (1 * 1)) * ((-1 * t) * t)),
{
}

proof fn identity_16(vi: int, a: int, t: int)
    by (nonlinear_arith)
    requires
        a != 0,
        t != 0,
        2 * vi * t + a * t * t != 0,
    ensures
        ((2 * (1 * 1)) * ((1 * t) * t)) != 0,
        1 != 0,
        (((2 * vi * t + a * t * t) * (1 * 1) - (vi * t) * 2) * ((2 * 1) * 1)) * 1 == a * ((2 * (1 * 1)) * ((1 * t) * t)),
{
}

proof fn identity_17(vi: int, a: int, t: int)
    by (nonlinear_arith)
    requires
        a != 0,
        t != 0,
        2 * vi * t + a * t * t != 0,
    ensures
        (((1 * 1) * (1 * 1)) * (2 * (2 * vi * t + a * t * t))) != 0,
        1 != 0,
        ((((vi + a * t) * (vi + a * t)) * (1 * 1) - (vi * vi) * (1 * 1)) * (1 * 2)) * 1 == a * (((1 * 1) * (1 * 1)) * (2 * (2 * vi * t + a * t * t))),
{
}

proof fn identity_18(vi: int, a: int, t: int)
    by (nonlinear_arith)
    requires
        a != 0,
        t != 0,
        2 * vi * t + a * t * t != 0,
    ensures
        ((1 * 1) * t) != 0,
        1 != 0,
        (((vi + a * t) * 1 - vi * 1) * 1) * 1 == a * ((1 * 1) * t),
{
}

proof fn identity_19(vi: int, a: int, t: int)
    by (nonlinear_arith)
    requires
        a != 0,
        t != 0,
        2 * vi * t + a * t * t != 0,
    ensures
        (((1 * 1) * (1 * 1)) * (2 * a)) != 0,
        2 != 0,
        ((((vi + a * t) * (vi + a * t)) * (1 * 1) - (vi * vi) * (1 * 1)) * (1 * 1)) * 2 == (2 * vi * t + a * t * t) * (((1 * 1) * (1 * 1)) * (2 * a)),
{
}

proof fn identity_20(vi: int, a: int, t: int)
    by (nonlinear_arith)
    requires
        a != 0,
        t != 0,
        2 * vi * t + a * t * t != 0,
    ensures
        ((1 * 1) * a) != 0,
        1 != 0,
        (((vi + a * t) * 1 - vi * 1) * 1) * 1 == t * ((1 * 1) * a),
{
}

proof fn identity_21(vi: int, a: int, t: int)
    by (nonlinear_arith)
    requires
        a != 0,
        t != 0,
        2 * vi * t + a * t * t != 0,
    ensures
        (((((2 * 1) * 1) * 1) * 2) * t) != 0,
        1 != 0,
        (((((1 * a) * t) * t) * 2 - (2 * vi * t + a * t * t) * (((2 * 1) * 1) * 1)) * 1) * 1 == (-vi) * (((((2 * 1) * 1) * 1) * 2) * t),
{
}

proof fn identity_22(vi: int, a: int, t: int)
    by (nonlinear_arith)
    requires
        true,
    ensures
        ((((1 * 2) * (1 * 1)) * (1 * 1)) * 2) != 0,
        1 != 0,
        ((((a * 1) * (t * t)) * (1 * 1) - ((vi + a * t) * t) * ((1 * 2) * (1 * 1))) * 2 + (2 * vi * t + a * t * t) * (((1 * 2) * (1 * 1)) * (1 * 1))) * 1 == 0 * ((((1 * 2) * (1 * 1)) * (1 * 1)) * 2),
{
}

proof fn identity_23(vi: int, a: int, t: int)
    by (nonlinear_arith)
    requires
        true,
    ensures
        ((((1 * 2) * (1 * 1)) * (1 * 1)) * 2) != 0,
        1 != 0,
        ((((a * 1) * (t * t)) * (1 * 1) + (vi * t) * ((1 * 2) * (1 * 1))) * 2 - (2 * vi * t + a * t * t) * (((1 * 2) * (1 * 1)) * (1 * 1))) * 1 == 0 * ((((1 * 2) * (1 * 1)) * (1 * 1)) * 2),
{
}

proof fn identity_24(vi: int, a: int, t: int)
    by (nonlinear_arith)
    requires
        true,
    ensures
        ((1 * 1) * ((1 * (1 * 2)) * 2)) != 0,
        (1 * 1) != 0,
        ((vi * vi) * ((1 * (1 * 2)) * 2) + ((4 * (a * 1)) * (2 * vi * t + a * t * t)) * (1 * 1)) * (1 * 1) == ((vi + a * t) * (vi + a * t)) * ((1 * 1) * ((1 * (1 * 2)) * 2)),
{
}

proof fn identity_25(vi: int, a: int, t: int)
    by (nonlinear_arith)
    requires
        a != 0,
    ensures
        ((1 * (1 * 1)) * (2 * (a * 1))) != 0,
        1 != 0,
        (((-vi) * (1 * 1) + (1 * (vi + a * t)) * 1) * (1 * (1 * 2))) * 1 == t * ((1 * (1 * 1)) * (2 * (a * 1))),
{
}

proof fn identity_26(vi: int, a: int, t: int)
    by (nonlinear_arith)
    requires
        a != 0,
    ensures
        ((1 * (1 * 1)) * (2 * (a * 1))) != 0,
        a != 0,
        (((-vi) * (1 * 1) + (-1 * (vi + a * t)) * 1) * (1 * (1 * 2))) * a == (-(a * t) - 2 * vi) * ((1 * (1 * 1)) * (2 * (a * 1))),
{
}

proof fn identity_27(vi: int, a: int, t: int)
    by (nonlinear_arith)
    requires
        true,
    ensures
        ((1 * 1) * ((1 * (1 * 2)) * 2)) != 0,
        (1 * 1) != 0,
        (((vi + a * t) * (vi + a * t)) * ((1 * (1 * 2)) * 2) - ((4 * (a * 1)) * (2 * vi * t + a * t * t)) * (1 * 1)) * (1 * 1) == (vi * vi) * ((1 * 1) * ((1 * (1 * 2)) * 2)),
{
}

proof fn identity_28(vi: int, a: int, t: int)
    by (nonlinear_arith)
    requires
        a != 0,
    ensures
        ((1 * (1 * 1)) * (2 * (a * 1))) != 0,
        1 != 0,
        (((vi + a * t) * (1 * 1) + (-1 * vi) * 1) * (1 * (1 * 2))) * 1 == t * ((1 * (1 * 1)) * (2 * (a * 1))),
{
}

proof fn identity_29(vi: int, a: int, t: int)
    by (nonlinear_arith)
    requires
        a != 0,
    ensures
        ((1 * (1 * 1)) * (2 * (a * 1))) != 0,
        a != 0,
        (((vi + a * t) * (1 * 1) + (1 * vi) * 1) * (1 * (1 * 2))) * a == (a * t + 2 * vi) * ((1 * (1 * 1)) * (2 * (a * 1))),
{
}

proof fn identity_30(vi: int, vf: int, a: int, t: int, dx: int)
    by (nonlinear_arith)
    requires
        true,
    ensures
        (1 * ((1 * 1) * (((2 * 1) * 1) * 1))) != 0,
        (1 * ((1 * 1) * ((2 * 1) * (1 * 1)))) != 0,
        (dx * ((1 * 1) * (((2 * 1) * 1) * 1)) - ((vf * t) * (((2 * 1) * 1) * 1) + (((1 * a) * t) * t) * (1 * 1)) * 1) * (1 * ((1 * 1) * ((2 * 1) * (1 * 1)))) == (dx * ((1 * 1) * ((2 * 1) * (1 * 1))) - ((vf * t) * ((2 * 1) * (1 * 1)) + ((1 * a) * (t * t)) * (1 * 1)) * 1) * (1 * ((1 * 1) * (((2 * 1) * 1) * 1))),
{
}

} // verus!
