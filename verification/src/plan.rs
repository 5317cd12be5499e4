use vstd::prelude::*;
use vstd::string::*;

use crate::fields::{convert_idx_order, spec_convert_idx_order, spec_solving_position};

verus! {

/// Whether each input that the solver's branches look at holds NaN once
/// parsed as a number: an empty field, one that does not read as a number,
/// and the text `NaN` all do.
#[derive(PartialEq, Eq, Structural, Clone, Copy, Debug)]
pub struct NanInputs {
    pub initial_velocity: bool,
    pub final_velocity: bool,
    pub time: bool,
}

/// One solving step: the quantity solved and the equation used for it.
#[derive(PartialEq, Eq, Structural, Clone, Copy, Debug)]
pub enum Step {
    /// `a` from Δd=v₁t-0.5at²
    AccFromFinalVelocity,
    /// `a` from Δd=v₀t+0.5at²
    AccFromInitialVelocity,
    /// `a` from v₁²=v₀²+2aΔd
    AccFromVelocitySquares,
    /// `a` from v₁=v₀+at
    AccFromVelocityChange,
    /// Δx from Δd=v₁t-0.5at²
    DxFromFinalVelocity,
    /// Δx from Δd=v₀t+0.5at²
    DxFromInitialVelocity,
    /// Δx from v₁²=v₀²+2aΔd
    DxFromVelocitySquares,
    /// `t` from Δd=v₁t-0.5at² by the quadratic formula (two roots)
    TimeQuadraticFinal,
    /// `t` from Δd=v₀t+0.5at² by the quadratic formula (two roots)
    TimeQuadraticInitial,
    /// `t` from v₁=v₀+at
    TimeFromVelocityChange,
    /// v₀ from Δd=v₀t+0.5at²
    ViFromDisplacement,
    /// v₀ from v₁=v₀+at; with `second_root`, also for the second time root
    ViFromVelocityChange { second_root: bool },
    /// v₁ from v₁=v₀+at; with `second_root`, also for the second time root
    VfFromVelocityChange { second_root: bool },
}

/// The field (in form order) that a step solves.
pub open spec fn solved_field(s: Step) -> int {
    match s {
        Step::AccFromFinalVelocity | Step::AccFromInitialVelocity | Step::AccFromVelocitySquares
        | Step::AccFromVelocityChange => 2,
        Step::DxFromFinalVelocity | Step::DxFromInitialVelocity | Step::DxFromVelocitySquares => 4,
        Step::TimeQuadraticFinal | Step::TimeQuadraticInitial | Step::TimeFromVelocityChange => 3,
        Step::ViFromDisplacement | Step::ViFromVelocityChange { .. } => 0,
        Step::VfFromVelocityChange { .. } => 1,
    }
}

pub open spec fn acc_step(f: NanInputs) -> Step {
    if f.initial_velocity {
        Step::AccFromFinalVelocity
    } else if f.final_velocity {
        Step::AccFromInitialVelocity
    } else if f.time {
        Step::AccFromVelocitySquares
    } else {
        Step::AccFromVelocityChange
    }
}

pub open spec fn dx_step(f: NanInputs) -> Step {
    if f.initial_velocity {
        Step::DxFromFinalVelocity
    } else if f.final_velocity {
        Step::DxFromInitialVelocity
    } else {
        Step::DxFromVelocitySquares
    }
}

pub open spec fn time_step(f: NanInputs) -> Step {
    if f.initial_velocity {
        Step::TimeQuadraticFinal
    } else if f.final_velocity {
        Step::TimeQuadraticInitial
    } else {
        Step::TimeFromVelocityChange
    }
}

pub open spec fn vi_step(f: NanInputs, has_secondary: bool) -> Step {
    if f.final_velocity {
        Step::ViFromDisplacement
    } else {
        Step::ViFromVelocityChange { second_root: has_secondary }
    }
}

pub open spec fn vf_step(has_secondary: bool) -> Step {
    Step::VfFromVelocityChange { second_root: has_secondary }
}

/// The step that solves a field, given the NaN inputs and how many
/// secondary answers exist so far.
pub open spec fn step_for_field(field: int, f: NanInputs, secondary: Option<nat>) -> Step {
    if field == 2 {
        acc_step(f)
    } else if field == 4 {
        dx_step(f)
    } else if field == 3 {
        time_step(f)
    } else if field == 0 {
        vi_step(f, secondary is Some)
    } else {
        vf_step(secondary is Some)
    }
}

/// How many secondary answers exist after a step: a quadratic time step
/// starts the list with the second root, a velocity step adds one entry
/// (initial velocity) or two (a placeholder, then the final velocity)
/// when the list exists.
pub open spec fn secondary_after(s: Step, secondary: Option<nat>) -> Option<nat> {
    match s {
        Step::TimeQuadraticFinal | Step::TimeQuadraticInitial => Some(1),
        Step::ViFromVelocityChange { .. } => match secondary {
            Some(n) => Some(n + 1),
            None => None,
        },
        Step::VfFromVelocityChange { .. } => match secondary {
            Some(n) => Some(n + 2),
            None => None,
        },
        _ => secondary,
    }
}

pub open spec fn is_unknown(s: String) -> bool {
    s@.len() == 0
}

/// The number of empty fields among the first `k`.
pub open spec fn unknown_count(vals: Seq<String>, k: nat) -> nat
    decreases k,
{
    if k == 0 {
        0
    } else {
        unknown_count(vals, (k - 1) as nat) + if is_unknown(vals[k - 1]) {
            1nat
        } else {
            0nat
        }
    }
}

/// The steps taken over the first `k` solving positions, and the number of
/// secondary answers after them: position `i` solves field
/// `convert_idx_order(i)` when that field is empty.
pub open spec fn spec_plan(vals: Seq<String>, f: NanInputs, k: nat) -> (Seq<Step>, Option<nat>)
    decreases k,
{
    if k == 0 {
        (Seq::empty(), None)
    } else {
        let prev = spec_plan(vals, f, (k - 1) as nat);
        let field = spec_convert_idx_order(k - 1);
        if is_unknown(vals[field]) {
            let s = step_for_field(field, f, prev.1);
            (prev.0.push(s), secondary_after(s, prev.1))
        } else {
            prev
        }
    }
}

/// Why a set of inputs cannot be solved.
#[derive(PartialEq, Eq, Structural, Clone, Copy, Debug)]
pub enum SolveError {
    AllKnown,
    WrongUnknownCount,
}

pub open spec fn spec_error_message(e: SolveError) -> Seq<char> {
    match e {
        SolveError::AllKnown => "All values are already known! Nothing to solve."@,
        SolveError::WrongUnknownCount => "Must have exactally 2 unknown values to solve!"@,
    }
}

impl SolveError {
    /// The text shown for the error.
    pub fn message(&self) -> (m: String)
        ensures
            m@ == spec_error_message(*self),
    {
        match self {
            SolveError::AllKnown => "All values are already known! Nothing to solve.".to_owned(),
            SolveError::WrongUnknownCount => "Must have exactally 2 unknown values to solve!".to_owned(),
        }
    }
}

/// The decisions of one solve: the steps in order, and how many secondary
/// answers they leave (`None` when no quadratic time step ran).
pub struct KinemEquatSolvr {
    pub steps: Vec<Step>,
    pub secans: Option<usize>,
}

pub open spec fn secondary_view(o: Option<usize>) -> Option<nat> {
    match o {
        Some(n) => Some(n as nat),
        None => None,
    }
}

impl KinemEquatSolvr {
    pub open spec fn secondary(&self) -> Option<nat> {
        secondary_view(self.secans)
    }

    /// Solves the acceleration.
    pub fn solveacc(&mut self, nan: NanInputs)
        ensures
            final(self).steps@ == old(self).steps@.push(acc_step(nan)),
            final(self).secondary() == secondary_after(acc_step(nan), old(self).secondary()),
    {
        let s = if nan.initial_velocity {
            Step::AccFromFinalVelocity
        } else if nan.final_velocity {
            Step::AccFromInitialVelocity
        } else if nan.time {
            Step::AccFromVelocitySquares
        } else {
            Step::AccFromVelocityChange
        };
        self.steps.push(s);
    }

    /// Solves the displacement.
    pub fn solvedx(&mut self, nan: NanInputs)
        ensures
            final(self).steps@ == old(self).steps@.push(dx_step(nan)),
            final(self).secondary() == secondary_after(dx_step(nan), old(self).secondary()),
    {
        let s = if nan.initial_velocity {
            Step::DxFromFinalVelocity
        } else if nan.final_velocity {
            Step::DxFromInitialVelocity
        } else {
            Step::DxFromVelocitySquares
        };
        self.steps.push(s);
    }

    /// Solves the time; the quadratic cases start the secondary answers
    /// with the second root.
    pub fn solvetime(&mut self, nan: NanInputs)
        ensures
            final(self).steps@ == old(self).steps@.push(time_step(nan)),
            final(self).secondary() == secondary_after(time_step(nan), old(self).secondary()),
    {
        if nan.initial_velocity {
            self.steps.push(Step::TimeQuadraticFinal);
            self.secans = Some(1);
        } else if nan.final_velocity {
            self.steps.push(Step::TimeQuadraticInitial);
            self.secans = Some(1);
        } else {
            self.steps.push(Step::TimeFromVelocityChange);
        }
    }

    /// Solves the initial velocity.
    pub fn solvevi(&mut self, nan: NanInputs)
        requires
            old(self).secans matches Some(n) ==> n < usize::MAX,
        ensures
            final(self).steps@ == old(self).steps@.push(vi_step(nan, old(self).secans is Some)),
            final(self).secondary() == secondary_after(
                vi_step(nan, old(self).secans is Some),
                old(self).secondary(),
            ),
    {
        if nan.final_velocity {
            self.steps.push(Step::ViFromDisplacement);
        } else {
            match self.secans {
                Some(n) => {
                    self.steps.push(Step::ViFromVelocityChange { second_root: true });
                    self.secans = Some(n + 1);
                },
                None => {
                    self.steps.push(Step::ViFromVelocityChange { second_root: false });
                },
            }
        }
    }

    /// Solves the final velocity.
    pub fn solvevf(&mut self)
        requires
            old(self).secans matches Some(n) ==> n < usize::MAX - 1,
        ensures
            final(self).steps@ == old(self).steps@.push(vf_step(old(self).secans is Some)),
            final(self).secondary() == secondary_after(
                vf_step(old(self).secans is Some),
                old(self).secondary(),
            ),
    {
        match self.secans {
            Some(n) => {
                self.steps.push(Step::VfFromVelocityChange { second_root: true });
                self.secans = Some(n + 2);
            },
            None => {
                self.steps.push(Step::VfFromVelocityChange { second_root: false });
            },
        }
    }
}


/// Counting the empty fields over a longer prefix never gives fewer.
proof fn lemma_unknown_count_monotone(vals: Seq<String>, j: nat, k: nat)
    requires
        j <= k,
    ensures
        unknown_count(vals, j) <= unknown_count(vals, k),
    decreases k,
{
    if j < k {
        lemma_unknown_count_monotone(vals, j, (k - 1) as nat);
    }
}

/// After `k` positions there are at most `2k` secondary answers.
proof fn lemma_secondary_bound(vals: Seq<String>, f: NanInputs, k: nat)
    ensures
        spec_plan(vals, f, k).1 matches Some(n) ==> n <= 2 * k,
        spec_plan(vals, f, k).0.len() <= k,
    decreases k,
{
    if k > 0 {
        lemma_secondary_bound(vals, f, (k - 1) as nat);
    }
}

impl KinemEquatSolvr {
    /// Decides how to solve the form's fields: exactly two of them must be
    /// empty; the empty ones are then solved in the order acceleration,
    /// displacement, time, initial velocity, final velocity (every position
    /// from the fifth on solves the final velocity again when it is empty).
    /// A field that holds text is taken as known, whatever the text. An
    /// empty field never reads as a number, so its NaN flag is set.
    pub fn fromarr(vals: &[String], nan: NanInputs) -> (res: Result<KinemEquatSolvr, SolveError>)
        requires
            unknown_count(vals@, vals@.len() as nat) <= 255,
            vals@.len() >= 5 || unknown_count(vals@, vals@.len() as nat) != 2,
            vals@.len() <= usize::MAX / 2,
            vals@.len() > 0 && is_unknown(vals@[0]) ==> nan.initial_velocity,
            vals@.len() > 1 && is_unknown(vals@[1]) ==> nan.final_velocity,
            vals@.len() > 3 && is_unknown(vals@[3]) ==> nan.time,
        ensures
            match res {
                Err(e) => {
                    &&& unknown_count(vals@, vals@.len() as nat) != 2
                    &&& (e == SolveError::AllKnown <==> unknown_count(vals@, vals@.len() as nat)
                        == 0)
                },
                Ok(plan) => {
                    &&& unknown_count(vals@, vals@.len() as nat) == 2
                    &&& plan.steps@ == spec_plan(vals@, nan, vals@.len() as nat).0
                    &&& plan.secondary() == spec_plan(vals@, nan, vals@.len() as nat).1
                },
            },
    {
        let mut unknowns: u8 = 0;
        let mut i: usize = 0;
        while i < vals.len()
            invariant
                0 <= i <= vals@.len(),
                unknowns == unknown_count(vals@, i as nat),
                unknown_count(vals@, vals@.len() as nat) <= 255,
            decreases vals@.len() - i,
        {
            proof {
                lemma_unknown_count_monotone(vals@, (i + 1) as nat, vals@.len() as nat);
            }
            if vals[i].as_str().is_empty() {
                unknowns += 1;
            }
            i += 1;
        }
        if unknowns != 2 {
            if unknowns == 0 {
                return Err(SolveError::AllKnown);
            }
            return Err(SolveError::WrongUnknownCount);
        }
        let mut temp = KinemEquatSolvr { steps: Vec::new(), secans: None };
        let mut i: usize = 0;
        while i < vals.len()
            invariant
                0 <= i <= vals@.len(),
                5 <= vals@.len() <= usize::MAX / 2,
                temp.steps@ == spec_plan(vals@, nan, i as nat).0,
                temp.secondary() == spec_plan(vals@, nan, i as nat).1,
            decreases vals@.len() - i,
        {
            let field = convert_idx_order(i);
            if vals[field].as_str().is_empty() {
                proof {
                    lemma_secondary_bound(vals@, nan, i as nat);
                }
                match i {
                    0 => temp.solveacc(nan),
                    1 => temp.solvedx(nan),
                    2 => temp.solvetime(nan),
                    3 => temp.solvevi(nan),
                    _ => temp.solvevf(),
                }
            }
            i += 1;
        }
        Ok(temp)
    }
}


pub open spec fn spec_substitution_line(s: Step) -> Option<Seq<char>> {
    match s {
        Step::AccFromFinalVelocity | Step::DxFromFinalVelocity | Step::TimeQuadraticFinal => Some(
            "&2Substitute values into Δd=v₁t-0.5at² :"@,
        ),
        Step::AccFromInitialVelocity | Step::DxFromInitialVelocity | Step::TimeQuadraticInitial
        | Step::ViFromDisplacement => Some("&2Substitute values into Δd=v₀t+0.5at² :"@),
        Step::AccFromVelocitySquares | Step::DxFromVelocitySquares => Some(
            "&2Substitute values into v₁²=v₀²+2aΔd :"@,
        ),
        Step::AccFromVelocityChange | Step::TimeFromVelocityChange
        | Step::VfFromVelocityChange { .. } => Some("&2Substitute values into v₁=v₀+at :"@),
        Step::ViFromVelocityChange { .. } => None,
    }
}

pub open spec fn spec_solving_line(s: Step) -> Option<Seq<char>> {
    match s {
        Step::AccFromFinalVelocity | Step::AccFromInitialVelocity | Step::AccFromVelocitySquares
        | Step::AccFromVelocityChange => Some("&2Solve for a :"@),
        Step::DxFromVelocitySquares => Some("&2Solve for Δx :"@),
        Step::TimeQuadraticFinal | Step::TimeQuadraticInitial => Some(
            "&2Solve for t using quadratic formula :"@,
        ),
        Step::TimeFromVelocityChange => Some("&2Solve for t :"@),
        Step::ViFromDisplacement => Some("&2Solve for v₀ :"@),
        _ => None,
    }
}

pub open spec fn opt_text(o: Option<String>) -> Option<Seq<char>> {
    match o {
        Some(t) => Some(t@),
        None => None,
    }
}

impl Step {
    /// The worked-solution line that names the equation the values are
    /// substituted into, where the step shows one.
    pub fn substitution_line(&self) -> (line: Option<String>)
        ensures
            opt_text(line) == spec_substitution_line(*self),
    {
        match self {
            Step::AccFromFinalVelocity | Step::DxFromFinalVelocity | Step::TimeQuadraticFinal => Some(
                "&2Substitute values into Δd=v₁t-0.5at² :".to_owned(),
            ),
            Step::AccFromInitialVelocity | Step::DxFromInitialVelocity | Step::TimeQuadraticInitial
            | Step::ViFromDisplacement => Some(
                "&2Substitute values into Δd=v₀t+0.5at² :".to_owned(),
            ),
            Step::AccFromVelocitySquares | Step::DxFromVelocitySquares => Some(
                "&2Substitute values into v₁²=v₀²+2aΔd :".to_owned(),
            ),
            Step::AccFromVelocityChange | Step::TimeFromVelocityChange
            | Step::VfFromVelocityChange { .. } => Some(
                "&2Substitute values into v₁=v₀+at :".to_owned(),
            ),
            Step::ViFromVelocityChange { .. } => None,
        }
    }

    /// The worked-solution line that announces what is solved for, where the
    /// step shows one.
    pub fn solving_line(&self) -> (line: Option<String>)
        ensures
            opt_text(line) == spec_solving_line(*self),
    {
        match self {
            Step::AccFromFinalVelocity | Step::AccFromInitialVelocity | Step::AccFromVelocitySquares
            | Step::AccFromVelocityChange => Some("&2Solve for a :".to_owned()),
            Step::DxFromVelocitySquares => Some("&2Solve for Δx :".to_owned()),
            Step::TimeQuadraticFinal | Step::TimeQuadraticInitial => Some(
                "&2Solve for t using quadratic formula :".to_owned(),
            ),
            Step::TimeFromVelocityChange => Some("&2Solve for t :".to_owned()),
            Step::ViFromDisplacement => Some("&2Solve for v₀ :".to_owned()),
            _ => None,
        }
    }
}

pub open spec fn opt_texts(o: Option<Vec<String>>) -> Option<Seq<String>> {
    match o {
        Some(v) => Some(v@),
        None => None,
    }
}

/// The text of answer field `i` (form order): the primary answer, with the
/// second time root after the time, and the matching second velocity after
/// the final velocity when there are exactly three secondary answers, else
/// after the initial velocity.
pub open spec fn spec_answer_text(answers: Seq<String>, secans: Option<Seq<String>>, i: int) -> Seq<
    char,
> {
    match secans {
        None => answers[i]@,
        Some(v) => if i == 3 {
            answers[3]@ + ", "@ + v[0]@
        } else if i == 1 && v.len() == 3 {
            answers[1]@ + ", "@ + v[2]@
        } else if i == 0 && v.len() != 3 {
            answers[0]@ + ", "@ + v[1]@
        } else {
            answers[i]@
        },
    }
}

/// Lays out the answers as the five field texts, given the printed primary
/// answers (form order) and the printed secondary answers, if any.
pub fn to_str_arr(answers: Vec<String>, secans: Option<Vec<String>>) -> (strs: Vec<String>)
    requires
        answers@.len() == 5,
        secans matches Some(v) ==> v@.len() >= 2,
    ensures
        strs@.len() == 5,
        forall|i: int|
            0 <= i < 5 ==> #[trigger] strs@[i]@ == spec_answer_text(answers@, opt_texts(secans), i),
{
    let mut vistr = answers[0].clone();
    let mut vfstr = answers[1].clone();
    let accstr = answers[2].clone();
    let mut timestr = answers[3].clone();
    let dxstr = answers[4].clone();
    match &secans {
        Some(vector) => {
            timestr.append(", ");
            timestr.append(vector[0].as_str());
            if vector.len() == 3 {
                vfstr.append(", ");
                vfstr.append(vector[2].as_str());
            } else {
                vistr.append(", ");
                vistr.append(vector[1].as_str());
            }
        },
        None => {},
    }
    let mut strs: Vec<String> = Vec::new();
    strs.push(vistr);
    strs.push(vfstr);
    strs.push(accstr);
    strs.push(timestr);
    strs.push(dxstr);
    strs
}


/// The number of empty fields met over the first `k` solving positions.
pub open spec fn unknown_positions(vals: Seq<String>, k: nat) -> nat
    decreases k,
{
    if k == 0 {
        0
    } else {
        unknown_positions(vals, (k - 1) as nat) + if is_unknown(
            vals[spec_convert_idx_order(k - 1)],
        ) {
            1nat
        } else {
            0nat
        }
    }
}

proof fn lemma_step_solves_its_field(field: int, f: NanInputs, secondary: Option<nat>)
    requires
        0 <= field < 5,
    ensures
        solved_field(step_for_field(field, f, secondary)) == field,
{
}

proof fn lemma_plan_prefix(vals: Seq<String>, f: NanInputs, k: nat)
    requires
        k <= 5,
        vals.len() == 5,
    ensures
        spec_plan(vals, f, k).0.len() == unknown_positions(vals, k),
        forall|j: int|
            0 <= j < spec_plan(vals, f, k).0.len() ==> {
                &&& 0 <= #[trigger] spec_solving_position(solved_field(spec_plan(vals, f, k).0[j]))
                    < k
                &&& 0 <= solved_field(spec_plan(vals, f, k).0[j]) < 5
                &&& is_unknown(vals[solved_field(spec_plan(vals, f, k).0[j])])
            },
        forall|j: int, l: int|
            0 <= j < l < spec_plan(vals, f, k).0.len() ==> spec_solving_position(
                solved_field(#[trigger] spec_plan(vals, f, k).0[j]),
            ) < spec_solving_position(solved_field(#[trigger] spec_plan(vals, f, k).0[l])),
        forall|i: int|
            0 <= i < k && is_unknown(vals[spec_convert_idx_order(i)]) ==> exists|j: int|
                0 <= j < spec_plan(vals, f, k).0.len() && solved_field(
                    #[trigger] spec_plan(vals, f, k).0[j],
                ) == spec_convert_idx_order(i),
    decreases k,
{
    if k > 0 {
        let km = (k - 1) as nat;
        lemma_plan_prefix(vals, f, km);
        let prev = spec_plan(vals, f, km);
        let field = spec_convert_idx_order(k - 1);
        lemma_step_solves_its_field(field, f, prev.1);
        let cur = spec_plan(vals, f, k).0;
        if is_unknown(vals[field]) {
            assert forall|j: int| 0 <= j < prev.0.len() implies cur[j] == prev.0[j] by {}
            assert(cur[prev.0.len() as int] == step_for_field(field, f, prev.1));
        }
        assert forall|i: int|
            0 <= i < k && is_unknown(vals[spec_convert_idx_order(i)]) implies exists|j: int|
            0 <= j < cur.len() && solved_field(#[trigger] cur[j]) == spec_convert_idx_order(i) by {
            if i < k - 1 {
                let j = choose|j: int|
                    0 <= j < prev.0.len() && solved_field(#[trigger] prev.0[j])
                        == spec_convert_idx_order(i);
                assert(cur[j] == prev.0[j]);
            } else {
                assert(cur[prev.0.len() as int] == step_for_field(field, f, prev.1));
            }
        }
    }
}

/// On a form of five fields, the plan solves every empty field exactly
/// once and nothing else, in the order acceleration, displacement, time,
/// initial velocity, final velocity.
pub proof fn lemma_plan_solves_the_unknown_fields(vals: Seq<String>, f: NanInputs)
    requires
        vals.len() == 5,
    ensures
        spec_plan(vals, f, 5).0.len() == unknown_count(vals, 5),
        forall|j: int|
            0 <= j < spec_plan(vals, f, 5).0.len() ==> {
                &&& 0 <= #[trigger] solved_field(spec_plan(vals, f, 5).0[j]) < 5
                &&& is_unknown(vals[solved_field(spec_plan(vals, f, 5).0[j])])
            },
        forall|j: int, l: int|
            0 <= j < l < spec_plan(vals, f, 5).0.len() ==> spec_solving_position(
                solved_field(#[trigger] spec_plan(vals, f, 5).0[j]),
            ) < spec_solving_position(solved_field(#[trigger] spec_plan(vals, f, 5).0[l])),
        forall|field: int|
            0 <= field < 5 && is_unknown(#[trigger] vals[field]) ==> exists|j: int|
                0 <= j < spec_plan(vals, f, 5).0.len() && solved_field(
                    #[trigger] spec_plan(vals, f, 5).0[j],
                ) == field,
{
    lemma_plan_prefix(vals, f, 5);
    reveal_with_fuel(unknown_positions, 6);
    reveal_with_fuel(unknown_count, 6);
    assert forall|field: int| 0 <= field < 5 && is_unknown(#[trigger] vals[field]) implies exists|
        j: int,
    |
        0 <= j < spec_plan(vals, f, 5).0.len() && solved_field(#[trigger] spec_plan(vals, f, 5).0[j])
            == field by {
        let i = spec_solving_position(field);
        assert(spec_convert_idx_order(i) == field);
    }
}

/// When the NaN inputs are exactly the empty fields and two of the five
/// fields are empty, a second time root exists only when the time and one
/// velocity are unknown, and it is matched by exactly that velocity's second
/// value: two secondary answers for the initial velocity, three (placeholder
/// included) for the final velocity.
pub proof fn lemma_second_root_pairs_with_unknown_velocity(vals: Seq<String>, f: NanInputs)
    requires
        vals.len() == 5,
        unknown_count(vals, 5) == 2,
        f.initial_velocity == is_unknown(vals[0]),
        f.final_velocity == is_unknown(vals[1]),
        f.time == is_unknown(vals[3]),
    ensures
        spec_plan(vals, f, 5).1 == if is_unknown(vals[3]) && is_unknown(vals[0]) {
            Some(2nat)
        } else if is_unknown(vals[3]) && is_unknown(vals[1]) {
            Some(3nat)
        } else {
            None::<nat>
        },
{
    reveal_with_fuel(unknown_count, 6);
    reveal_with_fuel(spec_plan, 6);
}


/// The NaN flag of a field (form order) that some step's choice looks at.
pub open spec fn nan_flag(f: NanInputs, field: int) -> bool {
    if field == 0 {
        f.initial_velocity
    } else if field == 1 {
        f.final_velocity
    } else {
        f.time
    }
}

/// The fields whose NaN flags decide which equation solves `field`:
/// the acceleration looks at both velocities and the time, the
/// displacement and the time at both velocities, the initial velocity at
/// the final velocity, the final velocity at none.
pub open spec fn decided_by(field: int) -> Set<int> {
    if field == 2 {
        set![0int, 1int, 3int]
    } else if field == 4 || field == 3 {
        set![0int, 1int]
    } else if field == 0 {
        set![1int]
    } else {
        Set::empty()
    }
}

/// Every field whose NaN flag decides a step is solved at a later position
/// than that step, so while the step runs it still holds its parsed value;
/// and the step depends on no flag besides those (and on whether secondary
/// answers exist). Deciding every step from the flags of the parsed inputs
/// is therefore the same as testing the current values step by step.
pub proof fn lemma_steps_read_only_later_fields(field: int, f: NanInputs, g: NanInputs, secondary: Option<nat>)
    requires
        0 <= field < 5,
    ensures
        forall|r: int|
            #[trigger] decided_by(field).contains(r) ==> spec_solving_position(field)
                < spec_solving_position(r) && (r == 0 || r == 1 || r == 3),
        (forall|r: int| #[trigger] decided_by(field).contains(r) ==> nan_flag(f, r) == nan_flag(g, r))
            ==> step_for_field(field, f, secondary) == step_for_field(field, g, secondary),
{
    if forall|r: int| #[trigger] decided_by(field).contains(r) ==> nan_flag(f, r) == nan_flag(g, r) {
        if field == 2 || field == 4 || field == 3 {
            assert(decided_by(field).contains(0));
            assert(decided_by(field).contains(1));
        }
        if field == 2 {
            assert(decided_by(field).contains(3));
        }
        if field == 0 {
            assert(decided_by(field).contains(1));
        }
    }
}

} // verus!
