use vstd::prelude::*;
use vstd::string::*;

use crate::lines::is_marked;
use crate::plan::{
    secondary_after, solved_field, is_unknown,
    opt_texts, spec_answer_text, spec_plan, spec_solving_line, spec_substitution_line,
    to_str_arr, unknown_count, KinemEquatSolvr, NanInputs, Step,
};

verus! {

pub open spec fn texts(s: Seq<String>) -> Seq<Seq<char>> {
    s.map_values(|t: String| t@)
}

/// The printed numbers one step shows: the five quantities as they stand
/// before the step, half the acceleration (for the quadratic formula), the
/// value the step solves for and, where the step has one, its second value.
pub struct Printed {
    pub vi: String,
    pub vf: String,
    pub acc: String,
    pub time: String,
    pub dx: String,
    pub half_acc: String,
    pub answer: String,
    pub second: String,
}

/// A finished solve: the five field texts and the worked-solution lines.
pub struct Solution {
    pub values: Vec<String>,
    pub work: Vec<String>,
}

/// The worked-solution lines of one step: its equation heading, the values
/// substituted, its solving heading and rearrangements, and last the
/// answer marked `&3`.
pub open spec fn spec_step_lines(s: Step, p: Printed) -> Seq<Seq<char>> {
    match s {
        Step::AccFromFinalVelocity => seq![
            spec_substitution_line(s).unwrap(),
            p.dx@ + "="@ + p.vf@ + "*"@ + p.time@ + "-0.5*a*"@ + p.time@ + "*"@ + p.time@,
            spec_solving_line(s).unwrap(),
            "a=("@ + p.dx@ + "-"@ + p.vf@ + "*"@ + p.time@ + ")/(-0.5*"@ + p.time@ + "*"@ + p.time@ + ")"@,
            "&3a="@ + p.answer@,
        ],
        Step::AccFromInitialVelocity => seq![
            spec_substitution_line(s).unwrap(),
            p.dx@ + "="@ + p.vi@ + "*"@ + p.time@ + "+0.5*a*"@ + p.time@ + "*"@ + p.time@,
            spec_solving_line(s).unwrap(),
            "a=("@ + p.dx@ + "-"@ + p.vi@ + "*"@ + p.time@ + ")/(0.5*"@ + p.time@ + "*"@ + p.time@ + ")"@,
            "&3a="@ + p.answer@,
        ],
        Step::AccFromVelocitySquares => seq![
            spec_substitution_line(s).unwrap(),
            p.vf@ + "*"@ + p.vf@ + "="@ + p.vi@ + "*"@ + p.vi@ + "+2*a*"@ + p.dx@,
            spec_solving_line(s).unwrap(),
            "a=("@ + p.vf@ + "*"@ + p.vf@ + "-"@ + p.vi@ + "*"@ + p.vi@ + ")/(2*"@ + p.dx@ + ")"@,
            "&3a="@ + p.answer@,
        ],
        Step::AccFromVelocityChange => seq![
            spec_substitution_line(s).unwrap(),
            p.vf@ + "="@ + p.vi@ + "+a*"@ + p.time@,
            spec_solving_line(s).unwrap(),
            "a=("@ + p.vf@ + "-"@ + p.vi@ + ")/"@ + p.time@,
            "&3a="@ + p.answer@,
        ],
        Step::DxFromFinalVelocity => seq![
            spec_substitution_line(s).unwrap(),
            "Δx="@ + p.vf@ + "*"@ + p.time@ + "-0.5*"@ + p.acc@ + "*"@ + p.time@ + "*"@ + p.time@,
            "&3Δx="@ + p.answer@,
        ],
        Step::DxFromInitialVelocity => seq![
            spec_substitution_line(s).unwrap(),
            "Δx="@ + p.vf@ + "*"@ + p.time@ + "+0.5*"@ + p.acc@ + "*"@ + p.time@ + "*"@ + p.time@,
            "&3Δx="@ + p.answer@,
        ],
        Step::DxFromVelocitySquares => seq![
            spec_substitution_line(s).unwrap(),
            p.vf@ + "*"@ + p.vf@ + "="@ + p.vi@ + "*"@ + p.vi@ + "+2*"@ + p.acc@ + "*Δd"@,
            spec_solving_line(s).unwrap(),
            "Δx=("@ + p.vf@ + "*"@ + p.vf@ + "-"@ + p.vi@ + "*"@ + p.vi@ + ")/(2*"@ + p.acc@ + ")"@,
            "&3Δx="@ + p.answer@,
        ],
        Step::TimeQuadraticFinal => seq![
            spec_substitution_line(s).unwrap(),
            p.dx@ + "="@ + p.vf@ + "*t-0.5*"@ + p.acc@ + "*t*t"@,
            spec_solving_line(s).unwrap(),
            "0="@ + p.half_acc@ + "t²-"@ + p.vf@ + "t+"@ + p.dx@,
            "t=("@ + p.vf@ + "+-√("@ + p.vf@ + "*"@ + p.vf@ + "-4*"@ + p.half_acc@ + "*"@ + p.dx@ + "))/(2*"@ + p.half_acc@ + ")"@,
            "&3t="@ + p.answer@ + ", "@ + p.second@,
        ],
        Step::TimeQuadraticInitial => seq![
            spec_substitution_line(s).unwrap(),
            p.dx@ + "="@ + p.vi@ + "*t+0.5*"@ + p.acc@ + "*t*t"@,
            spec_solving_line(s).unwrap(),
            "0="@ + p.half_acc@ + "t²+"@ + p.vi@ + "t-"@ + p.dx@,
            "t=(-"@ + p.vi@ + "+-√("@ + p.vi@ + "*"@ + p.vi@ + "+4*"@ + p.half_acc@ + "*"@ + p.dx@ + "))/(2*"@ + p.half_acc@ + ")"@,
            "&3t="@ + p.answer@ + ", "@ + p.second@,
        ],
        Step::TimeFromVelocityChange => seq![
            spec_substitution_line(s).unwrap(),
            p.vf@ + "="@ + p.vi@ + "+"@ + p.acc@ + "*t"@,
            spec_solving_line(s).unwrap(),
            "t=("@ + p.vf@ + "-"@ + p.vi@ + ")/"@ + p.acc@,
            "&3t="@ + p.answer@,
        ],
        Step::ViFromDisplacement => seq![
            spec_substitution_line(s).unwrap(),
            p.dx@ + "=v₀*"@ + p.time@ + "+0.5*"@ + p.acc@ + "*"@ + p.time@ + "*"@ + p.time@,
            spec_solving_line(s).unwrap(),
            "v₀=(0.5*"@ + p.acc@ + "*"@ + p.time@ + "*"@ + p.time@ + "-"@ + p.dx@ + ")/"@ + p.time@,
            "&3v₀="@ + p.answer@,
        ],
        Step::ViFromVelocityChange { second_root } => if second_root {
            seq![
                "&3v₀="@ + p.answer@ + ", "@ + p.second@,
            ]
        } else {
            seq![
                "&3v₀="@ + p.answer@,
            ]
        },
        Step::VfFromVelocityChange { second_root } => if second_root {
            seq![
                spec_substitution_line(s).unwrap(),
                "v₁="@ + p.vi@ + "+"@ + p.acc@ + "*"@ + p.time@,
                "&3v₀="@ + p.answer@ + ", "@ + p.second@,
            ]
        } else {
            seq![
                spec_substitution_line(s).unwrap(),
                "v₁="@ + p.vi@ + "+"@ + p.acc@ + "*"@ + p.time@,
                "&3v₁="@ + p.answer@,
            ]
        },
    }
}

impl Step {
    /// The worked-solution lines of this step, from its printed numbers.
    pub fn work_lines(&self, p: &Printed) -> (lines: Vec<String>)
        ensures
            texts(lines@) == spec_step_lines(*self, *p),
    {
        let mut lines: Vec<String> = Vec::new();
        match self {
            Step::AccFromFinalVelocity => {
                lines.push(self.substitution_line().unwrap());
                lines.push(p.dx.clone().concat("=").concat(p.vf.as_str()).concat("*").concat(p.time.as_str()).concat("-0.5*a*").concat(p.time.as_str()).concat("*").concat(p.time.as_str()));
                lines.push(self.solving_line().unwrap());
                lines.push("a=(".to_owned().concat(p.dx.as_str()).concat("-").concat(p.vf.as_str()).concat("*").concat(p.time.as_str()).concat(")/(-0.5*").concat(p.time.as_str()).concat("*").concat(p.time.as_str()).concat(")"));
                lines.push("&3a=".to_owned().concat(p.answer.as_str()));
            },
            Step::AccFromInitialVelocity => {
                lines.push(self.substitution_line().unwrap());
                lines.push(p.dx.clone().concat("=").concat(p.vi.as_str()).concat("*").concat(p.time.as_str()).concat("+0.5*a*").concat(p.time.as_str()).concat("*").concat(p.time.as_str()));
                lines.push(self.solving_line().unwrap());
                lines.push("a=(".to_owned().concat(p.dx.as_str()).concat("-").concat(p.vi.as_str()).concat("*").concat(p.time.as_str()).concat(")/(0.5*").concat(p.time.as_str()).concat("*").concat(p.time.as_str()).concat(")"));
                lines.push("&3a=".to_owned().concat(p.answer.as_str()));
            },
            Step::AccFromVelocitySquares => {
                lines.push(self.substitution_line().unwrap());
                lines.push(p.vf.clone().concat("*").concat(p.vf.as_str()).concat("=").concat(p.vi.as_str()).concat("*").concat(p.vi.as_str()).concat("+2*a*").concat(p.dx.as_str()));
                lines.push(self.solving_line().unwrap());
                lines.push("a=(".to_owned().concat(p.vf.as_str()).concat("*").concat(p.vf.as_str()).concat("-").concat(p.vi.as_str()).concat("*").concat(p.vi.as_str()).concat(")/(2*").concat(p.dx.as_str()).concat(")"));
                lines.push("&3a=".to_owned().concat(p.answer.as_str()));
            },
            Step::AccFromVelocityChange => {
                lines.push(self.substitution_line().unwrap());
                lines.push(p.vf.clone().concat("=").concat(p.vi.as_str()).concat("+a*").concat(p.time.as_str()));
                lines.push(self.solving_line().unwrap());
                lines.push("a=(".to_owned().concat(p.vf.as_str()).concat("-").concat(p.vi.as_str()).concat(")/").concat(p.time.as_str()));
                lines.push("&3a=".to_owned().concat(p.answer.as_str()));
            },
            Step::DxFromFinalVelocity => {
                lines.push(self.substitution_line().unwrap());
                lines.push("Δx=".to_owned().concat(p.vf.as_str()).concat("*").concat(p.time.as_str()).concat("-0.5*").concat(p.acc.as_str()).concat("*").concat(p.time.as_str()).concat("*").concat(p.time.as_str()));
                lines.push("&3Δx=".to_owned().concat(p.answer.as_str()));
            },
            Step::DxFromInitialVelocity => {
                lines.push(self.substitution_line().unwrap());
                lines.push("Δx=".to_owned().concat(p.vf.as_str()).concat("*").concat(p.time.as_str()).concat("+0.5*").concat(p.acc.as_str()).concat("*").concat(p.time.as_str()).concat("*").concat(p.time.as_str()));
                lines.push("&3Δx=".to_owned().concat(p.answer.as_str()));
            },
            Step::DxFromVelocitySquares => {
                lines.push(self.substitution_line().unwrap());
                lines.push(p.vf.clone().concat("*").concat(p.vf.as_str()).concat("=").concat(p.vi.as_str()).concat("*").concat(p.vi.as_str()).concat("+2*").concat(p.acc.as_str()).concat("*Δd"));
                lines.push(self.solving_line().unwrap());
                lines.push("Δx=(".to_owned().concat(p.vf.as_str()).concat("*").concat(p.vf.as_str()).concat("-").concat(p.vi.as_str()).concat("*").concat(p.vi.as_str()).concat(")/(2*").concat(p.acc.as_str()).concat(")"));
                lines.push("&3Δx=".to_owned().concat(p.answer.as_str()));
            },
            Step::TimeQuadraticFinal => {
                lines.push(self.substitution_line().unwrap());
                lines.push(p.dx.clone().concat("=").concat(p.vf.as_str()).concat("*t-0.5*").concat(p.acc.as_str()).concat("*t*t"));
                lines.push(self.solving_line().unwrap());
                lines.push("0=".to_owned().concat(p.half_acc.as_str()).concat("t²-").concat(p.vf.as_str()).concat("t+").concat(p.dx.as_str()));
                lines.push("t=(".to_owned().concat(p.vf.as_str()).concat("+-√(").concat(p.vf.as_str()).concat("*").concat(p.vf.as_str()).concat("-4*").concat(p.half_acc.as_str()).concat("*").concat(p.dx.as_str()).concat("))/(2*").concat(p.half_acc.as_str()).concat(")"));
                lines.push("&3t=".to_owned().concat(p.answer.as_str()).concat(", ").concat(p.second.as_str()));
            },
            Step::TimeQuadraticInitial => {
                lines.push(self.substitution_line().unwrap());
                lines.push(p.dx.clone().concat("=").concat(p.vi.as_str()).concat("*t+0.5*").concat(p.acc.as_str()).concat("*t*t"));
                lines.push(self.solving_line().unwrap());
                lines.push("0=".to_owned().concat(p.half_acc.as_str()).concat("t²+").concat(p.vi.as_str()).concat("t-").concat(p.dx.as_str()));
                lines.push("t=(-".to_owned().concat(p.vi.as_str()).concat("+-√(").concat(p.vi.as_str()).concat("*").concat(p.vi.as_str()).concat("+4*").concat(p.half_acc.as_str()).concat("*").concat(p.dx.as_str()).concat("))/(2*").concat(p.half_acc.as_str()).concat(")"));
                lines.push("&3t=".to_owned().concat(p.answer.as_str()).concat(", ").concat(p.second.as_str()));
            },
            Step::TimeFromVelocityChange => {
                lines.push(self.substitution_line().unwrap());
                lines.push(p.vf.clone().concat("=").concat(p.vi.as_str()).concat("+").concat(p.acc.as_str()).concat("*t"));
                lines.push(self.solving_line().unwrap());
                lines.push("t=(".to_owned().concat(p.vf.as_str()).concat("-").concat(p.vi.as_str()).concat(")/").concat(p.acc.as_str()));
                lines.push("&3t=".to_owned().concat(p.answer.as_str()));
            },
            Step::ViFromDisplacement => {
                lines.push(self.substitution_line().unwrap());
                lines.push(p.dx.clone().concat("=v₀*").concat(p.time.as_str()).concat("+0.5*").concat(p.acc.as_str()).concat("*").concat(p.time.as_str()).concat("*").concat(p.time.as_str()));
                lines.push(self.solving_line().unwrap());
                lines.push("v₀=(0.5*".to_owned().concat(p.acc.as_str()).concat("*").concat(p.time.as_str()).concat("*").concat(p.time.as_str()).concat("-").concat(p.dx.as_str()).concat(")/").concat(p.time.as_str()));
                lines.push("&3v₀=".to_owned().concat(p.answer.as_str()));
            },
            Step::ViFromVelocityChange { second_root } => {
                if *second_root {
                    lines.push("&3v₀=".to_owned().concat(p.answer.as_str()).concat(", ").concat(p.second.as_str()));
                } else {
                    lines.push("&3v₀=".to_owned().concat(p.answer.as_str()));
                }
            },
            Step::VfFromVelocityChange { second_root } => {
                if *second_root {
                    lines.push(self.substitution_line().unwrap());
                    lines.push("v₁=".to_owned().concat(p.vi.as_str()).concat("+").concat(p.acc.as_str()).concat("*").concat(p.time.as_str()));
                    lines.push("&3v₀=".to_owned().concat(p.answer.as_str()).concat(", ").concat(p.second.as_str()));
                } else {
                    lines.push(self.substitution_line().unwrap());
                    lines.push("v₁=".to_owned().concat(p.vi.as_str()).concat("+").concat(p.acc.as_str()).concat("*").concat(p.time.as_str()));
                    lines.push("&3v₁=".to_owned().concat(p.answer.as_str()));
                }
            },
        }
        assert(texts(lines@) =~= spec_step_lines(*self, *p));
        lines
    }
}

/// The worked solution of the first `k` steps, one step after the other.
pub open spec fn spec_work(steps: Seq<Step>, printed: Seq<Printed>, k: nat) -> Seq<Seq<char>>
    decreases k,
{
    if k == 0 {
        Seq::empty()
    } else {
        spec_work(steps, printed, (k - 1) as nat) + spec_step_lines(steps[k - 1], printed[k - 1])
    }
}

impl KinemEquatSolvr {
    /// The outcome of the solve: the field texts laid out by `to_str_arr`
    /// from the printed answers, and the worked solution of every step from
    /// that step's printed numbers.
    pub fn solution(&self, printed: &Vec<Printed>, answers: Vec<String>, secans: Option<Vec<String>>) -> (sol: Solution)
        requires
            printed@.len() == self.steps@.len(),
            answers@.len() == 5,
            secans matches Some(v) ==> v@.len() >= 2,
            printing_consistent(self.steps@, printed@, answers@, opt_texts(secans)),
        ensures
            sol.values@.len() == 5,
            forall|i: int|
                0 <= i < 5 ==> #[trigger] sol.values@[i]@ == spec_answer_text(
                    answers@,
                    opt_texts(secans),
                    i,
                ),
            texts(sol.work@) == spec_work(self.steps@, printed@, self.steps@.len() as nat),
    {
        let values = to_str_arr(answers, secans);
        let mut work: Vec<String> = Vec::new();
        let mut i: usize = 0;
        while i < self.steps.len()
            invariant
                0 <= i <= self.steps@.len(),
                printed@.len() == self.steps@.len(),
                texts(work@) == spec_work(self.steps@, printed@, i as nat),
            decreases self.steps@.len() - i,
        {
            let ghost before = work@;
            let mut lines = self.steps[i].work_lines(&printed[i]);
            let ghost added = lines@;
            work.append(&mut lines);
            assert(texts(work@) =~= texts(before) + texts(added));
            i += 1;
        }
        Solution { values, work }
    }
}

/// A line that a worked solution may hold: unmarked, or marked `&2`
/// (heading) or `&3` (answer), so that its marker can be cut off.
pub open spec fn line_ok(l: Seq<char>) -> bool {
    is_marked(l) ==> l.len() >= 2 && (l[1] == '2' || l[1] == '3')
}

pub open spec fn is_answer_line(l: Seq<char>) -> bool {
    l.len() >= 2 && l[0] == '&' && l[1] == '3'
}

/// A printed number is never empty and never starts with `&`.
pub open spec fn printed_ok(t: Seq<char>) -> bool {
    t.len() > 0 && t[0] != '&'
}

pub open spec fn all_printed_ok(p: Printed) -> bool {
    &&& printed_ok(p.vi@)
    &&& printed_ok(p.vf@)
    &&& printed_ok(p.acc@)
    &&& printed_ok(p.time@)
    &&& printed_ok(p.dx@)
    &&& printed_ok(p.half_acc@)
    &&& printed_ok(p.answer@)
    &&& printed_ok(p.second@)
}

/// Every step shows at least one line, each line is unmarked or marked
/// `&2`/`&3`, and the last line is the answer, marked `&3`.
#[verifier::rlimit(50)]
pub proof fn lemma_step_lines_shape(s: Step, p: Printed)
    requires
        all_printed_ok(p),
    ensures
        spec_step_lines(s, p).len() > 0,
        is_answer_line(spec_step_lines(s, p).last()),
        forall|j: int| 0 <= j < spec_step_lines(s, p).len() ==> line_ok(#[trigger] spec_step_lines(s, p)[j]),
{
    reveal_strlit("&3a=");
    reveal_strlit("&3t=");
    reveal_strlit("&3v₀=");
    reveal_strlit("&3v₁=");
    reveal_strlit("&3Δx=");
    reveal_strlit("0=");
    reveal_strlit("a=(");
    reveal_strlit("t=(");
    reveal_strlit("t=(-");
    reveal_strlit("v₀=(0.5*");
    reveal_strlit("v₁=");
    reveal_strlit("Δx=");
    reveal_strlit("Δx=(");
    reveal_strlit("&2Substitute values into Δd=v₁t-0.5at² :");
    reveal_strlit("&2Substitute values into Δd=v₀t+0.5at² :");
    reveal_strlit("&2Substitute values into v₁²=v₀²+2aΔd :");
    reveal_strlit("&2Substitute values into v₁=v₀+at :");
    reveal_strlit("&2Solve for a :");
    reveal_strlit("&2Solve for Δx :");
    reveal_strlit("&2Solve for t using quadratic formula :");
    reveal_strlit("&2Solve for t :");
    reveal_strlit("&2Solve for v₀ :");
}

/// The same holds of a whole worked solution of one step or more.
pub proof fn lemma_work_shape(steps: Seq<Step>, printed: Seq<Printed>, k: nat)
    requires
        1 <= k <= steps.len(),
        k <= printed.len(),
        forall|j: int| 0 <= j < k ==> all_printed_ok(#[trigger] printed[j]),
    ensures
        spec_work(steps, printed, k).len() > 0,
        is_answer_line(spec_work(steps, printed, k).last()),
        forall|j: int|
            0 <= j < spec_work(steps, printed, k).len() ==> line_ok(
                #[trigger] spec_work(steps, printed, k)[j],
            ),
    decreases k,
{
    let last = spec_step_lines(steps[k - 1], printed[k - 1]);
    lemma_step_lines_shape(steps[k - 1], printed[k - 1]);
    let prev = spec_work(steps, printed, (k - 1) as nat);
    if k > 1 {
        lemma_work_shape(steps, printed, (k - 1) as nat);
    }
    let w = spec_work(steps, printed, k);
    assert(w == prev + last);
    assert forall|j: int| 0 <= j < w.len() implies line_ok(#[trigger] w[j]) by {
        if j < prev.len() {
            assert(w[j] == prev[j]);
        } else {
            assert(w[j] == last[j - prev.len()]);
        }
    }
    assert(w.last() == last.last());
}

/// A solve of a five-field form (two unknowns, so two steps) shows a
/// non-empty worked solution whose lines are all unmarked or marked
/// `&2`/`&3` and whose last line is an answer marked `&3`.
pub proof fn lemma_solved_work_shape(vals: Seq<String>, f: NanInputs, printed: Seq<Printed>)
    requires
        vals.len() == 5,
        unknown_count(vals, 5) == 2,
        printed.len() == 2,
        forall|j: int| 0 <= j < 2 ==> all_printed_ok(#[trigger] printed[j]),
    ensures
        spec_plan(vals, f, 5).0.len() == 2,
        spec_work(spec_plan(vals, f, 5).0, printed, 2).len() > 0,
        is_answer_line(spec_work(spec_plan(vals, f, 5).0, printed, 2).last()),
        forall|j: int|
            0 <= j < spec_work(spec_plan(vals, f, 5).0, printed, 2).len() ==> line_ok(
                #[trigger] spec_work(spec_plan(vals, f, 5).0, printed, 2)[j],
            ),
{
    crate::plan::lemma_plan_solves_the_unknown_fields(vals, f);
    lemma_work_shape(spec_plan(vals, f, 5).0, printed, 2);
}


/// The number of secondary answers after the first `k` steps.
pub open spec fn secondary_upto(steps: Seq<Step>, k: nat) -> Option<nat>
    decreases k,
{
    if k == 0 {
        None
    } else {
        secondary_after(steps[k - 1], secondary_upto(steps, (k - 1) as nat))
    }
}

/// Step `k` shows the numbers that the fields show: its answer is the
/// printed answer of the field it solves, and its second value is the
/// secondary answer it creates (the second time root is the first entry; a
/// velocity's second value is the entry it adds, after the placeholder for
/// the final velocity).
pub open spec fn step_printing_consistent(
    steps: Seq<Step>,
    printed: Seq<Printed>,
    answers: Seq<String>,
    secans: Option<Seq<String>>,
    k: int,
) -> bool {
    let s = steps[k];
    let p = printed[k];
    &&& answers[solved_field(s)]@ == p.answer@
    &&& match s {
        Step::TimeQuadraticFinal | Step::TimeQuadraticInitial => secans matches Some(v) && v.len()
            > 0 && v[0]@ == p.second@,
        Step::ViFromVelocityChange { second_root: true } => secondary_upto(steps, k as nat) matches Some(
            n,
        ) ==> (secans matches Some(v) && n < v.len() && v[n as int]@ == p.second@),
        Step::VfFromVelocityChange { second_root: true } => secondary_upto(steps, k as nat) matches Some(
            n,
        ) ==> (secans matches Some(v) && n + 1 < v.len() && v[n + 1int]@ == p.second@),
        _ => true,
    }
}

/// The printed numbers of the steps and of the fields come from the same
/// values: each step agrees with the fields, and there are as many secondary
/// answers as the steps create.
pub open spec fn printing_consistent(
    steps: Seq<Step>,
    printed: Seq<Printed>,
    answers: Seq<String>,
    secans: Option<Seq<String>>,
) -> bool {
    &&& match (secondary_upto(steps, steps.len()), secans) {
        (None, None) => true,
        (Some(n), Some(v)) => v.len() == n,
        _ => false,
    }
    &&& forall|k: int|
        0 <= k < steps.len() ==> #[trigger] step_printing_consistent(
            steps,
            printed,
            answers,
            secans,
            k,
        )
}

/// The label of a step's answer line.
pub open spec fn answer_label(s: Step) -> Seq<char> {
    match s {
        Step::AccFromFinalVelocity | Step::AccFromInitialVelocity | Step::AccFromVelocitySquares
        | Step::AccFromVelocityChange => "&3a="@,
        Step::DxFromFinalVelocity | Step::DxFromInitialVelocity | Step::DxFromVelocitySquares => "&3Δx="@,
        Step::TimeQuadraticFinal | Step::TimeQuadraticInitial | Step::TimeFromVelocityChange => "&3t="@,
        Step::ViFromDisplacement | Step::ViFromVelocityChange { .. } => "&3v₀="@,
        Step::VfFromVelocityChange { second_root } => if second_root {
            "&3v₀="@
        } else {
            "&3v₁="@
        },
    }
}

/// Whether a step shows a second value after its answer.
pub open spec fn shows_second(s: Step) -> bool {
    match s {
        Step::TimeQuadraticFinal | Step::TimeQuadraticInitial => true,
        Step::ViFromVelocityChange { second_root } => second_root,
        Step::VfFromVelocityChange { second_root } => second_root,
        _ => false,
    }
}

/// A step's last line is its label, its answer and, where it has one,
/// `, ` and its second value.
pub proof fn lemma_answer_line(s: Step, p: Printed)
    ensures
        spec_step_lines(s, p).last() == answer_label(s) + p.answer@ + if shows_second(s) {
            ", "@ + p.second@
        } else {
            Seq::<char>::empty()
        },
{
    assert(p.answer@ + Seq::<char>::empty() =~= p.answer@);
    assert(answer_label(s) + p.answer@ + Seq::<char>::empty() =~= answer_label(s) + p.answer@);
    assert(answer_label(s) + p.answer@ + (", "@ + p.second@) =~= answer_label(s) + p.answer@ + ", "@
        + p.second@);
}

proof fn lemma_plan_secondary_upto(vals: Seq<String>, f: NanInputs, k: nat)
    ensures
        spec_plan(vals, f, k).1 == secondary_upto(spec_plan(vals, f, k).0, spec_plan(vals, f, k).0.len()),
        forall|j: nat|
            j <= spec_plan(vals, f, k).0.len() ==> #[trigger] secondary_upto(spec_plan(vals, f, k).0, j)
                == secondary_upto(spec_plan(vals, f, (k + 1) as nat).0, j),
    decreases k,
{
    let cur = spec_plan(vals, f, k).0;
    let next = spec_plan(vals, f, (k + 1) as nat).0;
    assert forall|j: nat| j <= cur.len() implies #[trigger] secondary_upto(cur, j) == secondary_upto(next, j) by {
        lemma_secondary_upto_prefix(cur, next, j);
    }
    if k > 0 {
        lemma_plan_secondary_upto(vals, f, (k - 1) as nat);
        let prev = spec_plan(vals, f, (k - 1) as nat).0;
        if cur.len() > prev.len() {
            assert(secondary_upto(cur, prev.len()) == secondary_upto(prev, prev.len()));
            assert(cur[cur.len() - 1] == cur.last());
        }
    }
}

proof fn lemma_secondary_upto_prefix(a: Seq<Step>, b: Seq<Step>, j: nat)
    requires
        j <= a.len(),
        j <= b.len(),
        forall|i: int| 0 <= i < j ==> a[i] == b[i],
    ensures
        secondary_upto(a, j) == secondary_upto(b, j),
    decreases j,
{
    if j > 0 {
        lemma_secondary_upto_prefix(a, b, (j - 1) as nat);
    }
}

/// On a five-field solve whose NaN inputs are exactly the empty fields, and
/// whose printed numbers come from the same values, each step's answer line
/// shows exactly what the field it solves shows, after the line's label:
/// the answer and, for the time and a velocity paired with the second time
/// root, the second value.
#[verifier::rlimit(100)]
pub proof fn lemma_answer_lines_match_fields(
    vals: Seq<String>,
    f: NanInputs,
    printed: Seq<Printed>,
    answers: Seq<String>,
    secans: Option<Seq<String>>,
)
    requires
        vals.len() == 5,
        unknown_count(vals, 5) == 2,
        f.initial_velocity == is_unknown(vals[0]),
        f.final_velocity == is_unknown(vals[1]),
        f.time == is_unknown(vals[3]),
        printed.len() == 2,
        answers.len() == 5,
        printing_consistent(spec_plan(vals, f, 5).0, printed, answers, secans),
    ensures
        forall|k: int|
            0 <= k < 2 ==> spec_step_lines(spec_plan(vals, f, 5).0[k], printed[k]).last()
                == answer_label(spec_plan(vals, f, 5).0[k]) + #[trigger] spec_answer_text(
                answers,
                secans,
                solved_field(spec_plan(vals, f, 5).0[k]),
            ),
{
    let steps = spec_plan(vals, f, 5).0;
    crate::plan::lemma_plan_solves_the_unknown_fields(vals, f);
    crate::plan::lemma_second_root_pairs_with_unknown_velocity(vals, f);
    lemma_plan_secondary_upto(vals, f, 5);
    reveal_with_fuel(spec_plan, 6);
    reveal_with_fuel(unknown_count, 6);
    assert(step_printing_consistent(steps, printed, answers, secans, 0));
    assert(step_printing_consistent(steps, printed, answers, secans, 1));
    assert forall|k: int| 0 <= k < 2 implies spec_step_lines(steps[k], printed[k]).last()
        == answer_label(steps[k]) + #[trigger] spec_answer_text(answers, secans, solved_field(steps[k])) by {
        lemma_answer_line(steps[k], printed[k]);
        let p = printed[k];
        let lbl = answer_label(steps[k]);
        assert(lbl + p.answer@ + (", "@ + p.second@) =~= lbl + (p.answer@ + ", "@ + p.second@));
        assert(lbl + p.answer@ + Seq::<char>::empty() =~= lbl + p.answer@);
    }
}

} // verus!
