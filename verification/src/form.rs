use vstd::prelude::*;
use vstd::string::*;

use crate::work::{spec_work, texts, Printed, Solution};
use crate::plan::{
    spec_answer_text, spec_error_message, spec_plan, unknown_count, is_unknown, KinemEquatSolvr, NanInputs, SolveError, Step,
};

verus! {

/// What the form is told: a field was edited, the solve button was pressed,
/// or nothing happened.
pub enum Msg {
    Input(String, u32),
    Enter,
    Idle,
}

/// What the form asks of its host after a message: redraw or not, or run
/// the solver and hand back its outcome through `finish_solve`.
#[derive(PartialEq, Eq, Structural, Clone, Copy, Debug)]
pub enum Update {
    Render(bool),
    Solve,
}

/// The form: five input fields (initial velocity, final velocity,
/// acceleration, time, displacement) and the lines of the worked solution.
pub struct SolverForm {
    inputs: Vec<String>,
    work: Vec<String>,
}

impl View for SolverForm {
    /// The field texts and the worked-solution lines.
    type V = (Seq<Seq<char>>, Seq<Seq<char>>);

    closed spec fn view(&self) -> (Seq<Seq<char>>, Seq<Seq<char>>) {
        (texts(self.inputs@), texts(self.work@))
    }
}

pub open spec fn spec_update(v: (Seq<Seq<char>>, Seq<Seq<char>>), msg: Msg) -> (
    (Seq<Seq<char>>, Seq<Seq<char>>),
    Update,
) {
    match msg {
        Msg::Input(content, idx) => ((v.0.update(idx as int, content@), v.1), Update::Render(false)),
        Msg::Enter => ((v.0, Seq::empty()), Update::Solve),
        Msg::Idle => (v, Update::Render(false)),
    }
}

pub open spec fn spec_finish(
    v: (Seq<Seq<char>>, Seq<Seq<char>>),
    outcome: Result<Solution, SolveError>,
) -> (Seq<Seq<char>>, Seq<Seq<char>>) {
    match outcome {
        Ok(s) => (texts(s.values@), v.1 + texts(s.work@)),
        Err(e) => (v.0, v.1.push(spec_error_message(e))),
    }
}

impl SolverForm {
    /// Five fields of text and a worked solution always stand in the form.
    pub open spec fn wf(&self) -> bool {
        self@.0.len() == 5
    }

    /// The form at start: five empty fields and no worked solution.
    pub fn create() -> (form: Self)
        ensures
            form.wf(),
            forall|i: int| 0 <= i < 5 ==> #[trigger] form@.0[i] == Seq::<char>::empty(),
            form@.1 == Seq::<Seq<char>>::empty(),
    {
        let mut inputs: Vec<String> = Vec::new();
        let mut i: usize = 0;
        while i < 5
            invariant
                0 <= i <= 5,
                inputs@.len() == i,
                forall|j: int| 0 <= j < i ==> #[trigger] inputs@[j]@ == Seq::<char>::empty(),
            decreases 5 - i,
        {
            inputs.push(String::new());
            i += 1;
        }
        let form = SolverForm { inputs, work: Vec::new() };
        assert(form@.1 =~= Seq::<Seq<char>>::empty());
        form
    }

    /// The field texts, in form order.
    pub fn inputs(&self) -> (r: &Vec<String>)
        ensures
            texts(r@) == self@.0,
    {
        &self.inputs
    }

    /// The worked-solution lines.
    pub fn work(&self) -> (r: &Vec<String>)
        ensures
            texts(r@) == self@.1,
    {
        &self.work
    }

    /// Handles a message: an edit replaces one field and asks for no redraw,
    /// the solve button clears the worked solution and asks for a solve,
    /// anything else changes nothing.
    pub fn update(&mut self, msg: Msg) -> (u: Update)
        requires
            old(self).wf(),
            msg matches Msg::Input(_, idx) ==> idx < 5,
        ensures
            final(self).wf(),
            (final(self)@, u) == spec_update(old(self)@, msg),
    {
        match msg {
            Msg::Input(content, idx) => {
                let ghost c = content;
                self.inputs.set(idx as usize, content);
                assert(self@.0 =~= old(self)@.0.update(idx as int, c@));
                Update::Render(false)
            },
            Msg::Enter => {
                self.work = Vec::new();
                assert(self@.1 =~= Seq::<Seq<char>>::empty());
                Update::Solve
            },
            Msg::Idle => Update::Render(false),
        }
    }

    /// Decides how to solve the current fields (see
    /// `KinemEquatSolvr::fromarr`), given which of them parse to NaN.
    pub fn plan_solution(&self, nan: NanInputs) -> (res: Result<KinemEquatSolvr, SolveError>)
        requires
            self.wf(),
            self@.0[0].len() == 0 ==> nan.initial_velocity,
            self@.0[1].len() == 0 ==> nan.final_velocity,
            self@.0[3].len() == 0 ==> nan.time,
        ensures
            match res {
                Err(e) => {
                    &&& unknown_count(self.fields(), 5) != 2
                    &&& (e == SolveError::AllKnown <==> unknown_count(self.fields(), 5) == 0)
                },
                Ok(plan) => {
                    &&& unknown_count(self.fields(), 5) == 2
                    &&& plan.steps@ == spec_plan(self.fields(), nan, 5).0
                    &&& plan.secondary() == spec_plan(self.fields(), nan, 5).1
                },
            },
    {
        proof {
            lemma_at_most_five_unknowns(self.inputs@, 5);
        }
        KinemEquatSolvr::fromarr(self.inputs.as_slice(), nan)
    }

    /// The five fields.
    pub closed spec fn fields(&self) -> Seq<String> {
        self.inputs@
    }

    /// The texts of `fields` are the form's field texts.
    pub proof fn lemma_fields_are_the_field_texts(&self)
        ensures
            texts(self.fields()) == self@.0,
    {
    }

    /// Takes the outcome of a solve: the field texts and worked solution of
    /// a finished solve, or the error's message as a new line; always asks
    /// for a redraw.
    pub fn finish_solve(&mut self, outcome: Result<Solution, SolveError>) -> (render: bool)
        requires
            old(self).wf(),
            outcome matches Ok(s) ==> s.values@.len() == 5,
        ensures
            final(self).wf(),
            final(self)@ == spec_finish(old(self)@, outcome),
            match outcome {
                Ok(s) => final(self).fields() == s.values@,
                Err(_) => final(self).fields() == old(self).fields(),
            },
            render,
    {
        let ghost old_work = self.work@;
        match outcome {
            Ok(s) => {
                let ghost sw = s.work@;
                self.inputs = s.values;
                let mut w = s.work;
                self.work.append(&mut w);
                assert(texts(self.work@) =~= texts(old_work) + texts(sw));
            },
            Err(e) => {
                let m = e.message();
                self.work.push(m);
                assert(texts(self.work@) =~= texts(old_work).push(spec_error_message(e)));
            },
        }
        true
    }
}

proof fn lemma_at_most_five_unknowns(vals: Seq<String>, k: nat)
    requires
        k <= 5,
    ensures
        unknown_count(vals, k) <= k,
    decreases k,
{
    if k > 0 {
        lemma_at_most_five_unknowns(vals, (k - 1) as nat);
    }
}

/// Pressing solve and then handing back the outcome leaves exactly the
/// solve's worked solution, or exactly the error's message, as the lines
/// shown; a finished solve also replaces the five field texts.
pub proof fn lemma_solve_replaces_work(
    v: (Seq<Seq<char>>, Seq<Seq<char>>),
    outcome: Result<Solution, SolveError>,
)
    ensures
        spec_finish(spec_update(v, Msg::Enter).0, outcome) == match outcome {
            Ok(s) => (texts(s.values@), texts(s.work@)),
            Err(e) => (v.0, seq![spec_error_message(e)]),
        },
{
    match outcome {
        Ok(s) => {
            assert(Seq::<Seq<char>>::empty() + texts(s.work@) =~= texts(s.work@));
        },
        Err(e) => {
            assert(Seq::<Seq<char>>::empty().push(spec_error_message(e)) =~= seq![
                spec_error_message(e),
            ]);
        },
    }
}

/// An edit of field `idx` changes that field to the new text and nothing
/// else, neither the other fields nor the worked solution.
pub proof fn lemma_input_touches_one_field(
    v: (Seq<Seq<char>>, Seq<Seq<char>>),
    content: String,
    idx: u32,
)
    requires
        v.0.len() == 5,
        idx < 5,
    ensures
        spec_update(v, Msg::Input(content, idx)).0.0[idx as int] == content@,
        forall|i: int|
            0 <= i < 5 && i != idx ==> #[trigger] spec_update(v, Msg::Input(content, idx)).0.0[i]
                == v.0[i],
        spec_update(v, Msg::Input(content, idx)).0.0.len() == 5,
        spec_update(v, Msg::Input(content, idx)).0.1 == v.1,
{
}


/// The field texts that a solve lays out from its printed answers.
pub open spec fn solved_fields(answers: Seq<String>, secans: Option<Seq<String>>) -> Seq<Seq<char>> {
    Seq::new(5, |i: int| spec_answer_text(answers, secans, i))
}

/// Pressing solve on a form whose plan succeeded, then handing back the
/// solution built from that plan (`KinemEquatSolvr::solution`), leaves the
/// fields laid out by `to_str_arr` and exactly the plan's worked solution:
/// the previous lines are discarded.
pub proof fn lemma_enter_shows_the_solution(
    v: (Seq<Seq<char>>, Seq<Seq<char>>),
    sol: Solution,
    steps: Seq<Step>,
    printed: Seq<Printed>,
    answers: Seq<String>,
    secans: Option<Seq<String>>,
)
    requires
        sol.values@.len() == 5,
        forall|i: int|
            0 <= i < 5 ==> #[trigger] sol.values@[i]@ == spec_answer_text(answers, secans, i),
        texts(sol.work@) == spec_work(steps, printed, steps.len()),
    ensures
        spec_finish(spec_update(v, Msg::Enter).0, Ok(sol)) == (
            solved_fields(answers, secans),
            spec_work(steps, printed, steps.len()),
        ),
{
    lemma_solve_replaces_work(v, Ok(sol));
    assert(texts(sol.values@) =~= solved_fields(answers, secans));
}

/// Once a solve has filled the fields from printed answers (never empty),
/// no field is empty: solving again is refused as all known, the worked
/// solution becomes that one message and the fields stay as they are.
pub proof fn lemma_solved_form_refuses_resolve(
    values: Seq<String>,
    answers: Seq<String>,
    secans: Option<Seq<String>>,
    work: Seq<Seq<char>>,
)
    requires
        values.len() == 5,
        answers.len() == 5,
        forall|i: int| 0 <= i < 5 ==> (#[trigger] answers[i])@.len() > 0,
        forall|i: int| 0 <= i < 5 ==> #[trigger] values[i]@ == spec_answer_text(answers, secans, i),
    ensures
        unknown_count(values, 5) == 0,
        spec_finish(spec_update((texts(values), work), Msg::Enter).0, Err(SolveError::AllKnown)) == (
            texts(values),
            seq![spec_error_message(SolveError::AllKnown)],
        ),
{
    assert forall|i: int| 0 <= i < 5 implies !is_unknown(#[trigger] values[i]) by {
        assert(answers[i]@.len() > 0);
        assert(values[i]@.len() >= answers[i]@.len());
    }
    assert(!is_unknown(values[0]));
    assert(!is_unknown(values[1]));
    assert(!is_unknown(values[2]));
    assert(!is_unknown(values[3]));
    assert(!is_unknown(values[4]));
    reveal_with_fuel(unknown_count, 6);
    lemma_solve_replaces_work((texts(values), work), Err(SolveError::AllKnown));
}

} // verus!
