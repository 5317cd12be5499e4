use kinematics_solver::{
    classify_work_line, convert_idx_order, get_as_idx, to_str_arr, KinemEquatSolvr, LineStyle,
    Msg, NanInputs, Printed, Slot, Solution, SolveError, SolverForm, Step, Update,
};

fn fields(v: &[&str]) -> Vec<String> {
    v.iter().map(|s| s.to_string()).collect()
}

fn strings(v: &[&str]) -> Vec<String> {
    fields(v)
}

fn nan_of(v: &[&str]) -> NanInputs {
    NanInputs {
        initial_velocity: v[0].parse::<f64>().unwrap_or(f64::NAN).is_nan(),
        final_velocity: v[1].parse::<f64>().unwrap_or(f64::NAN).is_nan(),
        time: v[3].parse::<f64>().unwrap_or(f64::NAN).is_nan(),
    }
}

fn plan(v: &[&str]) -> Result<KinemEquatSolvr, SolveError> {
    KinemEquatSolvr::fromarr(&fields(v), nan_of(v))
}

#[test]
fn convert_idx_order_visits_acc_dx_time_vi_vf() {
    assert_eq!(convert_idx_order(0), 2);
    assert_eq!(convert_idx_order(1), 4);
    assert_eq!(convert_idx_order(2), 3);
    assert_eq!(convert_idx_order(3), 0);
    assert_eq!(convert_idx_order(4), 1);
    assert_eq!(convert_idx_order(9), 1);
}

#[test]
fn convert_idx_order_is_a_permutation_of_five() {
    let mut seen: Vec<usize> = (0..5).map(convert_idx_order).collect();
    seen.sort();
    assert_eq!(seen, vec![0, 1, 2, 3, 4]);
}

#[test]
fn get_as_idx_slots() {
    assert_eq!(get_as_idx(0), Slot::InitialVelocity);
    assert_eq!(get_as_idx(1), Slot::FinalVelocity);
    assert_eq!(get_as_idx(2), Slot::Acceleration);
    assert_eq!(get_as_idx(3), Slot::Time);
    assert_eq!(get_as_idx(4), Slot::Displacement);
    assert_eq!(get_as_idx(5), Slot::Secondary(0));
    assert_eq!(get_as_idx(7), Slot::Secondary(2));
    assert_eq!(get_as_idx(8), Slot::Missing);
}

#[test]
fn all_known_is_refused() {
    let r = plan(&["1", "2", "3", "4", "5"]);
    assert!(matches!(r, Err(SolveError::AllKnown)));
    assert_eq!(
        SolveError::AllKnown.message(),
        "All values are already known! Nothing to solve."
    );
}

#[test]
fn wrong_unknown_count_is_refused() {
    assert!(matches!(plan(&["", "2", "3", "4", "5"]), Err(SolveError::WrongUnknownCount)));
    assert!(matches!(plan(&["", "", "", "4", "5"]), Err(SolveError::WrongUnknownCount)));
    assert!(matches!(plan(&["", "", "", "", ""]), Err(SolveError::WrongUnknownCount)));
    assert_eq!(
        SolveError::WrongUnknownCount.message(),
        "Must have exactally 2 unknown values to solve!"
    );
}

#[test]
fn short_input_without_two_unknowns_is_refused() {
    let v = fields(&["", "1"]);
    let r = KinemEquatSolvr::fromarr(&v, NanInputs { initial_velocity: true, final_velocity: false, time: true });
    assert!(matches!(r, Err(SolveError::WrongUnknownCount)));
}

#[test]
fn acc_and_dx_unknown() {
    let p = plan(&["1", "5", "", "2", ""]).unwrap();
    assert_eq!(p.steps, vec![Step::AccFromVelocityChange, Step::DxFromVelocitySquares]);
    assert_eq!(p.secans, None);
}

#[test]
fn acc_and_initial_velocity_unknown() {
    let p = plan(&["", "5", "", "2", "3"]).unwrap();
    assert_eq!(
        p.steps,
        vec![Step::AccFromFinalVelocity, Step::ViFromVelocityChange { second_root: false }]
    );
    assert_eq!(p.secans, None);
}

#[test]
fn acc_and_final_velocity_unknown() {
    let p = plan(&["1", "", "", "2", "3"]).unwrap();
    assert_eq!(
        p.steps,
        vec![Step::AccFromInitialVelocity, Step::VfFromVelocityChange { second_root: false }]
    );
}

#[test]
fn acc_and_time_unknown() {
    let p = plan(&["1", "5", "", "", "3"]).unwrap();
    assert_eq!(p.steps, vec![Step::AccFromVelocitySquares, Step::TimeFromVelocityChange]);
    assert_eq!(p.secans, None);
}

#[test]
fn time_and_initial_velocity_unknown_pair_the_second_root() {
    let p = plan(&["", "5", "2", "", "3"]).unwrap();
    assert_eq!(
        p.steps,
        vec![Step::TimeQuadraticFinal, Step::ViFromVelocityChange { second_root: true }]
    );
    assert_eq!(p.secans, Some(2));
}

#[test]
fn time_and_final_velocity_unknown_pair_the_second_root() {
    let p = plan(&["1", "", "2", "", "3"]).unwrap();
    assert_eq!(
        p.steps,
        vec![Step::TimeQuadraticInitial, Step::VfFromVelocityChange { second_root: true }]
    );
    assert_eq!(p.secans, Some(3));
}

#[test]
fn both_velocities_unknown() {
    let p = plan(&["", "", "2", "4", "3"]).unwrap();
    assert_eq!(p.steps, vec![Step::ViFromDisplacement, Step::VfFromVelocityChange { second_root: false }]);
}

#[test]
fn dx_and_velocities() {
    let p = plan(&["", "5", "2", "4", ""]).unwrap();
    assert_eq!(p.steps, vec![Step::DxFromFinalVelocity, Step::ViFromVelocityChange { second_root: false }]);
    let p = plan(&["1", "", "2", "4", ""]).unwrap();
    assert_eq!(p.steps, vec![Step::DxFromInitialVelocity, Step::VfFromVelocityChange { second_root: false }]);
    let p = plan(&["1", "5", "2", "", ""]).unwrap();
    assert_eq!(p.steps, vec![Step::DxFromVelocitySquares, Step::TimeFromVelocityChange]);
}

#[test]
fn unreadable_known_field_counts_as_nan() {
    // "x" is known text but parses to NaN: the branches see it as NaN.
    let p = plan(&["x", "5", "", "", "3"]).unwrap();
    assert_eq!(p.steps, vec![Step::AccFromFinalVelocity, Step::TimeQuadraticFinal]);
    assert_eq!(p.secans, Some(1));
}

#[test]
fn extra_fields_repeat_the_final_velocity() {
    let p = plan(&["1", "", "2", "4", "3", ""]).unwrap();
    assert_eq!(
        p.steps,
        vec![
            Step::VfFromVelocityChange { second_root: false },
            Step::VfFromVelocityChange { second_root: false },
        ]
    );
    let v = fields(&["1", "", "2", "", "3", "7"]);
    let p = KinemEquatSolvr::fromarr(&v, nan_of(&["1", "", "2", "", "3"])).unwrap();
    assert_eq!(
        p.steps,
        vec![
            Step::TimeQuadraticInitial,
            Step::VfFromVelocityChange { second_root: true },
            Step::VfFromVelocityChange { second_root: true },
        ]
    );
    assert_eq!(p.secans, Some(5));
}

#[test]
fn step_lines() {
    assert_eq!(
        Step::AccFromFinalVelocity.substitution_line().unwrap(),
        "&2Substitute values into Δd=v₁t-0.5at² :"
    );
    assert_eq!(Step::AccFromFinalVelocity.solving_line().unwrap(), "&2Solve for a :");
    assert_eq!(
        Step::ViFromDisplacement.substitution_line().unwrap(),
        "&2Substitute values into Δd=v₀t+0.5at² :"
    );
    assert_eq!(Step::ViFromDisplacement.solving_line().unwrap(), "&2Solve for v₀ :");
    assert_eq!(
        Step::DxFromVelocitySquares.substitution_line().unwrap(),
        "&2Substitute values into v₁²=v₀²+2aΔd :"
    );
    assert_eq!(Step::DxFromVelocitySquares.solving_line().unwrap(), "&2Solve for Δx :");
    assert_eq!(Step::DxFromFinalVelocity.solving_line(), None);
    assert_eq!(
        Step::TimeQuadraticInitial.solving_line().unwrap(),
        "&2Solve for t using quadratic formula :"
    );
    assert_eq!(Step::TimeFromVelocityChange.solving_line().unwrap(), "&2Solve for t :");
    assert_eq!(
        Step::VfFromVelocityChange { second_root: false }.substitution_line().unwrap(),
        "&2Substitute values into v₁=v₀+at :"
    );
    assert_eq!(Step::VfFromVelocityChange { second_root: true }.solving_line(), None);
    assert_eq!(Step::ViFromVelocityChange { second_root: true }.substitution_line(), None);
}

#[test]
fn to_str_arr_without_secondary() {
    let a = to_str_arr(strings(&["1", "2", "3", "4", "5"]), None);
    assert_eq!(a, strings(&["1", "2", "3", "4", "5"]));
}

#[test]
fn to_str_arr_with_initial_velocity_root() {
    let a = to_str_arr(strings(&["1", "2", "3", "4", "5"]), Some(strings(&["-4", "9"])));
    assert_eq!(a, strings(&["1, 9", "2", "3", "4, -4", "5"]));
}

#[test]
fn to_str_arr_with_final_velocity_root() {
    let a = to_str_arr(strings(&["1", "2", "3", "4", "5"]), Some(strings(&["-4", "NaN", "7"])));
    assert_eq!(a, strings(&["1", "2, 7", "3", "4, -4", "5"]));
}

#[test]
fn form_starts_with_five_empty_fields() {
    let f = SolverForm::create();
    assert_eq!(f.inputs(), &strings(&["", "", "", "", ""]));
    assert!(f.work().is_empty());
}

#[test]
fn form_input_replaces_one_field() {
    let mut f = SolverForm::create();
    let u = f.update(Msg::Input("3.5".to_string(), 2));
    assert_eq!(u, Update::Render(false));
    assert_eq!(f.inputs(), &strings(&["", "", "3.5", "", ""]));
    assert_eq!(f.update(Msg::Idle), Update::Render(false));
    assert_eq!(f.inputs(), &strings(&["", "", "3.5", "", ""]));
}

#[test]
fn form_enter_clears_work_and_asks_for_solve() {
    let mut f = SolverForm::create();
    assert!(f.finish_solve(Err(SolveError::AllKnown)));
    assert_eq!(f.work().len(), 1);
    assert_eq!(f.update(Msg::Enter), Update::Solve);
    assert!(f.work().is_empty());
}

#[test]
fn form_error_outcome_shows_message() {
    let mut f = SolverForm::create();
    f.update(Msg::Enter);
    let r = f.plan_solution(NanInputs { initial_velocity: true, final_velocity: true, time: true });
    let e = match r {
        Err(e) => e,
        Ok(_) => panic!("five empty fields cannot be solved"),
    };
    assert_eq!(e, SolveError::WrongUnknownCount);
    assert!(f.finish_solve(Err(e)));
    assert_eq!(f.work(), &strings(&["Must have exactally 2 unknown values to solve!"]));
    assert_eq!(f.inputs(), &strings(&["", "", "", "", ""]));
}

#[test]
fn form_solution_outcome_replaces_fields_and_work() {
    let mut f = SolverForm::create();
    for (i, s) in ["1", "5", "", "2", ""].iter().enumerate() {
        f.update(Msg::Input(s.to_string(), i as u32));
    }
    f.update(Msg::Enter);
    let p = f
        .plan_solution(NanInputs { initial_velocity: false, final_velocity: false, time: false })
        .unwrap();
    assert_eq!(p.steps, vec![Step::AccFromVelocityChange, Step::DxFromVelocitySquares]);
    let sol = Solution {
        values: strings(&["1", "5", "2", "2", "6"]),
        work: strings(&["&2Substitute values into v₁=v₀+at :", "&3a=2"]),
    };
    assert!(f.finish_solve(Ok(sol)));
    assert_eq!(f.inputs(), &strings(&["1", "5", "2", "2", "6"]));
    assert_eq!(f.work(), &strings(&["&2Substitute values into v₁=v₀+at :", "&3a=2"]));
}

#[test]
fn classify_lines() {
    assert_eq!(
        classify_work_line("&2Solve for a :"),
        (LineStyle::Secondary, "Solve for a :".to_string())
    );
    assert_eq!(classify_work_line("&3a=2"), (LineStyle::Accent, "a=2".to_string()));
    assert_eq!(classify_work_line("&xhello"), (LineStyle::Main, "hello".to_string()));
    assert_eq!(classify_work_line("&2"), (LineStyle::Secondary, "".to_string()));
    assert_eq!(
        classify_work_line("Δx=1*2+0.5*3*2*2"),
        (LineStyle::Plain, "Δx=1*2+0.5*3*2*2".to_string())
    );
    assert_eq!(classify_work_line(""), (LineStyle::Plain, "".to_string()));
    assert_eq!(classify_work_line("&2Δd"), (LineStyle::Secondary, "Δd".to_string()));
}

fn printed(vi: &str, vf: &str, acc: &str, time: &str, dx: &str, answer: &str, second: &str) -> Printed {
    Printed {
        vi: vi.to_string(),
        vf: vf.to_string(),
        acc: acc.to_string(),
        time: time.to_string(),
        dx: dx.to_string(),
        half_acc: "0.5".to_string(),
        answer: answer.to_string(),
        second: second.to_string(),
    }
}

#[test]
fn work_lines_acc_from_velocity_change() {
    let p = printed("1", "5", "NaN", "2", "NaN", "2", "NaN");
    assert_eq!(
        Step::AccFromVelocityChange.work_lines(&p),
        strings(&[
            "&2Substitute values into v₁=v₀+at :",
            "5=1+a*2",
            "&2Solve for a :",
            "a=(5-1)/2",
            "&3a=2",
        ])
    );
}

#[test]
fn work_lines_quadratic_time() {
    let p = printed("NaN", "5", "1", "NaN", "3", "9.1", "0.9");
    assert_eq!(
        Step::TimeQuadraticFinal.work_lines(&p),
        strings(&[
            "&2Substitute values into Δd=v₁t-0.5at² :",
            "3=5*t-0.5*1*t*t",
            "&2Solve for t using quadratic formula :",
            "0=0.5t²-5t+3",
            "t=(5+-√(5*5-4*0.5*3))/(2*0.5)",
            "&3t=9.1, 0.9",
        ])
    );
}

#[test]
fn work_lines_velocity_second_roots() {
    let p = printed("NaN", "5", "1", "9.1", "3", "-4.1", "4.1");
    assert_eq!(
        Step::ViFromVelocityChange { second_root: true }.work_lines(&p),
        strings(&["&3v₀=-4.1, 4.1"])
    );
    assert_eq!(
        Step::ViFromVelocityChange { second_root: false }.work_lines(&p),
        strings(&["&3v₀=-4.1"])
    );
    let p = printed("1", "NaN", "2", "3", "4", "7", "-1");
    assert_eq!(
        Step::VfFromVelocityChange { second_root: true }.work_lines(&p),
        strings(&["&2Substitute values into v₁=v₀+at :", "v₁=1+2*3", "&3v₀=7, -1"])
    );
    assert_eq!(
        Step::VfFromVelocityChange { second_root: false }.work_lines(&p),
        strings(&["&2Substitute values into v₁=v₀+at :", "v₁=1+2*3", "&3v₁=7"])
    );
}

#[test]
fn work_lines_displacement_prints_final_velocity() {
    let p = printed("1", "NaN", "2", "3", "NaN", "12", "NaN");
    assert_eq!(
        Step::DxFromInitialVelocity.work_lines(&p),
        strings(&["&2Substitute values into Δd=v₀t+0.5at² :", "Δx=NaN*3+0.5*2*3*3", "&3Δx=12"])
    );
    let p = printed("1", "5", "2", "NaN", "NaN", "6", "NaN");
    assert_eq!(
        Step::DxFromVelocitySquares.work_lines(&p),
        strings(&[
            "&2Substitute values into v₁²=v₀²+2aΔd :",
            "5*5=1*1+2*2*Δd",
            "&2Solve for Δx :",
            "Δx=(5*5-1*1)/(2*2)",
            "&3Δx=6",
        ])
    );
    let p = printed("NaN", "NaN", "2", "4", "3", "-3.25", "NaN");
    assert_eq!(
        Step::ViFromDisplacement.work_lines(&p),
        strings(&[
            "&2Substitute values into Δd=v₀t+0.5at² :",
            "3=v₀*4+0.5*2*4*4",
            "&2Solve for v₀ :",
            "v₀=(0.5*2*4*4-3)/4",
            "&3v₀=-3.25",
        ])
    );
}

#[test]
fn solution_joins_step_lines_and_lays_out_answers() {
    let p = plan(&["1", "5", "", "2", ""]).unwrap();
    let ps = vec![
        printed("1", "5", "NaN", "2", "NaN", "2", "NaN"),
        printed("1", "5", "2", "2", "NaN", "6", "NaN"),
    ];
    let sol = p.solution(&ps, strings(&["1", "5", "2", "2", "6"]), None);
    assert_eq!(sol.values, strings(&["1", "5", "2", "2", "6"]));
    assert_eq!(sol.work.len(), 10);
    assert_eq!(sol.work[4], "&3a=2");
    assert_eq!(sol.work[5], "&2Substitute values into v₁²=v₀²+2aΔd :");
    assert_eq!(sol.work[9], "&3Δx=6");
}

#[test]
fn solved_form_refuses_to_solve_again() {
    let mut f = SolverForm::create();
    for (i, s) in ["", "5", "2", "", "3"].iter().enumerate() {
        f.update(Msg::Input(s.to_string(), i as u32));
    }
    assert_eq!(f.update(Msg::Enter), Update::Solve);
    let p = f
        .plan_solution(NanInputs { initial_velocity: true, final_velocity: false, time: true })
        .unwrap();
    let ps = vec![
        printed("NaN", "5", "2", "NaN", "3", "4.4", "0.6"),
        printed("NaN", "5", "2", "4.4", "3", "-3.8", "3.8"),
    ];
    let sol = p.solution(&ps, strings(&["-3.8", "5", "2", "4.4", "3"]), Some(strings(&["0.6", "3.8"])));
    assert!(f.finish_solve(Ok(sol)));
    assert_eq!(f.inputs(), &strings(&["-3.8, 3.8", "5", "2", "4.4, 0.6", "3"]));
    assert_eq!(f.work().last().unwrap(), "&3v₀=-3.8, 3.8");
    // Each answer line shows what its field shows, after the label.
    assert!(f.work().contains(&"&3t=4.4, 0.6".to_string()));
    assert_eq!(format!("&3t={}", f.inputs()[3]), "&3t=4.4, 0.6");
    assert_eq!(format!("&3v₀={}", f.inputs()[0]), *f.work().last().unwrap());
    assert_eq!(f.update(Msg::Enter), Update::Solve);
    let e = match f.plan_solution(NanInputs { initial_velocity: false, final_velocity: false, time: false }) {
        Err(e) => e,
        Ok(_) => panic!("a solved form has no empty field"),
    };
    assert_eq!(e, SolveError::AllKnown);
    assert!(f.finish_solve(Err(e)));
    assert_eq!(f.work(), &strings(&["All values are already known! Nothing to solve."]));
    assert_eq!(f.inputs(), &strings(&["-3.8, 3.8", "5", "2", "4.4, 0.6", "3"]));
}
