use vstd::prelude::*;

verus! {

/// The form's fields are kept in the order initial velocity, final
/// velocity, acceleration, time, displacement.
pub open spec fn spec_convert_idx_order(from: int) -> int {
    if from == 0 {
        2
    } else if from == 1 {
        4
    } else if from == 2 {
        3
    } else if from == 3 {
        0
    } else {
        1
    }
}

/// Maps the position in the solving sequence to the field it solves:
/// acceleration first, then displacement, time, initial and final velocity.
/// Every position from 4 on maps to the final velocity.
pub fn convert_idx_order(from: usize) -> (to: usize)
    ensures
        to == spec_convert_idx_order(from as int),
        to < 5,
{
    match from {
        0 => 2,
        1 => 4,
        2 => 3,
        3 => 0,
        _ => 1,
    }
}

/// The five solving positions visit every field exactly once.
pub proof fn lemma_convert_idx_order_permutes()
    ensures
        forall|i: int| 0 <= i < 5 ==> 0 <= #[trigger] spec_convert_idx_order(i) < 5,
        forall|i: int, j: int|
            0 <= i < 5 && 0 <= j < 5 && i != j ==> #[trigger] spec_convert_idx_order(i)
                != #[trigger] spec_convert_idx_order(j),
        forall|f: int|
            0 <= f < 5 ==> 0 <= #[trigger] spec_solving_position(f) < 5
                && spec_convert_idx_order(spec_solving_position(f)) == f,
{
}

/// The position in the solving sequence at which a field is solved.
pub open spec fn spec_solving_position(field: int) -> int {
    if field == 0 {
        3
    } else if field == 1 {
        4
    } else if field == 2 {
        0
    } else if field == 3 {
        2
    } else {
        1
    }
}

/// Where a numbered slot of the solver's state lives: one of the five
/// quantities, one of the three secondary answers, or nowhere.
#[derive(PartialEq, Eq, Structural, Clone, Copy, Debug)]
pub enum Slot {
    InitialVelocity,
    FinalVelocity,
    Acceleration,
    Time,
    Displacement,
    Secondary(usize),
    Missing,
}

pub open spec fn spec_field_slot(idx: int) -> Slot {
    if idx == 0 {
        Slot::InitialVelocity
    } else if idx == 1 {
        Slot::FinalVelocity
    } else if idx == 2 {
        Slot::Acceleration
    } else if idx == 3 {
        Slot::Time
    } else if idx == 4 {
        Slot::Displacement
    } else if 5 <= idx <= 7 {
        Slot::Secondary((idx - 5) as usize)
    } else {
        Slot::Missing
    }
}

/// The slot that the solver reads for a numbered index: 0 to 4 are the
/// five quantities, 5 to 7 the secondary answers, any other index none.
pub fn get_as_idx(idx: usize) -> (slot: Slot)
    ensures
        slot == spec_field_slot(idx as int),
{
    match idx {
        0 => Slot::InitialVelocity,
        1 => Slot::FinalVelocity,
        2 => Slot::Acceleration,
        3 => Slot::Time,
        4 => Slot::Displacement,
        5 => Slot::Secondary(0),
        6 => Slot::Secondary(1),
        7 => Slot::Secondary(2),
        _ => Slot::Missing,
    }
}

} // verus!
