//! Decision logic of a five-quantity constant-acceleration solver: which
//! inputs are unknown, which kinematic equation solves each of them and in
//! what order, how secondary (second-root) answers are laid out, and the
//! state of the input form that drives it.

mod fields;

pub use fields::{convert_idx_order, get_as_idx, Slot};
mod plan;

pub use plan::{to_str_arr, KinemEquatSolvr, NanInputs, SolveError, Step};
mod form;

pub use form::{Msg, SolverForm, Update};
mod lines;

pub use lines::{classify_work_line, LineStyle};
mod work;

pub use work::{Printed, Solution};
mod algebra;
mod worked;

pub use algebra::{Atom, Expr, Konst, Sym};
pub use worked::{Equation, WorkLine};
