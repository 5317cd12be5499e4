# kinematics_solver

A five-quantity constant-acceleration solver (initial and final velocity,
acceleration, time, displacement) with a worked solution.

- `src/` — the verified decision logic: which fields are unknown, which
  equation solves each one and in what order, the layout of second
  (quadratic) roots, the worked-solution lines built from printed numbers,
  the form's state machine and the styling of worked-solution lines.
- `app/` — the yew front end and the `f64` layer that evaluates the chosen
  equations and prints the numbers it hands to the library.
- `tests/` — tests of the library on concrete inputs.
