//! What dispatch asks of the process-control and store collaborators.

use vstd::prelude::*;

verus! {

/// The side effect the caller must perform after one dispatched event:
/// rewrite the store with the mutated collection, or run one control
/// action on the selected server's service.
#[derive(Clone, Copy, Debug, PartialEq, Eq, Structural)]
pub enum Effect {
    Nothing,
    Persist,
    Start,
    Restart,
}

/// The text a control action surfaces as its outcome: its standard output,
/// or, when that came back empty, its standard error.
pub fn pick_output(out: String, err: String) -> (r: String)
    ensures
        r@ == if out@.len() == 0 {
            err@
        } else {
            out@
        },
{
    if out.as_str().is_empty() {
        err
    } else {
        out
    }
}

} // verus!
