//! Decisions of a game tick that concern the current game state.

use vstd::prelude::*;

verus! {

/// Whether the current state has been initialised once a tick has asked it
/// to (where it had not been yet) and heard `init_answer`: a state that was
/// initialised stays so; otherwise its answer decides.
pub fn inited_after(state_inited: bool, init_answer: bool) -> (r: bool)
    ensures
        state_inited ==> r,
        !state_inited ==> r == init_answer,
{
    if state_inited {
        true
    } else {
        init_answer
    }
}

} // verus!
