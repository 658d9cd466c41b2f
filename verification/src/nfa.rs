//! The tokenizer automaton that grammar extraction produces alongside the
//! lexical variables.

use vstd::prelude::*;

verus! {

/// The NFA whose states the lexical variables partition among themselves.
/// Building and running its transition structure lies outside this layer;
/// here only the supply of state ids matters: each lexical variable owns a
/// contiguous range of them, starting at its `start_state`.
#[derive(Clone, Copy, Debug, PartialEq, Eq, Structural)]
pub struct Nfa {
    /// How many states the automaton has; valid state ids lie below it.
    pub state_count: u32,
}

impl Default for Nfa {
    /// An automaton with no states yet.
    fn default() -> (r: Self)
        ensures
            r.state_count == 0,
    {
        Nfa { state_count: 0 }
    }
}

} // verus!
