//! The messages that a front panel sends to the machine.

use crate::binary::{cell_byte, parse_cell};
use crate::machine::{Model, State, MEMORY_SIZE};
use vstd::prelude::*;

verus! {

/// What the operator of the machine can do.
pub enum Msg {
    /// Run one clock cycle.
    Clock,
    /// Return to the power-on state.
    Reset,
    /// Replace the memory cell at the index by what the text stands for.
    GotInput(usize, String),
}

/// The state that `msg` leads to from `state`.
pub open spec fn state_after(state: State, msg: Msg) -> State {
    match msg {
        Msg::Clock => state.step(),
        Msg::Reset => state.reset(),
        Msg::GotInput(index, text) => state.write_memory(index as int, cell_byte(text@)),
    }
}

impl Model {
    /// Applies `msg` to the machine. Returns whether the machine has to be
    /// shown anew, which is always the case.
    pub fn update(&mut self, msg: Msg) -> (render: bool)
        requires
            msg matches Msg::GotInput(index, _) ==> index < MEMORY_SIZE,
        ensures
            render,
            final(self)@ == state_after(old(self)@, msg),
    {
        match msg {
            Msg::Clock => {
                self.clock();
            },
            Msg::Reset => {
                self.reset();
            },
            Msg::GotInput(index, text) => {
                let byte = parse_cell(text.as_str());
                self.write_memory(index, byte);
            },
        }
        true
    }
}

} // verus!
