use vstd::prelude::*;

verus! {

/// The closed set of effects an instruction can have on the engine state.
/// Each effect comes with an exact inverse, applied when a step is undone.
#[derive(Clone, Copy, Debug, PartialEq, Eq, Structural)]
pub enum Effect {
    /// Leaves the engine state untouched.
    Noop,
    /// Moves the cursor one cell to the right, growing the tape by one zero
    /// cell when the cursor walks past the current right edge.
    MoveRight,
    /// Moves the cursor one cell to the left. The tape does not grow to the
    /// left, so this fails at cell 0 instead of wrapping.
    MoveLeft,
    /// Adds one to the cell under the cursor, wrapping from 255 to 0.
    Increment,
    /// Subtracts one from the cell under the cursor, wrapping from 0 to 255.
    Decrement,
    /// Appends the cell under the cursor to the output buffer.
    Output,
    /// Consumes the next pending input byte into the cell under the cursor,
    /// recording the overwritten value so the step can be undone exactly.
    /// Signals `RequestingInput` when no input byte is pending.
    Input,
}

/// One instruction of a program: a single-character symbol naming it and the
/// effect it has when executed. Symbol navigation (`goto_next`, `goto_prev`)
/// compares instructions by symbol alone; catalogs are expected to keep
/// symbols unique.
#[derive(Clone, Copy, Debug, PartialEq, Eq, Structural)]
pub struct Instruction {
    pub symbol: char,
    pub effect: Effect,
}

} // verus!
