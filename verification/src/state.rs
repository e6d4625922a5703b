use vstd::prelude::*;

use crate::engine::{Boundary, Exception, Fault, InstructionPointer};
use crate::instruction::{Effect, Instruction};

verus! {

/// The mathematical model of the engine: every field of the executable
/// engine, seen as a sequence or an integer. All contracts and laws are
/// stated over this model.
#[verifier::ext_equal]
pub ghost struct State {
    pub tape: Seq<u8>,
    pub cursor: int,
    pub instructions: Seq<Instruction>,
    pub ip: InstructionPointer,
    pub history: Seq<Instruction>,
    pub output: Seq<u8>,
    pub input: Seq<u8>,
    pub input_cell_history: Seq<u8>,
}

impl State {
    /// Well-formedness: the tape is never empty, the cursor addresses a tape
    /// cell, and a program counter that designates an instruction designates
    /// an existing one.
    pub open spec fn wf(self) -> bool {
        &&& self.tape.len() >= 1
        &&& 0 <= self.cursor < self.tape.len()
        &&& match self.ip {
            InstructionPointer::Index(i) => (i as int) < self.instructions.len(),
            _ => true,
        }
    }

    /// The byte under the cursor.
    pub open spec fn cell(self) -> u8 {
        self.tape[self.cursor]
    }
}

/// One step of byte increment, wrapping from 255 to 0.
pub open spec fn wrap_inc(b: u8) -> u8 {
    if b == 255 {
        0u8
    } else {
        (b + 1) as u8
    }
}

/// One step of byte decrement, wrapping from 0 to 255.
pub open spec fn wrap_dec(b: u8) -> u8 {
    if b == 0 {
        255u8
    } else {
        (b - 1) as u8
    }
}

/// Moving the cursor one cell to the right: the tape grows by exactly one
/// zero cell when the cursor walks past the current right edge, and is left
/// alone otherwise. This never fails.
pub open spec fn spec_move_right(s: State) -> State {
    State {
        cursor: s.cursor + 1,
        tape: if s.cursor + 1 == s.tape.len() {
            s.tape.push(0u8)
        } else {
            s.tape
        },
        ..s
    }
}

/// The forward effect of an instruction on the engine state. `Ok` carries
/// the new state; `Err` reports the condition and means the state is left
/// exactly as it was.
pub open spec fn spec_apply_effect(s: State, effect: Effect) -> Result<State, Exception> {
    match effect {
        Effect::Noop => Ok(s),
        Effect::MoveRight => Ok(spec_move_right(s)),
        Effect::MoveLeft => if s.cursor == 0 {
            Err(Exception::Error(Fault::TapeUnderflow))
        } else {
            Ok(State { cursor: s.cursor - 1, ..s })
        },
        Effect::Increment => Ok(
            State { tape: s.tape.update(s.cursor, wrap_inc(s.cell())), ..s },
        ),
        Effect::Decrement => Ok(
            State { tape: s.tape.update(s.cursor, wrap_dec(s.cell())), ..s },
        ),
        Effect::Output => Ok(State { output: s.output.push(s.cell()), ..s }),
        Effect::Input => if s.input.len() == 0 {
            Err(Exception::RequestingInput)
        } else {
            Ok(
                State {
                    tape: s.tape.update(s.cursor, s.input[0]),
                    input: s.input.drop_first(),
                    input_cell_history: s.input_cell_history.push(s.cell()),
                    ..s
                },
            )
        },
    }
}

/// The inverse effect of an instruction: exactly reverses what the forward
/// effect did, except that a tape cell grown by a forward cursor move stays
/// (the tape never shrinks).
pub open spec fn spec_revert_effect(s: State, effect: Effect) -> Result<State, Exception> {
    match effect {
        Effect::Noop => Ok(s),
        Effect::MoveRight => if s.cursor == 0 {
            Err(Exception::Error(Fault::TapeUnderflow))
        } else {
            Ok(State { cursor: s.cursor - 1, ..s })
        },
        Effect::MoveLeft => Ok(spec_move_right(s)),
        Effect::Increment => Ok(
            State { tape: s.tape.update(s.cursor, wrap_dec(s.cell())), ..s },
        ),
        Effect::Decrement => Ok(
            State { tape: s.tape.update(s.cursor, wrap_inc(s.cell())), ..s },
        ),
        Effect::Output => if s.output.len() == 0 {
            Err(Exception::Error(Fault::EmptyOutput))
        } else {
            Ok(State { output: s.output.drop_last(), ..s })
        },
        Effect::Input => if s.input_cell_history.len() == 0 {
            Err(Exception::Error(Fault::EmptyCellRecord))
        } else {
            Ok(
                State {
                    tape: s.tape.update(s.cursor, s.input_cell_history.last()),
                    input: seq![s.cell()] + s.input,
                    input_cell_history: s.input_cell_history.drop_last(),
                    ..s
                },
            )
        },
    }
}

/// Advancing the program counter: before-start enters the sequence (an empty
/// sequence is passed over straight to after-end), an index moves one to the
/// right or finishes, and after-end is exhausted.
pub open spec fn spec_advance(s: State) -> Result<State, Exception> {
    match s.ip {
        InstructionPointer::End => Err(
            Exception::Error(Fault::NavigationExhausted(Boundary::End)),
        ),
        InstructionPointer::Start => if s.instructions.len() == 0 {
            Ok(State { ip: InstructionPointer::End, ..s })
        } else {
            Ok(State { ip: InstructionPointer::Index(0), ..s })
        },
        InstructionPointer::Index(i) => if i + 1 == s.instructions.len() {
            Ok(State { ip: InstructionPointer::End, ..s })
        } else {
            Ok(State { ip: InstructionPointer::Index((i + 1) as usize), ..s })
        },
    }
}

/// Retreating the program counter: the mirror image of `spec_advance`.
pub open spec fn spec_retreat(s: State) -> Result<State, Exception> {
    match s.ip {
        InstructionPointer::Start => Err(
            Exception::Error(Fault::NavigationExhausted(Boundary::Start)),
        ),
        InstructionPointer::End => if s.instructions.len() == 0 {
            Ok(State { ip: InstructionPointer::Start, ..s })
        } else {
            Ok(State { ip: InstructionPointer::Index((s.instructions.len() - 1) as usize), ..s })
        },
        InstructionPointer::Index(i) => if i == 0 {
            Ok(State { ip: InstructionPointer::Start, ..s })
        } else {
            Ok(State { ip: InstructionPointer::Index((i - 1) as usize), ..s })
        },
    }
}

/// The instruction the program counter designates, if any.
pub open spec fn spec_current(s: State) -> Option<Instruction> {
    match s.ip {
        InstructionPointer::Index(i) => Some(s.instructions[i as int]),
        _ => None,
    }
}

/// One step: at a boundary the program counter merely advances; at an index
/// the designated instruction's forward effect runs and, on success, the
/// instruction is appended to the history. On `Err` the state is unchanged.
pub open spec fn spec_step(s: State) -> Result<State, Exception> {
    match s.ip {
        InstructionPointer::Index(i) => {
            let instruction = s.instructions[i as int];
            match spec_apply_effect(s, instruction.effect) {
                Ok(s1) => Ok(State { history: s1.history.push(instruction), ..s1 }),
                Err(e) => Err(e),
            }
        },
        _ => spec_advance(s),
    }
}

/// One undo: the most recent history entry is popped and its inverse effect
/// runs. The popped entry is consumed even when the inverse effect fails, so
/// the first component is the state after the call in every case.
pub open spec fn spec_undo(s: State) -> (State, Result<(), Exception>) {
    if s.history.len() == 0 {
        (s, Err(Exception::Error(Fault::NoHistory)))
    } else {
        let instruction = s.history.last();
        let popped = State { history: s.history.drop_last(), ..s };
        match spec_revert_effect(popped, instruction.effect) {
            Ok(s2) => (s2, Ok(())),
            Err(e) => (popped, Err(e)),
        }
    }
}

/// Where a forward symbol search begins: strictly after the current
/// position. Meaningless at after-end, where the search is exhausted.
pub open spec fn seek_start(s: State) -> int {
    match s.ip {
        InstructionPointer::Start => 0,
        InstructionPointer::Index(i) => i + 1,
        InstructionPointer::End => s.instructions.len() as int,
    }
}

/// Where a backward symbol search ends (exclusive): the current position.
/// Meaningless at before-start, where the search is exhausted.
pub open spec fn seek_bound(s: State) -> int {
    match s.ip {
        InstructionPointer::End => s.instructions.len() as int,
        InstructionPointer::Index(i) => i as int,
        InstructionPointer::Start => 0,
    }
}

/// Whether some instruction in `instructions[lo..hi]` carries `symbol`.
pub open spec fn has_symbol_in(
    instructions: Seq<Instruction>,
    symbol: char,
    lo: int,
    hi: int,
) -> bool {
    exists|j: int| lo <= j < hi && instructions[j].symbol == symbol
}

/// `post` equals `pre` in every field, except that its tape may carry extra
/// trailing zero cells: cells grown while moving right stay, holding zero.
pub open spec fn zero_padded(pre: State, post: State) -> bool {
    &&& post.cursor == pre.cursor
    &&& post.ip == pre.ip
    &&& post.instructions == pre.instructions
    &&& post.history == pre.history
    &&& post.output == pre.output
    &&& post.input == pre.input
    &&& post.input_cell_history == pre.input_cell_history
    &&& post.tape.len() >= pre.tape.len()
    &&& forall|i: int| 0 <= i < pre.tape.len() ==> post.tape[i] == pre.tape[i]
    &&& forall|i: int| pre.tape.len() <= i < post.tape.len() ==> post.tape[i] == 0u8
}

} // verus!
