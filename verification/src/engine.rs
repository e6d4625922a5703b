use vstd::prelude::*;

use crate::instruction::{Effect, Instruction};
use crate::state::{
    has_symbol_in, seek_bound, seek_start, spec_advance, spec_apply_effect, spec_current,
    spec_move_right, spec_retreat, spec_revert_effect, spec_step, spec_undo, State,
};

verus! {

/// Which end of the instruction sequence a navigation ran into.
#[derive(Clone, Copy, Debug, PartialEq, Eq, Structural)]
pub enum Boundary {
    Start,
    End,
}

/// A descriptive failure of a single engine operation. Every fault is
/// non-fatal: the failed operation leaves the engine exactly as it was.
#[derive(Clone, Copy, Debug, PartialEq, Eq, Structural)]
pub enum Fault {
    /// A navigation ran into an end of the instruction sequence.
    NavigationExhausted(Boundary),
    /// A jump named an index outside the program; `count` instructions
    /// exist, so the valid indices are exactly `0 .. count`.
    OutOfRange { index: usize, count: usize },
    /// A symbol search scanned its whole range without a match.
    NotFound(char),
    /// An undo was asked for with no executed step left to undo.
    NoHistory,
    /// A cursor move to the left of cell 0. The tape grows only to the
    /// right; walking off its left edge is an error, never a wraparound.
    TapeUnderflow,
    /// An inverse of an emitting instruction found no output to retract.
    EmptyOutput,
    /// An inverse of an input-consuming instruction found no recorded
    /// overwritten cell value to restore.
    EmptyCellRecord,
}

/// What an engine operation signals instead of succeeding: an ordinary
/// error, or the request for more input bytes. `RequestingInput` is a
/// control signal, not an error — the caller supplies input and retries the
/// very same step, which was not executed and not recorded.
#[derive(Clone, Copy, Debug, PartialEq, Eq, Structural)]
pub enum Exception {
    Error(Fault),
    RequestingInput,
}

impl Exception {
    /// Wraps a fault as an ordinary error.
    pub fn error(fault: Fault) -> (e: Exception)
        ensures
            e == Exception::Error(fault),
    {
        Exception::Error(fault)
    }

    /// Turns the exception into the failed result carrying it.
    pub fn result<T>(self) -> (r: Result<T, Exception>)
        ensures
            r == Err::<T, Exception>(self),
    {
        Err(self)
    }
}

pub type EngineResult = Result<(), Exception>;

/// The program counter: before the first instruction, past the last one, or
/// at instruction `i`. The two boundary states are distinct from every real
/// index, which keeps boundary transitions explicit.
#[derive(Clone, Copy, Debug, PartialEq, Eq, Structural)]
pub enum InstructionPointer {
    Start,
    End,
    Index(usize),
}

/// The engine: all mutable execution state of one run. The tape starts as a
/// single zero cell and never shrinks; the history records every executed
/// step not yet undone, in order.
#[derive(Debug, PartialEq, Eq)]
pub struct Engine {
    pub tape: Vec<u8>,
    pub tape_pointer: usize,
    pub instructions: Vec<Instruction>,
    pub instruction_pointer: InstructionPointer,
    pub history: Vec<Instruction>,
    pub output: Vec<u8>,
    pub input: Vec<u8>,
    pub input_cell_history: Vec<u8>,
}

impl View for Engine {
    type V = State;

    open spec fn view(&self) -> State {
        State {
            tape: self.tape@,
            cursor: self.tape_pointer as int,
            instructions: self.instructions@,
            ip: self.instruction_pointer,
            history: self.history@,
            output: self.output@,
            input: self.input@,
            input_cell_history: self.input_cell_history@,
        }
    }
}

impl Engine {
    /// Well-formedness of the engine state; established by `new` and
    /// preserved by every operation.
    pub open spec fn wf(&self) -> bool {
        self@.wf()
    }

    /// A fresh engine over `instructions`: a one-cell zero tape, the cursor
    /// on it, the program counter before the start, and empty history and
    /// buffers.
    pub fn new(instructions: Vec<Instruction>) -> (engine: Engine)
        ensures
            engine.wf(),
            engine@.tape == seq![0u8],
            engine@.cursor == 0,
            engine@.instructions == instructions@,
            engine@.ip == InstructionPointer::Start,
            engine@.history == Seq::<Instruction>::empty(),
            engine@.output == Seq::<u8>::empty(),
            engine@.input == Seq::<u8>::empty(),
            engine@.input_cell_history == Seq::<u8>::empty(),
    {
        Engine {
            tape: vec![0],
            tape_pointer: 0,
            instructions,
            instruction_pointer: InstructionPointer::Start,
            history: vec![],
            output: vec![],
            input: vec![],
            input_cell_history: vec![],
        }
    }

    /// Replaces the instruction sequence wholesale, without resetting tape,
    /// program counter or history. The caller keeps the program counter
    /// valid against the new sequence, or resets it first.
    pub fn load_instructions(&mut self, instructions: Vec<Instruction>)
        requires
            old(self).wf(),
            match old(self).instruction_pointer {
                InstructionPointer::Index(i) => (i as int) < instructions@.len(),
                _ => true,
            },
        ensures
            final(self).wf(),
            final(self)@ == (State { instructions: instructions@, ..old(self)@ }),
    {
        self.instructions = instructions;
    }

    /// Jumps to instruction `instruction_index`. Succeeds exactly when the
    /// index names an existing instruction; otherwise fails with
    /// `OutOfRange` and leaves the engine untouched.
    pub fn goto(&mut self, instruction_index: usize) -> (r: EngineResult)
        requires
            old(self).wf(),
        ensures
            final(self).wf(),
            instruction_index < old(self)@.instructions.len() ==> {
                &&& r == Ok::<(), Exception>(())
                &&& final(self)@ == (State {
                    ip: InstructionPointer::Index(instruction_index),
                    ..old(self)@
                })
            },
            instruction_index >= old(self)@.instructions.len() ==> {
                &&& r == Err::<(), Exception>(
                    Exception::Error(
                        Fault::OutOfRange {
                            index: instruction_index,
                            count: old(self).instructions.len(),
                        },
                    ),
                )
                &&& *final(self) == *old(self)
            },
    {
        if instruction_index < self.instructions.len() {
            self.instruction_pointer = InstructionPointer::Index(instruction_index);
            Ok(())
        } else {
            Exception::error(
                Fault::OutOfRange { index: instruction_index, count: self.instructions.len() },
            ).result()
        }
    }

    /// The instruction the program counter designates, or nothing at either
    /// boundary.
    pub fn current_instruction(&self) -> (r: Option<Instruction>)
        requires
            self.wf(),
        ensures
            r == spec_current(self@),
    {
        match self.instruction_pointer {
            InstructionPointer::Start => None,
            InstructionPointer::End => None,
            InstructionPointer::Index(i) => Some(self.instructions[i]),
        }
    }

    /// Advances the program counter one position (see `spec_advance`).
    /// Fails only at after-end, with `NavigationExhausted`, leaving the
    /// engine untouched.
    pub fn next_instruction(&mut self) -> (r: EngineResult)
        requires
            old(self).wf(),
        ensures
            final(self).wf(),
            r is Ok ==> spec_advance(old(self)@) == Ok::<State, Exception>(final(self)@),
            r matches Err(e) ==> spec_advance(old(self)@) == Err::<State, Exception>(e)
                && *final(self) == *old(self),
    {
        match self.instruction_pointer {
            InstructionPointer::End => {
                Exception::error(Fault::NavigationExhausted(Boundary::End)).result()
            },
            InstructionPointer::Start => {
                if self.instructions.len() == 0 {
                    self.instruction_pointer = InstructionPointer::End;
                } else {
                    self.instruction_pointer = InstructionPointer::Index(0);
                }
                Ok(())
            },
            InstructionPointer::Index(i) => {
                let count = self.instructions.len();
                if i + 1 == count {
                    self.instruction_pointer = InstructionPointer::End;
                } else {
                    self.instruction_pointer = InstructionPointer::Index(i + 1);
                }
                Ok(())
            },
        }
    }

    /// Retreats the program counter one position (see `spec_retreat`).
    /// Fails only at before-start, with `NavigationExhausted`, leaving the
    /// engine untouched.
    pub fn prev_instruction(&mut self) -> (r: EngineResult)
        requires
            old(self).wf(),
        ensures
            final(self).wf(),
            r is Ok ==> spec_retreat(old(self)@) == Ok::<State, Exception>(final(self)@),
            r matches Err(e) ==> spec_retreat(old(self)@) == Err::<State, Exception>(e)
                && *final(self) == *old(self),
    {
        match self.instruction_pointer {
            InstructionPointer::Start => {
                Exception::error(Fault::NavigationExhausted(Boundary::Start)).result()
            },
            InstructionPointer::End => {
                if self.instructions.len() == 0 {
                    self.instruction_pointer = InstructionPointer::Start;
                } else {
                    self.instruction_pointer = InstructionPointer::Index(
                        self.instructions.len() - 1,
                    );
                }
                Ok(())
            },
            InstructionPointer::Index(i) => {
                if i == 0 {
                    self.instruction_pointer = InstructionPointer::Start;
                } else {
                    self.instruction_pointer = InstructionPointer::Index(i - 1);
                }
                Ok(())
            },
        }
    }

    /// Moves the cursor one cell to the right; when the cursor walks past
    /// the current right edge, the tape silently grows by exactly one zero
    /// cell. Always succeeds.
    pub fn next_cell(&mut self) -> (r: EngineResult)
        requires
            old(self).wf(),
        ensures
            final(self).wf(),
            r == Ok::<(), Exception>(()),
            final(self)@ == spec_move_right(old(self)@),
    {
        let length = self.tape.len();
        self.tape_pointer = self.tape_pointer + 1;
        if self.tape_pointer == length {
            self.tape.push(0);
        }
        Ok(())
    }

    /// Moves the cursor one cell to the left. The tape does not grow to the
    /// left: at cell 0 this fails with `TapeUnderflow` and leaves the engine
    /// untouched.
    pub fn prev_cell(&mut self) -> (r: EngineResult)
        requires
            old(self).wf(),
        ensures
            final(self).wf(),
            old(self).tape_pointer == 0 ==> r == Err::<(), Exception>(
                Exception::Error(Fault::TapeUnderflow),
            ) && *final(self) == *old(self),
            old(self).tape_pointer > 0 ==> r == Ok::<(), Exception>(()) && final(self)@ == (State {
                cursor: old(self)@.cursor - 1,
                ..old(self)@
            }),
    {
        if self.tape_pointer == 0 {
            Exception::error(Fault::TapeUnderflow).result()
        } else {
            self.tape_pointer = self.tape_pointer - 1;
            Ok(())
        }
    }

    /// The byte under the cursor.
    pub fn cell(&self) -> (b: u8)
        requires
            self.wf(),
        ensures
            b == self@.cell(),
    {
        self.tape[self.tape_pointer]
    }

    /// Overwrites the byte under the cursor.
    pub fn set_cell(&mut self, value: u8)
        requires
            old(self).wf(),
        ensures
            final(self).wf(),
            final(self)@ == (State {
                tape: old(self)@.tape.update(old(self)@.cursor, value),
                ..old(self)@
            }),
    {
        self.tape[self.tape_pointer] = value;
    }

    /// Replaces the byte under the cursor by `f` of it: a read-modify-write
    /// with a pure byte function.
    pub fn map_cell<F: Fn(u8) -> u8>(&mut self, f: F)
        requires
            old(self).wf(),
            call_requires(f, (old(self)@.cell(),)),
        ensures
            final(self).wf(),
            call_ensures(f, (old(self)@.cell(),), final(self)@.cell()),
            final(self)@ == (State {
                tape: old(self)@.tape.update(old(self)@.cursor, final(self)@.cell()),
                ..old(self)@
            }),
    {
        let value = self.cell();
        let mapped = f(value);
        self.set_cell(mapped);
    }

    /// Runs the forward effect of an instruction against the engine state
    /// (see `spec_apply_effect`). On failure — `TapeUnderflow` for a left
    /// move at cell 0, `RequestingInput` for an input effect with no byte
    /// pending — the engine is left exactly as it was.
    pub fn apply_effect(&mut self, effect: Effect) -> (r: EngineResult)
        requires
            old(self).wf(),
        ensures
            final(self).wf(),
            r is Ok ==> spec_apply_effect(old(self)@, effect) == Ok::<State, Exception>(
                final(self)@,
            ),
            r matches Err(e) ==> spec_apply_effect(old(self)@, effect) == Err::<
                State,
                Exception,
            >(e) && *final(self) == *old(self),
    {
        match effect {
            Effect::Noop => Ok(()),
            Effect::MoveRight => self.next_cell(),
            Effect::MoveLeft => self.prev_cell(),
            Effect::Increment => {
                let value = self.cell();
                self.set_cell(if value == 255 { 0 } else { value + 1 });
                Ok(())
            },
            Effect::Decrement => {
                let value = self.cell();
                self.set_cell(if value == 0 { 255 } else { value - 1 });
                Ok(())
            },
            Effect::Output => {
                let value = self.cell();
                self.output.push(value);
                Ok(())
            },
            Effect::Input => {
                if self.input.len() == 0 {
                    Exception::RequestingInput.result()
                } else {
                    let byte = self.input.remove(0);
                    let overwritten = self.cell();
                    self.input_cell_history.push(overwritten);
                    self.set_cell(byte);
                    Ok(())
                }
            },
        }
    }

    /// Runs the inverse effect of an instruction against the engine state
    /// (see `spec_revert_effect`), exactly reversing what the forward effect
    /// did. On failure the engine is left exactly as it was.
    pub fn revert_effect(&mut self, effect: Effect) -> (r: EngineResult)
        requires
            old(self).wf(),
        ensures
            final(self).wf(),
            r is Ok ==> spec_revert_effect(old(self)@, effect) == Ok::<State, Exception>(
                final(self)@,
            ),
            r matches Err(e) ==> spec_revert_effect(old(self)@, effect) == Err::<
                State,
                Exception,
            >(e) && *final(self) == *old(self),
    {
        match effect {
            Effect::Noop => Ok(()),
            Effect::MoveRight => self.prev_cell(),
            Effect::MoveLeft => self.next_cell(),
            Effect::Increment => {
                let value = self.cell();
                self.set_cell(if value == 0 { 255 } else { value - 1 });
                Ok(())
            },
            Effect::Decrement => {
                let value = self.cell();
                self.set_cell(if value == 255 { 0 } else { value + 1 });
                Ok(())
            },
            Effect::Output => {
                if self.output.len() == 0 {
                    Exception::error(Fault::EmptyOutput).result()
                } else {
                    let _ = self.output.pop();
                    Ok(())
                }
            },
            Effect::Input => {
                if self.input_cell_history.len() == 0 {
                    Exception::error(Fault::EmptyCellRecord).result()
                } else {
                    let emitted = self.cell();
                    self.input.insert(0, emitted);
                    let recorded = match self.input_cell_history.pop() {
                        Some(b) => b,
                        None => 0,
                    };
                    self.set_cell(recorded);
                    proof {
                        let pre = old(self)@;
                        assert(self.input@ =~= seq![pre.cell()] + pre.input);
                        assert(self@ =~= (State {
                            tape: pre.tape.update(pre.cursor, pre.input_cell_history.last()),
                            input: seq![pre.cell()] + pre.input,
                            input_cell_history: pre.input_cell_history.drop_last(),
                            ..pre
                        }));
                    }
                    Ok(())
                }
            },
        }
    }

    /// One step of execution. At a boundary this merely advances the
    /// program counter (entering the sequence, or failing at after-end).
    /// At an index it runs the designated instruction's forward effect and,
    /// on success, appends the instruction to the history; on failure —
    /// `RequestingInput` included — nothing is recorded and the engine is
    /// left exactly as it was, so the very same step can be retried.
    pub fn step(&mut self) -> (r: EngineResult)
        requires
            old(self).wf(),
        ensures
            final(self).wf(),
            r is Ok ==> spec_step(old(self)@) == Ok::<State, Exception>(final(self)@),
            r matches Err(e) ==> spec_step(old(self)@) == Err::<State, Exception>(e)
                && *final(self) == *old(self),
    {
        match self.current_instruction() {
            Some(instruction) => {
                let result = self.apply_effect(instruction.effect);
                match result {
                    Ok(()) => {
                        self.history.push(instruction);
                        Ok(())
                    },
                    Err(e) => Err(e),
                }
            },
            None => self.next_instruction(),
        }
    }

    /// Undoes the most recent executed step: pops it from the history and
    /// runs its inverse effect. Fails with `NoHistory` when no step is left
    /// to undo. The popped entry is consumed even when the inverse effect
    /// fails; undo is a single best-effort attempt, not itself undoable.
    pub fn undo(&mut self) -> (r: EngineResult)
        requires
            old(self).wf(),
        ensures
            final(self).wf(),
            final(self)@ == spec_undo(old(self)@).0,
            r == spec_undo(old(self)@).1,
    {
        if self.history.len() == 0 {
            return Exception::error(Fault::NoHistory).result();
        }
        let instruction = self.history[self.history.len() - 1];
        let _ = self.history.pop();
        proof {
            assert(self@ =~= (State { history: old(self)@.history.drop_last(), ..old(self)@ }));
        }
        let result = self.revert_effect(instruction.effect);
        match result {
            Ok(()) => Ok(()),
            Err(e) => Err(e),
        }
    }

    /// Seeks forward: scans strictly after the current position (from index
    /// 0 at before-start) for the first instruction whose symbol matches,
    /// and jumps there. At after-end the search is immediately exhausted;
    /// when no instruction matches it fails with `NotFound` and the engine
    /// is left exactly as it was.
    pub fn goto_next(&mut self, goto: Instruction) -> (r: EngineResult)
        requires
            old(self).wf(),
        ensures
            final(self).wf(),
            old(self)@.ip is End ==> r == Err::<(), Exception>(
                Exception::Error(Fault::NavigationExhausted(Boundary::End)),
            ) && *final(self) == *old(self),
            !(old(self)@.ip is End) && has_symbol_in(
                old(self)@.instructions,
                goto.symbol,
                seek_start(old(self)@),
                old(self)@.instructions.len() as int,
            ) ==> {
                &&& r == Ok::<(), Exception>(())
                &&& final(self)@ == (State { ip: final(self)@.ip, ..old(self)@ })
                &&& match final(self)@.ip {
                    InstructionPointer::Index(j) => {
                        &&& seek_start(old(self)@) <= j < old(self)@.instructions.len()
                        &&& old(self)@.instructions[j as int].symbol == goto.symbol
                        &&& !has_symbol_in(
                            old(self)@.instructions,
                            goto.symbol,
                            seek_start(old(self)@),
                            j as int,
                        )
                    },
                    _ => false,
                }
            },
            !(old(self)@.ip is End) && !has_symbol_in(
                old(self)@.instructions,
                goto.symbol,
                seek_start(old(self)@),
                old(self)@.instructions.len() as int,
            ) ==> r == Err::<(), Exception>(Exception::Error(Fault::NotFound(goto.symbol)))
                && *final(self) == *old(self),
    {
        let count: usize = self.instructions.len();
        let start: usize = match self.instruction_pointer {
            InstructionPointer::End => {
                return Exception::error(Fault::NavigationExhausted(Boundary::End)).result();
            },
            InstructionPointer::Start => 0,
            InstructionPointer::Index(i) => i + 1,
        };
        let mut j: usize = start;
        while j < count
            invariant
                old(self).wf(),
                *self == *old(self),
                count == self.instructions@.len(),
                start as int == seek_start(old(self)@),
                start <= j <= count,
                !has_symbol_in(self.instructions@, goto.symbol, start as int, j as int),
            decreases count - j,
        {
            if self.instructions[j].symbol == goto.symbol {
                self.instruction_pointer = InstructionPointer::Index(j);
                return Ok(());
            }
            j = j + 1;
        }
        Exception::error(Fault::NotFound(goto.symbol)).result()
    }

    /// Seeks backward: scans strictly before the current position (the whole
    /// sequence at after-end) for the nearest earlier instruction whose
    /// symbol matches, and jumps there. At before-start the search is
    /// immediately exhausted; when no instruction matches it fails with
    /// `NotFound` and the engine is left exactly as it was.
    pub fn goto_prev(&mut self, goto: Instruction) -> (r: EngineResult)
        requires
            old(self).wf(),
        ensures
            final(self).wf(),
            old(self)@.ip is Start ==> r == Err::<(), Exception>(
                Exception::Error(Fault::NavigationExhausted(Boundary::Start)),
            ) && *final(self) == *old(self),
            !(old(self)@.ip is Start) && has_symbol_in(
                old(self)@.instructions,
                goto.symbol,
                0,
                seek_bound(old(self)@),
            ) ==> {
                &&& r == Ok::<(), Exception>(())
                &&& final(self)@ == (State { ip: final(self)@.ip, ..old(self)@ })
                &&& match final(self)@.ip {
                    InstructionPointer::Index(j) => {
                        &&& 0 <= j < seek_bound(old(self)@)
                        &&& old(self)@.instructions[j as int].symbol == goto.symbol
                        &&& !has_symbol_in(
                            old(self)@.instructions,
                            goto.symbol,
                            j + 1,
                            seek_bound(old(self)@),
                        )
                    },
                    _ => false,
                }
            },
            !(old(self)@.ip is Start) && !has_symbol_in(
                old(self)@.instructions,
                goto.symbol,
                0,
                seek_bound(old(self)@),
            ) ==> r == Err::<(), Exception>(Exception::Error(Fault::NotFound(goto.symbol)))
                && *final(self) == *old(self),
    {
        let bound: usize = match self.instruction_pointer {
            InstructionPointer::Start => {
                return Exception::error(Fault::NavigationExhausted(Boundary::Start)).result();
            },
            InstructionPointer::End => self.instructions.len(),
            InstructionPointer::Index(i) => i,
        };
        let mut k: usize = bound;
        while k > 0
            invariant
                old(self).wf(),
                *self == *old(self),
                bound as int == seek_bound(old(self)@),
                0 <= k <= bound,
                bound <= self.instructions@.len(),
                !has_symbol_in(self.instructions@, goto.symbol, k as int, bound as int),
            decreases k,
        {
            k = k - 1;
            if self.instructions[k].symbol == goto.symbol {
                self.instruction_pointer = InstructionPointer::Index(k);
                return Ok(());
            }
        }
        Exception::error(Fault::NotFound(goto.symbol)).result()
    }

    /// Prepends caller-supplied bytes to the pending input, draining
    /// `buffered`; bytes already queued are preserved after the new ones.
    /// Input requested mid-run can so be injected without disturbing
    /// previously staged input. This never fails.
    pub fn input(&mut self, buffered: &mut Vec<u8>)
        requires
            old(self).wf(),
        ensures
            final(self).wf(),
            final(self)@ == (State {
                input: old(buffered)@ + old(self)@.input,
                ..old(self)@
            }),
            final(buffered)@ == Seq::<u8>::empty(),
    {
        let mut merged: Vec<u8> = Vec::new();
        merged.append(buffered);
        merged.append(&mut self.input);
        self.input = merged;
    }
}

} // verus!
