use reversible_engine::engine::{Engine, EngineResult, Exception, Fault, InstructionPointer};
use reversible_engine::instruction::{Effect, Instruction};

fn instr(symbol: char, effect: Effect) -> Instruction {
    Instruction { symbol, effect }
}

fn ok(result: EngineResult) {
    assert_eq!(result, Ok(()))
}

#[test]
fn step_at_boundaries_only_navigates() {
    let mut program = Engine::new(vec![instr('a', Effect::Noop)]);

    ok(program.step());
    assert_eq!(program.instruction_pointer, InstructionPointer::Index(0));
    assert_eq!(program.history, vec![]);

    ok(program.step());
    assert_eq!(program.instruction_pointer, InstructionPointer::Index(0));
    assert_eq!(program.history, vec![instr('a', Effect::Noop)]);
}

#[test]
fn undo_without_history_fails() {
    let mut program = Engine::new(vec![instr('a', Effect::Noop)]);

    assert_eq!(program.undo(), Err(Exception::Error(Fault::NoHistory)));
}

#[test]
fn tape_grows_one_zero_cell_per_move_right() {
    let mut program = Engine::new(vec![]);

    ok(program.next_cell());
    assert_eq!(program.tape, vec![0, 0]);
    assert_eq!(program.tape_pointer, 1);

    ok(program.next_cell());
    assert_eq!(program.tape, vec![0, 0, 0]);
    assert_eq!(program.tape_pointer, 2);

    ok(program.next_cell());
    assert_eq!(program.tape, vec![0, 0, 0, 0]);
    assert_eq!(program.tape_pointer, 3);
}

#[test]
fn moving_left_of_the_first_cell_fails() {
    let mut program = Engine::new(vec![]);

    assert_eq!(program.prev_cell(), Err(Exception::Error(Fault::TapeUnderflow)));
    assert_eq!(program.tape_pointer, 0);
    assert_eq!(program.tape, vec![0]);
}

#[test]
fn cell_operations_read_modify_and_write() {
    let mut program = Engine::new(vec![]);

    assert_eq!(program.cell(), 0);
    program.set_cell(41);
    assert_eq!(program.cell(), 41);
    program.map_cell(|value| value.wrapping_add(1));
    assert_eq!(program.cell(), 42);
    assert_eq!(program.tape, vec![42]);
}

#[test]
fn increment_and_decrement_wrap_around() {
    let mut program = Engine::new(vec![instr('+', Effect::Increment), instr('-', Effect::Decrement)]);

    program.set_cell(255);
    ok(program.goto(0));
    ok(program.step());
    assert_eq!(program.cell(), 0);

    ok(program.goto(1));
    ok(program.step());
    assert_eq!(program.cell(), 255);
}

#[test]
fn output_steps_emit_and_undo_retracts() {
    let mut program = Engine::new(vec![instr('.', Effect::Output)]);

    program.set_cell(42);
    ok(program.goto(0));
    ok(program.step());
    assert_eq!(program.output, vec![42]);

    ok(program.undo());
    assert_eq!(program.output, vec![]);
    assert_eq!(program.history, vec![]);
}

#[test]
fn requesting_input_leaves_the_step_unexecuted() {
    let mut program = Engine::new(vec![instr(',', Effect::Input)]);

    ok(program.goto(0));
    assert_eq!(program.step(), Err(Exception::RequestingInput));
    assert_eq!(program.history, vec![]);
    assert_eq!(program.cell(), 0);

    let mut supplied = vec![7, 8];
    program.input(&mut supplied);
    assert_eq!(supplied, vec![]);
    assert_eq!(program.input, vec![7, 8]);

    ok(program.step());
    assert_eq!(program.cell(), 7);
    assert_eq!(program.input, vec![8]);
    assert_eq!(program.input_cell_history, vec![0]);
}

#[test]
fn supplied_input_precedes_queued_input() {
    let mut program = Engine::new(vec![]);

    let mut first = vec![1, 2];
    program.input(&mut first);
    let mut second = vec![3, 4];
    program.input(&mut second);

    assert_eq!(program.input, vec![3, 4, 1, 2]);
}

#[test]
fn undoing_an_input_step_requeues_the_byte() {
    let mut program = Engine::new(vec![instr(',', Effect::Input)]);

    program.set_cell(9);
    let mut supplied = vec![7];
    program.input(&mut supplied);
    ok(program.goto(0));
    ok(program.step());
    assert_eq!(program.cell(), 7);
    assert_eq!(program.input, vec![]);

    ok(program.undo());
    assert_eq!(program.cell(), 9);
    assert_eq!(program.input, vec![7]);
    assert_eq!(program.input_cell_history, vec![]);
    assert_eq!(program.history, vec![]);
}

#[test]
fn stepped_run_is_reversed_by_undo() {
    let mut program = Engine::new(vec![
        instr('>', Effect::MoveRight),
        instr('+', Effect::Increment),
        instr('<', Effect::MoveLeft),
    ]);

    ok(program.goto(0));
    ok(program.step());
    assert_eq!(program.tape, vec![0, 0]);
    assert_eq!(program.tape_pointer, 1);

    ok(program.goto(1));
    ok(program.step());
    assert_eq!(program.tape, vec![0, 1]);

    ok(program.goto(2));
    ok(program.step());
    assert_eq!(program.tape_pointer, 0);
    assert_eq!(program.history.len(), 3);

    ok(program.undo());
    ok(program.undo());
    ok(program.undo());

    assert_eq!(program.tape, vec![0, 0]);
    assert_eq!(program.tape_pointer, 0);
    assert_eq!(program.output, vec![]);
    assert_eq!(program.history, vec![]);
}

#[test]
fn failed_step_changes_nothing() {
    let mut program = Engine::new(vec![instr('<', Effect::MoveLeft)]);

    ok(program.goto(0));
    assert_eq!(program.step(), Err(Exception::Error(Fault::TapeUnderflow)));
    assert_eq!(program.tape, vec![0]);
    assert_eq!(program.tape_pointer, 0);
    assert_eq!(program.history, vec![]);
    assert_eq!(program.instruction_pointer, InstructionPointer::Index(0));
}

#[test]
fn undo_consumes_the_entry_even_when_the_inverse_fails() {
    let mut program = Engine::new(vec![instr('.', Effect::Output)]);

    ok(program.goto(0));
    ok(program.step());
    assert_eq!(program.history.len(), 1);

    program.output.clear();
    assert_eq!(program.undo(), Err(Exception::Error(Fault::EmptyOutput)));
    assert_eq!(program.history, vec![]);
}

#[test]
fn undo_of_an_input_step_needs_the_cell_record() {
    let mut program = Engine::new(vec![instr(',', Effect::Input)]);

    let mut supplied = vec![7];
    program.input(&mut supplied);
    ok(program.goto(0));
    ok(program.step());

    program.input_cell_history.clear();
    assert_eq!(program.undo(), Err(Exception::Error(Fault::EmptyCellRecord)));
    assert_eq!(program.history, vec![]);
}
