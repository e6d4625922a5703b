use reversible_engine::engine::{
    Boundary, Engine, EngineResult, Exception, Fault, InstructionPointer,
};
use reversible_engine::instruction::{Effect, Instruction};

fn noop(symbol: char) -> Instruction {
    Instruction { symbol, effect: Effect::Noop }
}

fn noop_a() -> Instruction {
    noop('a')
}

fn noop_b() -> Instruction {
    noop('b')
}

fn noop_c() -> Instruction {
    noop('c')
}

fn ok(result: EngineResult) {
    assert_eq!(result, Ok(()))
}

#[test]
fn new_builds_blank_program() {
    let program = Engine::new(vec![noop_a(), noop_b(), noop_c()]);

    assert_eq!(
        program,
        Engine {
            tape: vec![0],
            tape_pointer: 0,
            instructions: vec![noop_a(), noop_b(), noop_c()],
            instruction_pointer: InstructionPointer::Start,
            history: vec![],
            output: vec![],
            input: vec![],
            input_cell_history: vec![],
        }
    );
}

#[test]
fn goto_sets_instruction_pointer() {
    let mut program = Engine::new(vec![noop_a(), noop_b(), noop_c()]);

    ok(program.goto(1));

    assert_eq!(program.current_instruction(), Some(noop_b()));
    assert_eq!(program.instruction_pointer, InstructionPointer::Index(1));
}

#[test]
fn goto_overrun_fails_gracefully() {
    let mut program = Engine::new(vec![noop_a(), noop_b(), noop_c()]);

    assert!(program.goto(3).is_err());
    assert_eq!(program.instruction_pointer, InstructionPointer::Start);
}

#[test]
fn goto_next_moves_to_next_instruction() {
    let mut program = Engine::new(vec![
        noop_a(),
        noop_b(),
        noop_c(),
        noop_b(),
        noop_a(),
        noop_c(),
    ]);

    ok(program.goto_next(noop_c()));

    assert_eq!(program.current_instruction(), Some(noop_c()));
    assert_eq!(program.instruction_pointer, InstructionPointer::Index(2));
}

#[test]
fn goto_next_twice_moves_to_second_instruction() {
    let mut program = Engine::new(vec![
        noop_a(),
        noop_b(),
        noop_c(),
        noop_b(),
        noop_a(),
        noop_c(),
    ]);

    ok(program.goto_next(noop_c()));
    ok(program.goto_next(noop_c()));

    assert_eq!(program.current_instruction(), Some(noop_c()));
    assert_eq!(program.instruction_pointer, InstructionPointer::Index(5));
}

#[test]
fn goto_next_fails_gracefully_on_overrun() {
    let mut program = Engine::new(vec![noop_a(), noop_b(), noop_c(), noop_a()]);

    ok(program.goto_next(noop_c()));

    assert!(program.goto_next(noop_b()).is_err());
    assert_eq!(program.current_instruction(), Some(noop_c()));
    assert_eq!(program.instruction_pointer, InstructionPointer::Index(2));
}

#[test]
fn goto_prev_moves_to_prev_instruction() {
    let mut program = Engine::new(vec![
        noop_a(),
        noop_b(),
        noop_c(),
        noop_b(),
        noop_a(),
        noop_c(),
    ]);

    ok(program.goto(5));
    ok(program.goto_prev(noop_a()));

    assert_eq!(program.current_instruction(), Some(noop_a()));
    assert_eq!(program.instruction_pointer, InstructionPointer::Index(4));
}

#[test]
fn goto_prev_twice_moves_to_second_instruction() {
    let mut program = Engine::new(vec![
        noop_a(),
        noop_b(),
        noop_c(),
        noop_b(),
        noop_a(),
        noop_c(),
    ]);

    ok(program.goto(5));
    ok(program.goto_prev(noop_a()));
    ok(program.goto_prev(noop_a()));

    assert_eq!(program.current_instruction(), Some(noop_a()));
    assert_eq!(program.instruction_pointer, InstructionPointer::Index(0));
}

#[test]
fn goto_prev_fails_gracefully_on_underrun() {
    let mut program = Engine::new(vec![noop_c(), noop_a(), noop_b(), noop_c()]);

    ok(program.goto(3));
    ok(program.goto_prev(noop_a()));

    assert!(program.goto_prev(noop_b()).is_err());
    assert_eq!(program.current_instruction(), Some(noop_a()));
    assert_eq!(program.instruction_pointer, InstructionPointer::Index(1));
}

#[test]
fn seek_forward_exhausts_after_last_match() {
    let mut program = Engine::new(vec![
        noop_a(),
        noop_b(),
        noop_c(),
        noop_b(),
        noop_a(),
        noop_c(),
    ]);

    ok(program.goto_next(noop_c()));
    assert_eq!(program.instruction_pointer, InstructionPointer::Index(2));

    ok(program.goto_next(noop_c()));
    assert_eq!(program.instruction_pointer, InstructionPointer::Index(5));

    assert_eq!(
        program.goto_next(noop_c()),
        Err(Exception::Error(Fault::NotFound('c')))
    );
    assert_eq!(program.instruction_pointer, InstructionPointer::Index(5));
}

#[test]
fn seek_backward_from_end_reaches_last_instruction() {
    let mut program = Engine::new(vec![noop_c(), noop_a(), noop_b(), noop_c()]);

    ok(program.goto(3));
    ok(program.next_instruction());
    assert_eq!(program.instruction_pointer, InstructionPointer::End);

    ok(program.goto_prev(noop_c()));
    assert_eq!(program.instruction_pointer, InstructionPointer::Index(3));
}

#[test]
fn jump_out_of_range_reports_instruction_count() {
    let mut program = Engine::new(vec![noop_a(), noop_b(), noop_c()]);

    ok(program.goto(1));

    assert_eq!(
        program.goto(3),
        Err(Exception::Error(Fault::OutOfRange { index: 3, count: 3 }))
    );
    assert_eq!(program.instruction_pointer, InstructionPointer::Index(1));
}

#[test]
fn advance_fails_only_at_the_end() {
    let mut program = Engine::new(vec![noop_a(), noop_b()]);

    ok(program.next_instruction());
    assert_eq!(program.instruction_pointer, InstructionPointer::Index(0));
    ok(program.next_instruction());
    assert_eq!(program.instruction_pointer, InstructionPointer::Index(1));
    ok(program.next_instruction());
    assert_eq!(program.instruction_pointer, InstructionPointer::End);

    assert_eq!(
        program.next_instruction(),
        Err(Exception::Error(Fault::NavigationExhausted(Boundary::End)))
    );
    assert_eq!(program.instruction_pointer, InstructionPointer::End);
}

#[test]
fn retreat_fails_only_at_the_start() {
    let mut program = Engine::new(vec![noop_a(), noop_b()]);

    assert_eq!(
        program.prev_instruction(),
        Err(Exception::Error(Fault::NavigationExhausted(Boundary::Start)))
    );
    assert_eq!(program.instruction_pointer, InstructionPointer::Start);
}

#[test]
fn advance_then_retreat_is_a_noop_between_boundaries() {
    let mut program = Engine::new(vec![noop_a(), noop_b(), noop_c()]);

    ok(program.goto(1));
    ok(program.next_instruction());
    ok(program.prev_instruction());
    assert_eq!(program.instruction_pointer, InstructionPointer::Index(1));

    ok(program.prev_instruction());
    ok(program.next_instruction());
    assert_eq!(program.instruction_pointer, InstructionPointer::Index(1));
}

#[test]
fn empty_program_is_passed_over() {
    let mut program = Engine::new(vec![]);

    ok(program.next_instruction());
    assert_eq!(program.instruction_pointer, InstructionPointer::End);
    ok(program.prev_instruction());
    assert_eq!(program.instruction_pointer, InstructionPointer::Start);

    assert_eq!(
        program.goto(0),
        Err(Exception::Error(Fault::OutOfRange { index: 0, count: 0 }))
    );
}

#[test]
fn load_instructions_replaces_only_the_program() {
    let mut program = Engine::new(vec![noop_a()]);

    ok(program.goto(0));
    program.load_instructions(vec![noop_b(), noop_c()]);

    assert_eq!(program.current_instruction(), Some(noop_b()));
    assert_eq!(program.instruction_pointer, InstructionPointer::Index(0));
    assert_eq!(program.tape, vec![0]);
    assert_eq!(program.tape_pointer, 0);
}

#[test]
fn exception_helpers_build_errors() {
    assert_eq!(
        Exception::error(Fault::NoHistory),
        Exception::Error(Fault::NoHistory)
    );

    let result: Result<(), Exception> = Exception::error(Fault::NoHistory).result();
    assert_eq!(result, Err(Exception::Error(Fault::NoHistory)));

    let requesting: Result<(), Exception> = Exception::RequestingInput.result();
    assert_eq!(requesting, Err(Exception::RequestingInput));
}
