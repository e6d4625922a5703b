use vstd::prelude::*;

use crate::engine::{Boundary, Exception, Fault, InstructionPointer};
use crate::state::{
    spec_advance, spec_apply_effect, spec_move_right, spec_retreat, spec_revert_effect, spec_step,
    spec_undo, zero_padded, State,
};
use crate::instruction::Effect;

verus! {

/// The state a successful result carries.
pub open spec fn ok_state(r: Result<State, Exception>) -> State
    recommends
        r is Ok,
{
    match r {
        Ok(s) => s,
        Err(_) => arbitrary(),
    }
}

/// The state a present option carries.
pub open spec fn some_state(o: Option<State>) -> State
    recommends
        o is Some,
{
    match o {
        Some(s) => s,
        None => arbitrary(),
    }
}

/// `n` steps in a row, each of which must designate an instruction and
/// execute it successfully; `None` when any step is a boundary move or
/// fails.
pub open spec fn run_steps(s: State, n: nat) -> Option<State>
    decreases n,
{
    if n == 0 {
        Some(s)
    } else if !(s.ip matches InstructionPointer::Index(_)) {
        None
    } else {
        match spec_step(s) {
            Ok(s1) => run_steps(s1, (n - 1) as nat),
            Err(_) => None,
        }
    }
}

/// `n` undos in a row, each of which must succeed; `None` when any fails.
pub open spec fn run_undos(s: State, n: nat) -> Option<State>
    decreases n,
{
    if n == 0 {
        Some(s)
    } else if spec_undo(s).1 is Ok {
        run_undos(spec_undo(s).0, (n - 1) as nat)
    } else {
        None
    }
}

/// Boundary symmetry, failing half: advancing at after-end and retreating
/// at before-start always fail with `NavigationExhausted`, whatever the rest
/// of the state holds.
pub proof fn lemma_boundary_exhaustion(s: State)
    ensures
        s.ip is End ==> spec_advance(s) == Err::<State, Exception>(
            Exception::Error(Fault::NavigationExhausted(Boundary::End)),
        ),
        s.ip is Start ==> spec_retreat(s) == Err::<State, Exception>(
            Exception::Error(Fault::NavigationExhausted(Boundary::Start)),
        ),
{
}

/// Boundary symmetry, round-trip half: from a state that designates an
/// instruction, advancing then retreating — or retreating then advancing —
/// restores the whole state, program counter included.
pub proof fn lemma_advance_retreat_roundtrip(s: State)
    requires
        s.wf(),
        s.instructions.len() <= usize::MAX,
        s.ip matches InstructionPointer::Index(_),
    ensures
        spec_advance(s) matches Ok(s1) && spec_retreat(s1) == Ok::<State, Exception>(s),
        spec_retreat(s) matches Ok(s1) && spec_advance(s1) == Ok::<State, Exception>(s),
{
    let forward = spec_advance(s);
    assert(forward matches Ok(s1) && spec_retreat(s1) == Ok::<State, Exception>(s)) by {
        let s1 = match forward {
            Ok(s1) => s1,
            Err(_) => s,
        };
        let back = spec_retreat(s1);
        assert(back matches Ok(s2) && s2 =~= s);
    };
    let backward = spec_retreat(s);
    assert(backward matches Ok(s1) && spec_advance(s1) == Ok::<State, Exception>(s)) by {
        let s1 = match backward {
            Ok(s1) => s1,
            Err(_) => s,
        };
        let fwd = spec_advance(s1);
        assert(fwd matches Ok(s2) && s2 =~= s);
    };
}

/// Zero-padding composes.
proof fn lemma_zero_padded_trans(a: State, b: State, c: State)
    requires
        zero_padded(a, b),
        zero_padded(b, c),
    ensures
        zero_padded(a, c),
{
    assert forall|i: int| 0 <= i < a.tape.len() implies c.tape[i] == a.tape[i] by {
        assert(b.tape[i] == a.tape[i]);
    }
    assert forall|i: int| a.tape.len() <= i < c.tape.len() implies c.tape[i] == 0u8 by {
        if i < b.tape.len() {
            assert(c.tape[i] == b.tape[i]);
        }
    }
}

/// Round trip of one effect: a successful forward effect is exactly
/// reversed by its inverse effect. Only a tape cell grown by the forward
/// cursor move stays, holding zero.
pub proof fn lemma_effect_round_trip(s: State, effect: Effect)
    requires
        s.wf(),
        spec_apply_effect(s, effect) is Ok,
    ensures
        ok_state(spec_apply_effect(s, effect)).wf(),
        spec_revert_effect(ok_state(spec_apply_effect(s, effect)), effect) is Ok,
        zero_padded(
            s,
            ok_state(spec_revert_effect(ok_state(spec_apply_effect(s, effect)), effect)),
        ),
{
    let s1 = ok_state(spec_apply_effect(s, effect));
    match effect {
        Effect::Noop => {},
        Effect::MoveRight => {},
        Effect::MoveLeft => {},
        Effect::Increment => {},
        Effect::Decrement => {},
        Effect::Output => {
            let s2 = ok_state(spec_revert_effect(s1, effect));
            assert(s2.output =~= s.output);
        },
        Effect::Input => {
            let s2 = ok_state(spec_revert_effect(s1, effect));
            assert(s1.cell() == s.input[0]);
            assert(s2.input =~= s.input);
            assert(s2.input_cell_history =~= s.input_cell_history);
        },
    }
}

/// The inverse of an effect behaves the same on a zero-padded state as on
/// the state it was padded from, up to zero-padding of the results.
proof fn lemma_revert_padded(a: State, b: State, effect: Effect)
    requires
        a.wf(),
        zero_padded(a, b),
        spec_revert_effect(a, effect) is Ok,
    ensures
        spec_revert_effect(b, effect) is Ok,
        zero_padded(ok_state(spec_revert_effect(a, effect)), ok_state(spec_revert_effect(b, effect))),
{
    let a2 = ok_state(spec_revert_effect(a, effect));
    let b2 = ok_state(spec_revert_effect(b, effect));
    assert(b.cell() == a.cell());
    match effect {
        Effect::Noop => {},
        Effect::MoveRight => {},
        Effect::MoveLeft => {
            if a.tape.len() < b.tape.len() {
                assert(a.cursor + 1 < b.tape.len());
                assert forall|i: int| 0 <= i < a2.tape.len() implies b2.tape[i] == a2.tape[i] by {
                    if i < a.tape.len() {
                        assert(b.tape[i] == a.tape[i]);
                    } else {
                        assert(a2.tape[i] == 0u8);
                        assert(b2.tape[i] == 0u8);
                    }
                }
            }
        },
        Effect::Increment => {},
        Effect::Decrement => {},
        Effect::Output => {},
        Effect::Input => {},
    }
}

/// Undo behaves the same on a zero-padded state as on the state it was
/// padded from, up to zero-padding of the results.
proof fn lemma_undo_padded(a: State, b: State)
    requires
        a.wf(),
        zero_padded(a, b),
        spec_undo(a).1 is Ok,
    ensures
        spec_undo(b).1 is Ok,
        zero_padded(spec_undo(a).0, spec_undo(b).0),
{
    let instruction = a.history.last();
    let popped_a = State { history: a.history.drop_last(), ..a };
    let popped_b = State { history: b.history.drop_last(), ..b };
    assert(zero_padded(popped_a, popped_b));
    assert(popped_a.wf());
    lemma_revert_padded(popped_a, popped_b, instruction.effect);
}

/// One executing step followed by one undo restores the whole state —
/// history and program counter included — up to zero-padding of the tape.
pub proof fn lemma_step_undo(s: State)
    requires
        s.wf(),
        s.ip matches InstructionPointer::Index(_),
        spec_step(s) is Ok,
    ensures
        ok_state(spec_step(s)).wf(),
        spec_undo(ok_state(spec_step(s))).1 == Ok::<(), Exception>(()),
        zero_padded(s, spec_undo(ok_state(spec_step(s))).0),
{
    let i = match s.ip {
        InstructionPointer::Index(i) => i as int,
        _ => 0,
    };
    let instruction = s.instructions[i];
    let sa = ok_state(spec_apply_effect(s, instruction.effect));
    let s1 = ok_state(spec_step(s));
    lemma_effect_round_trip(s, instruction.effect);
    assert(s1 == (State { history: sa.history.push(instruction), ..sa }));
    assert(s1.history.last() == instruction);
    let popped = State { history: s1.history.drop_last(), ..s1 };
    assert(popped.history =~= sa.history);
    assert(popped =~= sa);
}

/// Appending one more successful undo to a run of undos.
proof fn lemma_run_undos_snoc(s: State, n: nat)
    requires
        run_undos(s, n) is Some,
        spec_undo(some_state(run_undos(s, n))).1 is Ok,
    ensures
        run_undos(s, n + 1) == Some(spec_undo(some_state(run_undos(s, n))).0),
    decreases n,
{
    if n == 0 {
        assert(run_undos(s, 1) == run_undos(spec_undo(s).0, 0));
    } else {
        assert(run_undos(s, n) == run_undos(spec_undo(s).0, (n - 1) as nat));
        lemma_run_undos_snoc(spec_undo(s).0, (n - 1) as nat);
        assert(run_undos(s, n + 1) == run_undos(spec_undo(s).0, n));
    }
}

/// Invertibility: any `n` successful executing steps, followed by `n`
/// undos, succeed at undoing and restore the cursor, the output, the input,
/// the history, the program counter and every tape cell that existed before
/// the run. Tape cells grown during the run stay, holding zero; when the
/// tape did not grow, the state is restored exactly.
pub proof fn lemma_invertibility(s: State, n: nat)
    requires
        s.wf(),
        run_steps(s, n) is Some,
    ensures
        run_undos(some_state(run_steps(s, n)), n) is Some,
        zero_padded(s, some_state(run_undos(some_state(run_steps(s, n)), n))),
        ({
            let t = some_state(run_undos(some_state(run_steps(s, n)), n));
            t.tape.len() == s.tape.len() ==> t == s
        }),
    decreases n,
{
    let sn = some_state(run_steps(s, n));
    if n == 0 {
    } else {
        let s1 = ok_state(spec_step(s));
        lemma_step_undo(s);
        lemma_invertibility(s1, (n - 1) as nat);
        let t1 = some_state(run_undos(sn, (n - 1) as nat));
        lemma_undo_padded(s1, t1);
        lemma_run_undos_snoc(sn, (n - 1) as nat);
        lemma_zero_padded_trans(s, spec_undo(s1).0, spec_undo(t1).0);
    }
    let t = some_state(run_undos(sn, n));
    if t.tape.len() == s.tape.len() {
        assert(t.tape =~= s.tape);
        assert(t =~= s);
    }
}

/// Tape growth monotonicity: moving right from the last cell grows the tape
/// by exactly one zero cell, never more, and leaves the cursor on the new
/// last cell — so repeated moves from the right edge grow the tape one cell
/// per move, skipping no index.
pub proof fn lemma_tape_growth(s: State)
    requires
        s.wf(),
        s.cursor == s.tape.len() - 1,
    ensures
        ({
            let s1 = spec_move_right(s);
            &&& s1.tape == s.tape.push(0u8)
            &&& s1.cursor == s1.tape.len() - 1
            &&& s1.wf()
        }),
{
}

} // verus!
