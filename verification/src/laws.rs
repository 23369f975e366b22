//! The engine's laws: proof functions stating what the command and tick
//! transitions guarantee across calls — counter resets, program
//! retention, the instruction-issue gate, and the end-of-label stop.

use vstd::prelude::*;
use vstd::arithmetic::div_mod::{
    lemma_fundamental_div_mod, lemma_mod_bound, lemma_mod_multiples_basic,
};
use crate::engine::{
    apply_command_spec, bump_tick, snapshot_of, stop_engine, tick_spec, ClientCommandType,
    ClientCommandsV, EngineRunningState, EngineV, options_valid,
};
use crate::logfmt::StdLogLevel;
use crate::parser::parse_source;

verus! {

/// Exactly one instruction executes per `d` ticks while running: among
/// any `d` consecutive tick values there is exactly one that the
/// instruction-issue gate `tick % d == 0` lets through.
pub proof fn lemma_one_eligible_tick_per_window(d: int, start: int)
    requires
        d >= 1,
        start >= 0,
    ensures
        exists|t: int| start <= t < start + d && #[trigger] (t % d) == 0,
        forall|t1: int, t2: int|
            start <= t1 < start + d && start <= t2 < start + d && #[trigger] (t1 % d) == 0
                && #[trigger] (t2 % d) == 0 ==> t1 == t2,
{
    let r = start % d;
    lemma_mod_bound(start, d);
    lemma_fundamental_div_mod(start, d);
    if r == 0 {
        assert(start % d == 0);
    } else {
        let q = start / d;
        let t0 = start + d - r;
        assert(start == d * q + r);
        assert(t0 == (q + 1) * d) by (nonlinear_arith)
            requires
                start == d * q + r,
                t0 == start + d - r,
        ;
        lemma_mod_multiples_basic(q + 1, d);
        assert(t0 % d == 0);
        assert(start <= t0 < start + d);
    }
    assert forall|t1: int, t2: int|
        start <= t1 < start + d && start <= t2 < start + d && #[trigger] (t1 % d) == 0
            && #[trigger] (t2 % d) == 0 implies t1 == t2 by {
        lemma_fundamental_div_mod(t1, d);
        lemma_fundamental_div_mod(t2, d);
        let q1 = t1 / d;
        let q2 = t2 / d;
        assert(t1 == q1 * d);
        assert(t2 == q2 * d);
        if q1 != q2 {
            assert(t1 - t2 >= d || t2 - t1 >= d) by (nonlinear_arith)
                requires
                    t1 == q1 * d,
                    t2 == q2 * d,
                    q1 != q2,
                    d >= 1,
            ;
        }
    }
}

/// An ineligible tick leaves a running engine untouched apart from its
/// tick counter: there is no instruction step and no log, and the
/// periodic snapshot shows the state as it stood.
pub proof fn lemma_ineligible_tick_is_noop(e: EngineV)
    requires
        e.state.running_state == EngineRunningState::Running,
        options_valid(e.options),
        e.state.tick % e.options.instructions_per_tick != 0,
    ensures
        ({
            let (e2, snap, log) = tick_spec(e);
            e2 == bump_tick(e) && snap == Some(snapshot_of(e, None)) && log is None
        }),
{
}

/// A start from stopped resets the tick counter and the instruction
/// pointer to zero and sets the engine running, whatever the counters
/// held before — both with a payload that parses and without one.
pub proof fn lemma_start_from_stopped_resets(e: EngineV, payload: Option<Seq<char>>)
    requires
        e.state.running_state == EngineRunningState::Stopped,
        payload matches Some(src) ==> parse_source(src) is Ok,
    ensures
        ({
            let (e2, snap, log) = apply_command_spec(
                e,
                ClientCommandsV { command_type: ClientCommandType::Start, payload },
            );
            e2.state.tick == 0 && e2.state.instruction_ptr == 0 && e2.state.running_state
                == EngineRunningState::Running
        }),
{
}

/// A stop followed by a start without payload neither reparses nor alters
/// the held program, and resets the counters.
pub proof fn lemma_stop_then_plain_start_keeps_program(e: EngineV)
    ensures
        ({
            let e1 = apply_command_spec(
                e,
                ClientCommandsV { command_type: ClientCommandType::Stop, payload: None },
            ).0;
            let e2 = apply_command_spec(
                e1,
                ClientCommandsV { command_type: ClientCommandType::Start, payload: None },
            ).0;
            e2.program == e.program && e2.state.tick == 0 && e2.state.instruction_ptr == 0
        }),
{
}

/// A start from stopped that carries a payload always reparses: the
/// program the engine holds afterwards is the payload's parse, not the
/// program held before.
pub proof fn lemma_start_with_payload_reparses(e: EngineV, src: Seq<char>)
    requires
        e.state.running_state == EngineRunningState::Stopped,
        parse_source(src) is Ok,
    ensures
        apply_command_spec(
            e,
            ClientCommandsV { command_type: ClientCommandType::Start, payload: Some(src) },
        ).0.program == Some(parse_source(src)->Ok_0),
{
}

/// Reaching the end of the current label's instruction list while running
/// produces exactly one transition to stopped with exactly one
/// informational log — never an error log — on that tick.
pub proof fn lemma_end_of_label_stops(e: EngineV)
    requires
        e.state.running_state == EngineRunningState::Running,
        options_valid(e.options),
        e.state.tick % e.options.instructions_per_tick == 0,
        e.current_label matches Some(l) && l.instructions matches Some(ins) && ins.len()
            <= e.state.instruction_ptr,
    ensures
        ({
            let (e2, snap, log) = tick_spec(e);
            &&& e2 == bump_tick(stop_engine(e))
            &&& e2.state.running_state == EngineRunningState::Stopped
            &&& snap == Some(snapshot_of(e, None))
            &&& log matches Some(le) && le.level == StdLogLevel::INFO && le.body
                == "Program Exited With Success!"@
        }),
{
}

} // verus!
