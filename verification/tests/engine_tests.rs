use irv::engine::{
    ClientCommandType, ClientCommands, Engine, EngineOptions, EngineRunningState,
};
use irv::logfmt::StdLogLevel;
use irv::runner::{run_instruction, InstructionExecutionError, InstructionExecutionSeccess};

fn options(tps: usize, ipt: usize) -> EngineOptions {
    EngineOptions {
        memory_size: 2048,
        ticks_per_second: tps,
        instructions_per_tick: ipt,
    }
}

fn start(payload: &str) -> ClientCommands {
    ClientCommands {
        command_type: ClientCommandType::Start,
        payload: Some(payload.to_string()),
    }
}

fn bare(command_type: ClientCommandType) -> ClientCommands {
    ClientCommands {
        command_type,
        payload: None,
    }
}

const NOP_PROGRAM: &str = ".program:\n@start\nNOP\n";

#[test]
fn a_fresh_engine_is_stopped_at_tick_zero() {
    let e = Engine::new(options(5, 1));
    assert_eq!(e.state.tick, 0);
    assert_eq!(e.state.instruction_ptr, 0);
    assert_eq!(e.state.running_state, EngineRunningState::Stopped);
    assert!(e.program.is_none());
}

#[test]
fn start_parses_the_payload_and_runs() {
    let mut e = Engine::new(options(5, 1));
    let (snap, log) = e.run_client_commands(start(NOP_PROGRAM));
    assert!(log.is_none());
    let snap = snap.expect("start emits a snapshot");
    assert_eq!(snap.engine_running_state, EngineRunningState::Running);
    assert_eq!(snap.responding_to, Some(ClientCommandType::Start));
    assert!(e.program.is_some());
    assert_eq!(e.current_label.as_ref().unwrap().label_name, "start");
}

#[test]
fn start_with_unparsable_payload_only_logs() {
    let mut e = Engine::new(options(5, 1));
    let (snap, log) = e.run_client_commands(start(".program:\n@start\nFOO 1\n"));
    assert!(snap.is_none(), "a failed start emits no success snapshot");
    let log = log.expect("a failed start logs an error");
    assert_eq!(log.log_level, StdLogLevel::ERROR);
    assert_eq!(e.state.running_state, EngineRunningState::Stopped);
    assert!(e.program.is_none());
}

#[test]
fn start_from_stopped_resets_the_counters() {
    let mut e = Engine::new(options(5, 1));
    e.run_client_commands(start(NOP_PROGRAM));
    e.run_tick();
    e.run_tick();
    e.run_client_commands(bare(ClientCommandType::Stop));
    let tick_after_stop = e.state.tick;
    assert!(tick_after_stop > 0, "stop must not reset the tick");
    e.run_client_commands(start(NOP_PROGRAM));
    assert_eq!(e.state.tick, 0);
    assert_eq!(e.state.instruction_ptr, 0);
}

#[test]
fn stop_then_plain_start_keeps_the_program() {
    let mut e = Engine::new(options(5, 1));
    e.run_client_commands(start(NOP_PROGRAM));
    let held = e.program.clone();
    e.run_client_commands(bare(ClientCommandType::Stop));
    let (snap, log) = e.run_client_commands(bare(ClientCommandType::Start));
    assert!(snap.is_some());
    assert!(log.is_none());
    assert_eq!(e.program, held);
    assert_eq!(e.state.running_state, EngineRunningState::Running);
    assert_eq!(e.state.tick, 0);
}

#[test]
fn pause_and_resume_do_not_touch_counters() {
    let mut e = Engine::new(options(5, 1));
    e.run_client_commands(start(NOP_PROGRAM));
    e.run_tick();
    let tick = e.state.tick;
    e.run_client_commands(bare(ClientCommandType::Pause));
    assert_eq!(e.state.running_state, EngineRunningState::Paused);
    assert_eq!(e.state.tick, tick);
    let (_, _) = e.run_client_commands(bare(ClientCommandType::Start));
    assert_eq!(e.state.running_state, EngineRunningState::Running);
    assert_eq!(e.state.tick, tick, "resume must not reset the tick");
}

#[test]
fn parse_file_replaces_the_program_without_changing_run_state() {
    let mut e = Engine::new(options(5, 1));
    let (snap, log) = e.run_client_commands(ClientCommands {
        command_type: ClientCommandType::ParseFile,
        payload: Some(NOP_PROGRAM.to_string()),
    });
    assert!(log.is_none());
    let snap = snap.expect("parse file answers with a snapshot");
    assert_eq!(snap.responding_to, Some(ClientCommandType::ParseFile));
    assert_eq!(e.state.running_state, EngineRunningState::Stopped);
    assert!(e.program.is_some());
}

#[test]
fn parse_without_update_previews_but_keeps_the_engine() {
    let mut e = Engine::new(options(5, 1));
    let (snap, log) = e.run_client_commands(ClientCommands {
        command_type: ClientCommandType::ParseWithoutUpdate,
        payload: Some(NOP_PROGRAM.to_string()),
    });
    assert!(log.is_none());
    let snap = snap.expect("a preview snapshot");
    assert!(snap.program.is_some(), "the preview carries the parsed program");
    assert!(e.program.is_none(), "the engine must not adopt the preview");
}

#[test]
fn nop_program_executes_then_stops_at_end_of_label() {
    let mut e = Engine::new(options(5, 1));
    e.run_client_commands(start(NOP_PROGRAM));

    // Tick 0: the NOP executes.
    let (snap, log) = e.run_tick();
    assert!(snap.is_some());
    assert!(log.is_none());
    assert_eq!(e.state.instruction_ptr, 1);
    assert_eq!(e.state.tick, 1);
    assert_eq!(e.state.running_state, EngineRunningState::Running);

    // Tick 1: end of label; exactly one informational log, stopped.
    let (snap, log) = e.run_tick();
    assert!(snap.is_some());
    let log = log.expect("end of label logs once");
    assert_eq!(log.log_level, StdLogLevel::INFO);
    assert!(log.message.contains("Program Exited With Success!"));
    assert_eq!(e.state.running_state, EngineRunningState::Stopped);
    assert_eq!(e.state.tick, 2);

    // A stopped engine ticks no further.
    let (snap, log) = e.run_tick();
    assert!(snap.is_none());
    assert!(log.is_none());
    assert_eq!(e.state.tick, 2);
}

#[test]
fn instructions_per_tick_divisor_gates_execution() {
    let mut e = Engine::new(options(5, 3));
    e.run_client_commands(start(".program:\n@start\nNOP\nNOP\n"));
    // Tick 0 executes (0 % 3 == 0); ticks 1 and 2 wait; tick 3 executes.
    e.run_tick();
    assert_eq!(e.state.instruction_ptr, 1);
    e.run_tick();
    assert_eq!(e.state.instruction_ptr, 1);
    e.run_tick();
    assert_eq!(e.state.instruction_ptr, 1);
    e.run_tick();
    assert_eq!(e.state.instruction_ptr, 2);
    assert_eq!(e.state.tick, 4);
}

#[test]
fn flag_instructions_write_exactly_their_flag() {
    let mut e = Engine::new(options(5, 1));
    e.run_client_commands(start(".program:\n@start\nSEC 0\nSED 0\nCLC 0\n"));
    e.run_tick();
    assert!(e.registers.flag_carry);
    assert!(!e.registers.flag_decimal);
    e.run_tick();
    assert!(e.registers.flag_decimal);
    e.run_tick();
    assert!(!e.registers.flag_carry);
    assert!(e.registers.flag_decimal, "clearing carry must not touch decimal");
}

#[test]
fn brk_sets_the_break_flag() {
    let mut e = Engine::new(options(5, 1));
    e.run_client_commands(start(".program:\n@start\nBRK 0\n"));
    e.run_tick();
    assert!(e.registers.flag_break);
}

#[test]
fn unimplemented_opcode_stops_the_run_with_an_error_log() {
    let mut e = Engine::new(options(5, 1));
    e.run_client_commands(start(".program:\n@start\nLDA 5\n"));
    let (_, log) = e.run_tick();
    let log = log.expect("a dispatch failure logs an error");
    assert_eq!(log.log_level, StdLogLevel::ERROR);
    assert_eq!(e.state.running_state, EngineRunningState::Stopped);
}

#[test]
fn jump_transfers_to_the_named_label() {
    let mut e = Engine::new(options(5, 1));
    e.run_client_commands(start(".program:\n@start\nJMP @other,always\n@other\nSEC 0\n"));
    e.run_tick();
    assert_eq!(e.current_label.as_ref().unwrap().label_name, "other");
    assert_eq!(e.state.instruction_ptr, 0);
    e.run_tick();
    assert!(e.registers.flag_carry);
}

#[test]
fn jump_to_an_unknown_label_is_fatal_to_the_run() {
    let mut e = Engine::new(options(5, 1));
    e.run_client_commands(start(".program:\n@start\nJMP @nowhere\n"));
    let (_, log) = e.run_tick();
    assert_eq!(log.unwrap().log_level, StdLogLevel::ERROR);
    assert_eq!(e.state.running_state, EngineRunningState::Stopped);
}

#[test]
fn run_instruction_waits_on_ineligible_ticks() {
    let mut e = Engine::new(options(5, 2));
    e.run_client_commands(start(NOP_PROGRAM));
    e.state.tick = 1;
    let r = run_instruction(&mut e);
    assert_eq!(r, Ok(InstructionExecutionSeccess::WaitingForNextTick));
    assert_eq!(e.state.instruction_ptr, 0);
}

#[test]
fn run_instruction_reports_end_of_label() {
    let mut e = Engine::new(options(5, 1));
    e.run_client_commands(start(NOP_PROGRAM));
    e.state.instruction_ptr = 1;
    let r = run_instruction(&mut e);
    assert_eq!(r, Err(InstructionExecutionError::EndOfLabel));
}

#[test]
fn run_instruction_without_a_label_fails() {
    let mut e = Engine::new(options(5, 1));
    e.run_client_commands(bare(ClientCommandType::Start));
    let r = run_instruction(&mut e);
    assert_eq!(r, Err(InstructionExecutionError::NoActiveLabel));
}
