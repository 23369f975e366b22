//! The execution engine: a state machine over {Stopped, Running, Paused}
//! driven by client commands, with a tick loop body that reports a
//! snapshot, executes at most one instruction per eligible tick, and
//! advances the tick counter.  The engine owns its program, register file
//! and state; channels, pacing and the loop itself live outside the
//! library, which exposes one pure transition per command and per tick.

use vstd::prelude::*;
use crate::lang::{
    Label, LabelV, Program, ProgramV, Registers, program_start_label, zero_registers,
};
use crate::logfmt::{StdLogLevel, StdLogMessage, is_log_for};
use crate::parser::{ParseErrorV, parse_input, parse_source};
use crate::runner::{
    InstructionExecutionError, run_instruction, run_instruction_spec, step_error_message,
};

verus! {

/// Whether the engine is stopped, running, or paused.
#[derive(Debug, Clone, Copy, PartialEq, Eq, Structural)]
pub enum EngineRunningState {
    Stopped,
    Running,
    Paused,
}

impl Default for EngineRunningState {
    /// A fresh engine is stopped.
    fn default() -> (r: EngineRunningState)
        ensures
            r == EngineRunningState::Stopped,
    {
        EngineRunningState::Stopped
    }
}

/// What the engine consumes, not produces: memory size, tick rate, and
/// the instruction-issue divisor.
#[derive(Debug, Clone, Copy, PartialEq, Eq, Structural)]
pub struct EngineOptions {
    pub memory_size: usize,
    pub ticks_per_second: usize,
    pub instructions_per_tick: usize,
}

/// Both rates must be positive: the tick pacing divides by one and the
/// step gate takes the tick modulo the other.
pub open spec fn options_valid(o: EngineOptions) -> bool {
    o.ticks_per_second >= 1 && o.instructions_per_tick >= 1
}

/// The engine's mutable counters and run state.
#[derive(Debug, Clone, Copy, PartialEq, Eq, Structural)]
pub struct EngineState {
    /// Monotonic tick counter; reset only by a start from stopped.
    pub tick: usize,
    /// Index of the next instruction in the current label.
    pub instruction_ptr: usize,
    pub running_state: EngineRunningState,
}

/// A tagged request from a client.
#[derive(Debug, Clone, Copy, PartialEq, Eq, Structural)]
pub enum ClientCommandType {
    Start,
    Stop,
    Pause,
    ParseFile,
    ParseWithoutUpdate,
    TranslateToIR,
    TranslateToIRWithoutUpdate,
}

/// A command with its optional source payload.
#[derive(Debug, Clone, PartialEq)]
pub struct ClientCommands {
    pub command_type: ClientCommandType,
    pub payload: Option<String>,
}

/// Ghost form of [`ClientCommands`].
pub struct ClientCommandsV {
    pub command_type: ClientCommandType,
    pub payload: Option<Seq<char>>,
}

impl View for ClientCommands {
    type V = ClientCommandsV;

    open spec fn view(&self) -> ClientCommandsV {
        ClientCommandsV {
            command_type: self.command_type,
            payload: match self.payload {
                Option::None => None,
                Option::Some(s) => Some(s@),
            },
        }
    }
}

/// An immutable snapshot of engine-visible state, sent to observers.
#[derive(Debug, Clone, PartialEq)]
pub struct EngineData {
    pub tick: usize,
    pub engine_running_state: EngineRunningState,
    pub program: Option<Program>,
    pub responding_to: Option<ClientCommandType>,
    pub registers: Registers,
}

/// Ghost form of [`EngineData`].
pub struct EngineDataV {
    pub tick: usize,
    pub engine_running_state: EngineRunningState,
    pub program: Option<ProgramV>,
    pub responding_to: Option<ClientCommandType>,
    pub registers: Registers,
}

impl View for EngineData {
    type V = EngineDataV;

    open spec fn view(&self) -> EngineDataV {
        EngineDataV {
            tick: self.tick,
            engine_running_state: self.engine_running_state,
            program: match self.program {
                Option::None => None,
                Option::Some(p) => Some(p.view()),
            },
            responding_to: self.responding_to,
            registers: self.registers,
        }
    }
}

impl Default for EngineData {
    /// An empty snapshot: tick zero, stopped, no program, zero registers.
    fn default() -> (r: EngineData)
        ensures
            r.tick == 0,
            r.engine_running_state == EngineRunningState::Stopped,
            r.program is None,
            r.responding_to is None,
            r.registers == zero_registers(),
    {
        EngineData {
            tick: 0,
            engine_running_state: EngineRunningState::Stopped,
            program: None,
            responding_to: None,
            registers: Registers::new(),
        }
    }
}

/// A log event before formatting: its severity and body text.
pub struct LogEventV {
    pub level: StdLogLevel,
    pub body: Seq<char>,
}

/// The execution engine.  It exclusively owns its program, registers and
/// state; clients reach it only through commands and snapshots.
pub struct Engine {
    pub program: Option<Program>,
    pub registers: Registers,
    pub options: EngineOptions,
    pub state: EngineState,
    /// A copy of the label currently executing; the instruction pointer
    /// indexes into its instruction list.
    pub current_label: Option<Label>,
}

/// Ghost form of [`Engine`].
pub struct EngineV {
    pub program: Option<ProgramV>,
    pub registers: Registers,
    pub options: EngineOptions,
    pub state: EngineState,
    pub current_label: Option<LabelV>,
}

impl View for Engine {
    type V = EngineV;

    open spec fn view(&self) -> EngineV {
        EngineV {
            program: match self.program {
                Option::None => None,
                Option::Some(p) => Some(p.view()),
            },
            registers: self.registers,
            options: self.options,
            state: self.state,
            current_label: match self.current_label {
                Option::None => None,
                Option::Some(l) => Some(l.view()),
            },
        }
    }
}

/// The snapshot an engine state yields, tagged with the command it
/// answers, if any.
pub open spec fn snapshot_of(e: EngineV, responding_to: Option<ClientCommandType>) -> EngineDataV {
    EngineDataV {
        tick: e.state.tick,
        engine_running_state: e.state.running_state,
        program: e.program,
        responding_to: responding_to,
        registers: e.registers,
    }
}

/// The payload of a command, or the fixed complaint when none was sent.
pub open spec fn extract_spec(p: Option<Seq<char>>) -> Seq<char> {
    match p {
        Option::None => "ERROR: Payload must not be none!"@,
        Option::Some(s) => s,
    }
}

/// Takes a command's payload, substituting the fixed complaint when none
/// was sent.
pub fn extract_payload(p: Option<String>) -> (r: String)
    ensures
        r@ == extract_spec(
            match p {
                Option::None => None,
                Option::Some(s) => Some(s@),
            },
        ),
{
    match p {
        Option::None => "ERROR: Payload must not be none!".to_owned(),
        Option::Some(s) => s,
    }
}

/// What applying one command does: the next engine state, the snapshot to
/// emit, and the log event to emit, each optional.
pub open spec fn apply_command_spec(e: EngineV, cmd: ClientCommandsV) -> (
    EngineV,
    Option<EngineDataV>,
    Option<LogEventV>,
) {
    match cmd.command_type {
        ClientCommandType::Start => {
            if e.state.running_state == EngineRunningState::Stopped {
                match cmd.payload {
                    Option::Some(src) => match parse_source(src) {
                        Ok(p) => {
                            let e2 = EngineV {
                                program: Some(p),
                                state: EngineState {
                                    tick: 0,
                                    instruction_ptr: 0,
                                    running_state: EngineRunningState::Running,
                                },
                                current_label: program_start_label(p),
                                ..e
                            };
                            (e2, Some(snapshot_of(e2, Some(ClientCommandType::Start))), None)
                        },
                        Err(_) => (
                            e,
                            None,
                            Some(
                                LogEventV {
                                    level: StdLogLevel::ERROR,
                                    body: "Start failed: the payload did not parse"@,
                                },
                            ),
                        ),
                    },
                    Option::None => {
                        let e2 = EngineV {
                            state: EngineState {
                                tick: 0,
                                instruction_ptr: 0,
                                running_state: EngineRunningState::Running,
                            },
                            current_label: match e.program {
                                Option::None => None,
                                Option::Some(p) => program_start_label(p),
                            },
                            ..e
                        };
                        (e2, Some(snapshot_of(e2, Some(ClientCommandType::Start))), None)
                    },
                }
            } else {
                let e2 = EngineV {
                    state: EngineState {
                        running_state: EngineRunningState::Running,
                        ..e.state
                    },
                    ..e
                };
                (e2, Some(snapshot_of(e2, Some(ClientCommandType::Start))), None)
            }
        },
        ClientCommandType::Pause => {
            let e2 = EngineV {
                state: EngineState { running_state: EngineRunningState::Paused, ..e.state },
                ..e
            };
            (e2, Some(snapshot_of(e2, Some(ClientCommandType::Pause))), None)
        },
        ClientCommandType::Stop => {
            let e2 = EngineV {
                state: EngineState { running_state: EngineRunningState::Stopped, ..e.state },
                ..e
            };
            (e2, Some(snapshot_of(e2, Some(ClientCommandType::Stop))), None)
        },
        ClientCommandType::ParseFile => match parse_source(extract_spec(cmd.payload)) {
            Ok(p) => {
                let e2 = EngineV { program: Some(p), ..e };
                (e2, Some(snapshot_of(e2, Some(ClientCommandType::ParseFile))), None)
            },
            Err(_) => (
                e,
                None,
                Some(
                    LogEventV {
                        level: StdLogLevel::ERROR,
                        body: "ParseFile failed: the payload did not parse"@,
                    },
                ),
            ),
        },
        ClientCommandType::ParseWithoutUpdate => match parse_source(extract_spec(cmd.payload)) {
            Ok(p) => {
                let snap = EngineDataV {
                    program: Some(p),
                    ..snapshot_of(e, Some(ClientCommandType::ParseWithoutUpdate))
                };
                (e, Some(snap), None)
            },
            Err(_) => (
                e,
                None,
                Some(
                    LogEventV {
                        level: StdLogLevel::ERROR,
                        body: "ParseWithoutUpdate failed: the payload did not parse"@,
                    },
                ),
            ),
        },
        ClientCommandType::TranslateToIR | ClientCommandType::TranslateToIRWithoutUpdate => (
            e,
            None,
            Some(
                LogEventV {
                    level: StdLogLevel::WARN,
                    body: "translation to IR is not supported"@,
                },
            ),
        ),
    }
}

/// `e` with its tick counter advanced by one.
pub open spec fn bump_tick(e: EngineV) -> EngineV {
    EngineV { state: EngineState { tick: (e.state.tick + 1) as usize, ..e.state }, ..e }
}

/// `e` stopped, counters untouched.
pub open spec fn stop_engine(e: EngineV) -> EngineV {
    EngineV {
        state: EngineState { running_state: EngineRunningState::Stopped, ..e.state },
        ..e
    }
}

/// What one tick does while running: report a snapshot of the state about
/// to be acted on, attempt one gated instruction step, turn end-of-label
/// into a stop with an informational log and any other step failure into a
/// stop with an error log, then advance the tick counter.  A stopped or
/// paused engine does nothing.
pub open spec fn tick_spec(e: EngineV) -> (EngineV, Option<EngineDataV>, Option<LogEventV>) {
    if e.state.running_state != EngineRunningState::Running {
        (e, None, None)
    } else {
        let snap = snapshot_of(e, None);
        match run_instruction_spec(e) {
            Ok(e2) => (bump_tick(e2), Some(snap), None),
            Err(err) => {
                if err == InstructionExecutionError::EndOfLabel {
                    (
                        bump_tick(stop_engine(e)),
                        Some(snap),
                        Some(
                            LogEventV {
                                level: StdLogLevel::INFO,
                                body: "Program Exited With Success!"@,
                            },
                        ),
                    )
                } else {
                    (
                        bump_tick(stop_engine(e)),
                        Some(snap),
                        Some(LogEventV { level: StdLogLevel::ERROR, body: step_error_message(err) }),
                    )
                }
            },
        }
    }
}

impl Engine {
    /// The engine's configuration is sound.
    pub open spec fn wf(&self) -> bool {
        options_valid(self.options)
    }

    /// A fresh engine: no program, zero registers, stopped at tick zero.
    pub fn new(options: EngineOptions) -> (r: Engine)
        requires
            options_valid(options),
        ensures
            r.wf(),
            r@.program is None,
            r@.current_label is None,
            r@.registers == zero_registers(),
            r@.options == options,
            r@.state == (EngineState {
                tick: 0,
                instruction_ptr: 0,
                running_state: EngineRunningState::Stopped,
            }),
    {
        Engine {
            program: None,
            registers: Registers::new(),
            options,
            state: EngineState {
                tick: 0,
                instruction_ptr: 0,
                running_state: EngineRunningState::Stopped,
            },
            current_label: None,
        }
    }

    /// A snapshot of the current state, tagged with the command it
    /// answers.
    pub fn get_current_state(&self, responding_to: Option<ClientCommandType>) -> (r: EngineData)
        ensures
            r@ == snapshot_of(self@, responding_to),
    {
        let program = match &self.program {
            Option::None => None,
            Option::Some(p) => Some(p.duplicate()),
        };
        EngineData {
            tick: self.state.tick,
            engine_running_state: self.state.running_state,
            program,
            responding_to,
            registers: self.registers,
        }
    }

    /// Applies one client command, returning the snapshot and the log
    /// event to emit, if any.  Parse failures are local to the command:
    /// the engine keeps its state and reports through the log alone.
    pub fn run_client_commands(&mut self, client_command: ClientCommands) -> (r: (
        Option<EngineData>,
        Option<StdLogMessage>,
    ))
        ensures
            ({
                let (e2, snap, log) = apply_command_spec(old(self)@, client_command@);
                &&& final(self)@ == e2
                &&& match (r.0, snap) {
                    (Some(d), Some(sv)) => d@ == sv,
                    (None, None) => true,
                    _ => false,
                }
                &&& match (r.1, log) {
                    (Some(m), Some(le)) => is_log_for(m@, le.level, le.body),
                    (None, None) => true,
                    _ => false,
                }
            }),
    {
        match client_command.command_type {
            ClientCommandType::Start => {
                if self.state.running_state == EngineRunningState::Stopped {
                    match client_command.payload {
                        Option::Some(src) => {
                            match parse_input(src) {
                                Ok(program) => {
                                    self.state.tick = 0;
                                    self.state.instruction_ptr = 0;
                                    self.state.running_state = EngineRunningState::Running;
                                    self.current_label = match program.get_start_label() {
                                        Ok(l) => Some(l),
                                        Err(_) => None,
                                    };
                                    self.program = Some(program);
                                    (
                                        Some(
                                            self.get_current_state(Some(ClientCommandType::Start)),
                                        ),
                                        None,
                                    )
                                },
                                Err(_) => (
                                    None,
                                    Some(
                                        crate::logfmt::make_log(
                                            StdLogLevel::ERROR,
                                            "Start failed: the payload did not parse",
                                        ),
                                    ),
                                ),
                            }
                        },
                        Option::None => {
                            self.state.tick = 0;
                            self.state.instruction_ptr = 0;
                            self.state.running_state = EngineRunningState::Running;
                            self.current_label = match &self.program {
                                Option::None => None,
                                Option::Some(p) => match p.get_start_label() {
                                    Ok(l) => Some(l),
                                    Err(_) => None,
                                },
                            };
                            (Some(self.get_current_state(Some(ClientCommandType::Start))), None)
                        },
                    }
                } else {
                    self.state.running_state = EngineRunningState::Running;
                    (Some(self.get_current_state(Some(ClientCommandType::Start))), None)
                }
            },
            ClientCommandType::Pause => {
                self.state.running_state = EngineRunningState::Paused;
                (Some(self.get_current_state(Some(ClientCommandType::Pause))), None)
            },
            ClientCommandType::Stop => {
                self.state.running_state = EngineRunningState::Stopped;
                (Some(self.get_current_state(Some(ClientCommandType::Stop))), None)
            },
            ClientCommandType::ParseFile => {
                let payload = extract_payload(client_command.payload);
                match parse_input(payload) {
                    Ok(program) => {
                        self.program = Some(program);
                        (Some(self.get_current_state(Some(ClientCommandType::ParseFile))), None)
                    },
                    Err(_) => (
                        None,
                        Some(
                            crate::logfmt::make_log(
                                StdLogLevel::ERROR,
                                "ParseFile failed: the payload did not parse",
                            ),
                        ),
                    ),
                }
            },
            ClientCommandType::ParseWithoutUpdate => {
                let payload = extract_payload(client_command.payload);
                match parse_input(payload) {
                    Ok(program) => {
                        let mut current_state = self.get_current_state(
                            Some(ClientCommandType::ParseWithoutUpdate),
                        );
                        current_state.program = Some(program);
                        (Some(current_state), None)
                    },
                    Err(_) => (
                        None,
                        Some(
                            crate::logfmt::make_log(
                                StdLogLevel::ERROR,
                                "ParseWithoutUpdate failed: the payload did not parse",
                            ),
                        ),
                    ),
                }
            },
            ClientCommandType::TranslateToIR | ClientCommandType::TranslateToIRWithoutUpdate => (
                None,
                Some(
                    crate::logfmt::make_log(
                        StdLogLevel::WARN,
                        "translation to IR is not supported",
                    ),
                ),
            ),
        }
    }

    /// One body of the engine's loop while running: emit the periodic
    /// snapshot first, then attempt one instruction step, then advance the
    /// tick.  Returns the snapshot and log event to send.
    pub fn run_tick(&mut self) -> (r: (Option<EngineData>, Option<StdLogMessage>))
        requires
            old(self).wf(),
            old(self).state.tick < usize::MAX,
        ensures
            final(self).wf(),
            ({
                let (e2, snap, log) = tick_spec(old(self)@);
                &&& final(self)@ == e2
                &&& match (r.0, snap) {
                    (Some(d), Some(sv)) => d@ == sv,
                    (None, None) => true,
                    _ => false,
                }
                &&& match (r.1, log) {
                    (Some(m), Some(le)) => is_log_for(m@, le.level, le.body),
                    (None, None) => true,
                    _ => false,
                }
            }),
    {
        if self.state.running_state != EngineRunningState::Running {
            return (None, None);
        }
        let snap = self.get_current_state(None);
        let step = run_instruction(self);
        let log = match step {
            Ok(_) => None,
            Err(e) => {
                self.state.running_state = EngineRunningState::Stopped;
                if e == InstructionExecutionError::EndOfLabel {
                    Some(crate::logfmt::make_log(StdLogLevel::INFO, "Program Exited With Success!"))
                } else {
                    Some(crate::logfmt::make_log(StdLogLevel::ERROR, e.message().as_str()))
                }
            },
        };
        self.state.tick = self.state.tick + 1;
        (Some(snap), log)
    }
}

} // verus!
