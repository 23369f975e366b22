//! Configuration consumed by the engine and its host: tick rate,
//! instruction-issue divisor, paths, and presentation choices.  The
//! defaults mirror what the tool assumes when no configuration file is
//! given; reading such a file is the host's business, and it hands the
//! result over as these plain values.

use vstd::prelude::*;
use crate::engine::EngineOptions;

verus! {

/// Where the tool's own standard output should go.
#[derive(Debug, Clone, Copy, PartialEq, Eq, Structural)]
pub enum StdoutOption {
    All,
    Virtual,
    Console,
    File,
}

impl Default for StdoutOption {
    /// Output goes to the virtual console.
    fn default() -> (r: StdoutOption)
        ensures
            r == StdoutOption::Virtual,
    {
        StdoutOption::Virtual
    }
}

/// Whether and where parse results are written out.
#[derive(Debug, Clone, PartialEq)]
pub struct ParsingResultsConfig {
    pub should_write: bool,
    pub path: String,
}

impl Default for ParsingResultsConfig {
    /// Parse results are not written; the path is the conventional one.
    fn default() -> (r: ParsingResultsConfig)
        ensures
            r.should_write == false,
            r.path@ == "out/parsed.ptree"@,
    {
        ParsingResultsConfig { should_write: false, path: "out/parsed.ptree".to_owned() }
    }
}

/// Whether and where logs are written out.
#[derive(Debug, Clone, PartialEq)]
pub struct LogsConfig {
    pub should_write: bool,
    pub path: String,
}

impl Default for LogsConfig {
    /// Logs are not written; the path is the conventional one.
    fn default() -> (r: LogsConfig)
        ensures
            r.should_write == false,
            r.path@ == "logs.txt"@,
    {
        LogsConfig { should_write: false, path: "logs.txt".to_owned() }
    }
}

/// The program-level configuration: which file to load and what to write.
#[derive(Debug, Clone, PartialEq)]
pub struct ProgramConfig {
    pub program_path: String,
    pub output_parsing_results: ParsingResultsConfig,
    pub output_logs: LogsConfig,
    pub stdout: Vec<StdoutOption>,
}

impl Default for ProgramConfig {
    /// The conventional program path, nothing written, virtual output.
    fn default() -> (r: ProgramConfig)
        ensures
            r.program_path@ == "./main.cpu"@,
            r.output_parsing_results.should_write == false,
            r.output_logs.should_write == false,
            r.stdout@.len() == 1 && r.stdout@[0] == StdoutOption::Virtual,
    {
        let mut stdout: Vec<StdoutOption> = Vec::new();
        stdout.push(StdoutOption::Virtual);
        ProgramConfig {
            program_path: "./main.cpu".to_owned(),
            output_parsing_results: ParsingResultsConfig::default(),
            output_logs: LogsConfig::default(),
            stdout,
        }
    }
}

/// Simulated heap access latency.
#[derive(Debug, Clone, Copy, PartialEq, Eq, Structural)]
pub struct HeapAccessSimulationConfig {
    pub enabled: bool,
    pub minimum_delay: u32,
}

impl Default for HeapAccessSimulationConfig {
    /// Simulation is off with no delay.
    fn default() -> (r: HeapAccessSimulationConfig)
        ensures
            r.enabled == false,
            r.minimum_delay == 0,
    {
        HeapAccessSimulationConfig { enabled: false, minimum_delay: 0 }
    }
}

/// Minimum severity of logs the tool surfaces.
#[derive(Debug, Clone, Copy, PartialEq, Eq, Structural)]
pub enum LogLevel {
    Info,
    Warn,
    Error,
}

impl Default for LogLevel {
    /// Everything from informational upwards.
    fn default() -> (r: LogLevel)
        ensures
            r == LogLevel::Info,
    {
        LogLevel::Info
    }
}

/// The engine-level configuration: tick rate, instruction-issue divisor,
/// heap size, and log verbosity.
#[derive(Debug, Clone, Copy, PartialEq, Eq, Structural)]
pub struct EngineConfig {
    /// Ticks per second; must be positive.
    pub tps: usize,
    /// Instruction-issue divisor: one instruction per this many ticks;
    /// must be positive.
    pub ipt: usize,
    pub heap_memory_size: usize,
    pub heap_access_simulation: HeapAccessSimulationConfig,
    pub log_level: LogLevel,
}

impl Default for EngineConfig {
    /// Five ticks per second, one instruction per tick, two kibibytes of
    /// heap.
    fn default() -> (r: EngineConfig)
        ensures
            r.tps == 5,
            r.ipt == 1,
            r.heap_memory_size == 2048,
            r.heap_access_simulation == (HeapAccessSimulationConfig {
                enabled: false,
                minimum_delay: 0,
            }),
            r.log_level == LogLevel::Info,
    {
        EngineConfig {
            tps: 5,
            ipt: 1,
            heap_memory_size: 2048,
            heap_access_simulation: HeapAccessSimulationConfig::default(),
            log_level: LogLevel::default(),
        }
    }
}

/// The visualizer's theme.
#[derive(Debug, Clone, Copy, PartialEq, Eq, Structural)]
pub enum UITheme {
    Light,
    Dark,
}

impl Default for UITheme {
    /// Dark, as the tool ships.
    fn default() -> (r: UITheme)
        ensures
            r == UITheme::Dark,
    {
        UITheme::Dark
    }
}

/// Presentation choices of the excluded visualizer, carried as plain
/// data.
#[derive(Debug, Clone, PartialEq)]
pub struct UIConfig {
    pub theme: UITheme,
    pub font_color: String,
    pub font_size: u32,
}

impl Default for UIConfig {
    /// Dark theme, default color, sixteen point font.
    fn default() -> (r: UIConfig)
        ensures
            r.theme == UITheme::Dark,
            r.font_color@ == "default"@,
            r.font_size == 16,
    {
        UIConfig { theme: UITheme::Dark, font_color: "default".to_owned(), font_size: 16 }
    }
}

/// The whole configuration tree.
#[derive(Debug, Clone, PartialEq)]
pub struct RootConfig {
    pub program: ProgramConfig,
    pub engine: EngineConfig,
    pub ui: UIConfig,
}

impl Default for RootConfig {
    /// Every section at its default.
    fn default() -> (r: RootConfig)
        ensures
            r.engine.tps == 5,
            r.engine.ipt == 1,
    {
        RootConfig {
            program: ProgramConfig::default(),
            engine: EngineConfig::default(),
            ui: UIConfig::default(),
        }
    }
}

impl RootConfig {
    /// The engine options this configuration asks for, or nothing when a
    /// rate is zero and the engine could not run under it.
    pub fn engine_options(&self) -> (r: Option<EngineOptions>)
        ensures
            match r {
                Some(o) => self.engine.tps >= 1 && self.engine.ipt >= 1 && o.ticks_per_second
                    == self.engine.tps && o.instructions_per_tick == self.engine.ipt
                    && o.memory_size == self.engine.heap_memory_size,
                None => self.engine.tps < 1 || self.engine.ipt < 1,
            },
    {
        if self.engine.tps >= 1 && self.engine.ipt >= 1 {
            Some(
                EngineOptions {
                    memory_size: self.engine.heap_memory_size,
                    ticks_per_second: self.engine.tps,
                    instructions_per_tick: self.engine.ipt,
                },
            )
        } else {
            None
        }
    }
}

/// The command line as the tool accepts it, as plain data.
#[derive(Debug, Clone, PartialEq, Default)]
pub struct CliArgs {
    pub config_path: Option<String>,
    pub file: Option<String>,
    pub write_out: Option<bool>,
}

/// How the visualizer shows parse results.
#[derive(Debug, Clone, Copy, PartialEq, Eq, Structural)]
pub enum ParsingResultViewOptions {
    Raw,
    Tabled,
    Hidden,
}

impl Default for ParsingResultViewOptions {
    /// A table, as the tool ships.
    fn default() -> (r: ParsingResultViewOptions)
        ensures
            r == ParsingResultViewOptions::Tabled,
    {
        ParsingResultViewOptions::Tabled
    }
}

/// The visualizer's own options.
#[derive(Debug, Clone, Copy, PartialEq, Eq, Structural)]
pub struct UiOptions {
    pub parsing_results: ParsingResultViewOptions,
}

impl EngineOptions {
    /// How long one tick lasts, in milliseconds.
    pub fn tick_sleep_ms(&self) -> (r: usize)
        requires
            self.ticks_per_second >= 1,
        ensures
            r == 1000 as int / self.ticks_per_second as int,
    {
        1000 / self.ticks_per_second
    }
}

} // verus!
