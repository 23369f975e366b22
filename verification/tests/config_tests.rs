use irv::config::{
    EngineConfig, LogLevel, ParsingResultViewOptions, ProgramConfig, RootConfig, StdoutOption,
    UITheme,
};
use irv::engine::EngineOptions;
use irv::logfmt::{make_log, StdLogLevel};

#[test]
fn the_default_configuration_matches_the_shipped_tool() {
    let c = RootConfig::default();
    assert_eq!(c.engine.tps, 5);
    assert_eq!(c.engine.ipt, 1);
    assert_eq!(c.engine.heap_memory_size, 2048);
    assert_eq!(c.engine.log_level, LogLevel::Info);
    assert_eq!(c.program.program_path, "./main.cpu");
    assert!(!c.program.output_parsing_results.should_write);
    assert_eq!(c.program.output_parsing_results.path, "out/parsed.ptree");
    assert!(!c.program.output_logs.should_write);
    assert_eq!(c.program.output_logs.path, "logs.txt");
    assert_eq!(c.program.stdout, vec![StdoutOption::Virtual]);
    assert_eq!(c.ui.theme, UITheme::Dark);
    assert_eq!(c.ui.font_color, "default");
    assert_eq!(c.ui.font_size, 16);
}

#[test]
fn engine_options_take_the_configured_rates() {
    let mut c = RootConfig::default();
    c.engine.tps = 50;
    c.engine.ipt = 10;
    let o = c.engine_options().expect("positive rates are valid");
    assert_eq!(o.ticks_per_second, 50);
    assert_eq!(o.instructions_per_tick, 10);
    assert_eq!(o.memory_size, 2048);
}

#[test]
fn zero_rates_are_rejected() {
    let mut c = RootConfig::default();
    c.engine.tps = 0;
    assert!(c.engine_options().is_none());
    c.engine.tps = 5;
    c.engine.ipt = 0;
    assert!(c.engine_options().is_none());
}

#[test]
fn tick_sleep_is_the_second_divided_by_the_rate() {
    let o = EngineOptions {
        memory_size: 0,
        ticks_per_second: 5,
        instructions_per_tick: 1,
    };
    assert_eq!(o.tick_sleep_ms(), 200);
    let o = EngineOptions {
        memory_size: 0,
        ticks_per_second: 1,
        instructions_per_tick: 1,
    };
    assert_eq!(o.tick_sleep_ms(), 1000);
    let o = EngineOptions {
        memory_size: 0,
        ticks_per_second: 3,
        instructions_per_tick: 1,
    };
    assert_eq!(o.tick_sleep_ms(), 333);
}

#[test]
fn defaults_of_the_view_options() {
    assert_eq!(
        ParsingResultViewOptions::default(),
        ParsingResultViewOptions::Tabled
    );
    assert_eq!(EngineConfig::default().tps, 5);
    assert_eq!(ProgramConfig::default().program_path, "./main.cpu");
}

#[test]
fn log_messages_carry_level_and_body_in_the_fixed_format() {
    let m = make_log(StdLogLevel::INFO, "Initalizing Engine...");
    assert_eq!(m.log_level, StdLogLevel::INFO);
    assert!(m.message.starts_with("[INFO] "));
    assert!(m.message.ends_with(" - Initalizing Engine..."));
    let m = make_log(StdLogLevel::ERROR, "boom");
    assert!(m.message.starts_with("[ERROR] "));
}
