use simics_fuzz::config::{
    InitArg, SimicsFuzzerBuilder, StartupCommand, DEFAULT_CORPUS_DIRECTORY,
    DEFAULT_SOLUTIONS_DIRECTORY, MAP_SIZE, NAME,
};
use simics_fuzz::fault::{Fault, X86_64Fault};
use simics_fuzz::messages::{
    ConfigurationError, LogLevel, MapDescriptor, SessionConfigBuilder, Setting, TraceMode,
};

fn complete() -> SimicsFuzzerBuilder {
    let mut builder = SimicsFuzzerBuilder::new();
    builder.project("/tmp/project".to_string());
    builder.tui(false);
    builder.timeout_ms(3000);
    builder.executor_timeout(60);
    builder.cores(vec![0, 1]);
    builder.command(vec![StartupCommand::Command { command: "run".to_string() }]);
    builder.log_level(LogLevel::Debug);
    builder.trace_mode(TraceMode::HitCount);
    builder
}

#[test]
fn constants_are_as_documented() {
    assert_eq!(NAME, "Confuse Fuzzer");
    assert_eq!(MAP_SIZE, 128 * 1024);
    assert_eq!(DEFAULT_CORPUS_DIRECTORY, "corpus");
    assert_eq!(DEFAULT_SOLUTIONS_DIRECTORY, "solutions");
}

#[test]
fn directories_default_when_none_is_given() {
    let mut builder = complete();
    builder.corpus(None);
    builder.solutions(None);
    let fuzzer = builder.build().unwrap();
    assert_eq!(fuzzer.corpus(), "corpus");
    assert_eq!(fuzzer.solutions(), "solutions");
}

#[test]
fn directories_are_kept_when_given() {
    let mut builder = complete();
    builder.corpus(Some("in".to_string()));
    builder.solutions(Some("out".to_string()));
    builder.input(Some("seed.bin".to_string()));
    let fuzzer = builder.build().unwrap();
    assert_eq!(fuzzer.corpus(), "in");
    assert_eq!(fuzzer.solutions(), "out");
    assert_eq!(fuzzer.input(), &Some("seed.bin".to_string()));
}

#[test]
fn directories_never_named_are_empty() {
    let fuzzer = complete().build().unwrap();
    assert_eq!(fuzzer.corpus(), "");
    assert_eq!(fuzzer.solutions(), "");
    assert_eq!(fuzzer.input(), &None);
}

#[test]
fn gui_with_many_cores_is_refused() {
    let mut builder = complete();
    builder.simics_gui(true);
    assert_eq!(builder.validate(), Err(ConfigurationError::GuiWithManyCores));
    assert_eq!(builder.build().unwrap_err(), ConfigurationError::GuiWithManyCores);
}

#[test]
fn gui_with_one_core_is_accepted() {
    let mut builder = complete();
    builder.simics_gui(true);
    builder.cores(vec![3]);
    assert_eq!(builder.validate(), Ok(()));
    let fuzzer = builder.build().unwrap();
    assert!(fuzzer.simics_gui());
    assert_eq!(fuzzer.cores(), &vec![3]);
}

#[test]
fn gui_without_cores_passes_validation() {
    let mut builder = SimicsFuzzerBuilder::new();
    builder.simics_gui(true);
    assert_eq!(builder.validate(), Ok(()));
    assert_eq!(builder.build().unwrap_err(), ConfigurationError::Missing(Setting::Project));
}

#[test]
fn missing_settings_are_named_in_order() {
    let mut builder = SimicsFuzzerBuilder::new();
    builder.project("p".to_string());
    let mut next = SimicsFuzzerBuilder::new();
    next.project("p".to_string());
    assert_eq!(builder.build().unwrap_err(), ConfigurationError::Missing(Setting::Tui));
    next.tui(true);
    next.timeout_ms(1);
    next.executor_timeout(1);
    next.cores(vec![]);
    next.command(vec![]);
    next.log_level(LogLevel::Info);
    assert_eq!(next.build().unwrap_err(), ConfigurationError::Missing(Setting::TraceMode));
}

#[test]
fn tui_lowers_the_log_level_to_errors() {
    let mut builder = complete();
    builder.tui(true);
    let fuzzer = builder.build().unwrap();
    assert_eq!(fuzzer.effective_log_level(), LogLevel::Error);
    assert_eq!(complete().build().unwrap().effective_log_level(), LogLevel::Debug);
}

#[test]
fn session_config_follows_the_launch() {
    let mut builder = complete();
    builder.iterations(Some(1000));
    let fuzzer = builder.build().unwrap();
    let config = fuzzer.session_config(0x5000);
    assert_eq!(config.coverage_map(), MapDescriptor { address: 0x5000, len: 131072 });
    assert_eq!(
        config.faults(),
        &vec![Fault::X86_64(X86_64Fault::Page), Fault::X86_64(X86_64Fault::InvalidOpcode)]
    );
    assert_eq!(config.trace_mode(), TraceMode::HitCount);
    assert_eq!(config.timeout_ms(), 3000);
    assert_eq!(config.log_level(), LogLevel::Debug);
    assert_eq!(fuzzer.budget(), Some(1000));
    assert_eq!(fuzzer.executor_timeout(), 60);
    assert_eq!(fuzzer.iterations(), Some(1000));
    assert_eq!(fuzzer.project(), "/tmp/project");
    assert_eq!(fuzzer.command().len(), 1);
    assert!(!fuzzer.tui());
}

#[test]
fn init_args_without_gui() {
    let fuzzer = complete().build().unwrap();
    assert_eq!(
        fuzzer.init_args(),
        vec![
            InitArg::NoDeprecationWarnings,
            InitArg::BatchMode,
            InitArg::GuiNone,
            InitArg::NoWindows,
            InitArg::Project("/tmp/project".to_string()),
        ]
    );
}

#[test]
fn init_args_with_gui() {
    let mut builder = complete();
    builder.simics_gui(true);
    builder.cores(vec![0]);
    let fuzzer = builder.build().unwrap();
    assert_eq!(
        fuzzer.init_args(),
        vec![
            InitArg::NoDeprecationWarnings,
            InitArg::GuiDefault,
            InitArg::Project("/tmp/project".to_string()),
        ]
    );
}

#[test]
fn session_config_needs_its_settings() {
    let map = MapDescriptor { address: 1, len: 8 };
    assert_eq!(
        SessionConfigBuilder::new().build().unwrap_err(),
        ConfigurationError::Missing(Setting::CoverageMap)
    );
    assert_eq!(
        SessionConfigBuilder::new()
            .coverage_map(MapDescriptor { address: 1, len: 0 })
            .build()
            .unwrap_err(),
        ConfigurationError::EmptyCoverageMap
    );
    assert_eq!(
        SessionConfigBuilder::new().coverage_map(map).build().unwrap_err(),
        ConfigurationError::Missing(Setting::TraceMode)
    );
    assert_eq!(
        SessionConfigBuilder::new().coverage_map(map).trace_mode(TraceMode::Once).build().unwrap_err(),
        ConfigurationError::Missing(Setting::Timeout)
    );
    assert_eq!(
        SessionConfigBuilder::new()
            .coverage_map(map)
            .trace_mode(TraceMode::Once)
            .timeout_ms(5)
            .build()
            .unwrap_err(),
        ConfigurationError::Missing(Setting::LogLevel)
    );
    let config = SessionConfigBuilder::new()
        .coverage_map(map)
        .trace_mode(TraceMode::Once)
        .timeout_ms(5)
        .log_level(LogLevel::Trace)
        .build()
        .unwrap();
    assert_eq!(config.faults().len(), 0);
    let copy = config.duplicate();
    assert_eq!(copy.coverage_map(), map);
    assert_eq!(copy.log_level(), LogLevel::Trace);
}

#[test]
fn fault_codes_round_trip() {
    for fault in [
        X86_64Fault::Triple,
        X86_64Fault::InvalidOpcode,
        X86_64Fault::Double,
        X86_64Fault::GeneralProtection,
        X86_64Fault::Page,
    ] {
        assert_eq!(X86_64Fault::from_code(fault.code()), Some(fault));
        assert_eq!(Fault::X86_64(fault).code(), fault.code());
    }
    assert_eq!(X86_64Fault::Page.code(), 14);
    assert_eq!(X86_64Fault::InvalidOpcode.code(), 6);
    assert_eq!(X86_64Fault::from_code(7), None);
    assert_eq!(X86_64Fault::from_code(0), None);
}

#[test]
fn each_setting_without_a_default_is_missed() {
    let steps: [(Setting, fn(&mut SimicsFuzzerBuilder)); 8] = [
        (Setting::Project, |b| b.project("p".to_string())),
        (Setting::Tui, |b| b.tui(false)),
        (Setting::Timeout, |b| b.timeout_ms(3000)),
        (Setting::ExecutorTimeout, |b| b.executor_timeout(60)),
        (Setting::Cores, |b| b.cores(vec![0])),
        (Setting::Command, |b| b.command(vec![])),
        (Setting::LogLevel, |b| b.log_level(LogLevel::Info)),
        (Setting::TraceMode, |b| b.trace_mode(TraceMode::Once)),
    ];
    for given in 0..steps.len() {
        let mut builder = SimicsFuzzerBuilder::new();
        for (_, set) in &steps[..given] {
            set(&mut builder);
        }
        assert_eq!(builder.build().unwrap_err(), ConfigurationError::Missing(steps[given].0));
    }
    let mut builder = SimicsFuzzerBuilder::new();
    for (_, set) in &steps {
        set(&mut builder);
    }
    builder.shrink(true);
    builder.dedup(true);
    builder.grimoire(true);
    let fuzzer = builder.build().unwrap();
    assert!(fuzzer.grimoire());
}
