//! The settings of a launch, and what follows from them.

use crate::fault::{Fault, X86_64Fault};
use crate::messages::{
    ConfigurationError, LogLevel, MapDescriptor, SessionConfig, Setting, TraceMode,
};
use vstd::prelude::*;

verus! {

/// One thing that the simulator is told to do once it is set up.
#[derive(Clone, Debug, PartialEq, Eq)]
pub enum StartupCommand {
    /// A line for the simulator's command line.
    Command { command: String },
    /// A script in Python, by its path in the project.
    Python { file: String },
    /// A configuration file, by its path in the project.
    Config { config: String },
}

/// One argument of the simulator's start.
#[derive(Clone, Debug, PartialEq, Eq)]
pub enum InitArg {
    /// Warnings about deprecated features are switched off.
    NoDeprecationWarnings,
    /// The simulator runs without waiting for commands.
    BatchMode,
    /// The simulator opens its usual windows.
    GuiDefault,
    /// The simulator opens no graphical interface.
    GuiNone,
    /// The simulator opens no target consoles.
    NoWindows,
    /// The project that the simulator runs in.
    Project(String),
}

/// The settings of a launch.
#[derive(Debug)]
pub struct SimicsFuzzer {
    project: String,
    input: Option<String>,
    corpus: String,
    solutions: String,
    tui: bool,
    shrink: bool,
    dedup: bool,
    grimoire: bool,
    timeout_ms: u64,
    executor_timeout: u64,
    cores: Vec<usize>,
    command: Vec<StartupCommand>,
    log_level: LogLevel,
    trace_mode: TraceMode,
    simics_gui: bool,
    iterations: Option<usize>,
}

/// Collects the settings of a launch one by one.
#[derive(Debug)]
pub struct SimicsFuzzerBuilder {
    project: Option<String>,
    input: Option<String>,
    corpus: Option<String>,
    solutions: Option<String>,
    tui: Option<bool>,
    shrink: bool,
    dedup: bool,
    grimoire: bool,
    timeout_ms: Option<u64>,
    executor_timeout: Option<u64>,
    cores: Option<Vec<usize>>,
    command: Option<Vec<StartupCommand>>,
    log_level: Option<LogLevel>,
    trace_mode: Option<TraceMode>,
    simics_gui: bool,
    iterations: Option<usize>,
}

/// The name under which the fuzzer shows itself.
pub const NAME: &'static str = "Confuse Fuzzer";

/// The number of counters of the coverage map.
pub const MAP_SIZE: usize = 131072;

/// The number of entries of the corpus that are kept in memory.
pub const CACHE_LEN: usize = 4096;

/// The directory of the input corpus where none is given.
pub const DEFAULT_CORPUS_DIRECTORY: &'static str = "corpus";

/// The directory of the solutions where none is given.
pub const DEFAULT_SOLUTIONS_DIRECTORY: &'static str = "solutions";

/// The text of a path that may be missing.
pub open spec fn text_of(path: Option<String>) -> Option<Seq<char>> {
    match path {
        Some(text) => Some(text@),
        None => None,
    }
}

/// The settings that a builder holds, as plain values.
pub struct BuilderView {
    pub project: Option<Seq<char>>,
    pub input: Option<Seq<char>>,
    pub corpus: Option<Seq<char>>,
    pub solutions: Option<Seq<char>>,
    pub tui: Option<bool>,
    pub shrink: bool,
    pub dedup: bool,
    pub grimoire: bool,
    pub timeout_ms: Option<u64>,
    pub executor_timeout: Option<u64>,
    pub cores: Option<Seq<usize>>,
    pub command: Option<Seq<StartupCommand>>,
    pub log_level: Option<LogLevel>,
    pub trace_mode: Option<TraceMode>,
    pub simics_gui: bool,
    pub iterations: Option<usize>,
}

/// The settings of a launch, as plain values.
pub struct FuzzerView {
    pub project: Seq<char>,
    pub input: Option<Seq<char>>,
    pub corpus: Seq<char>,
    pub solutions: Seq<char>,
    pub tui: bool,
    pub shrink: bool,
    pub dedup: bool,
    pub grimoire: bool,
    pub timeout_ms: u64,
    pub executor_timeout: u64,
    pub cores: Seq<usize>,
    pub command: Seq<StartupCommand>,
    pub log_level: LogLevel,
    pub trace_mode: TraceMode,
    pub simics_gui: bool,
    pub iterations: Option<usize>,
}

impl View for SimicsFuzzerBuilder {
    type V = BuilderView;

    closed spec fn view(&self) -> BuilderView {
        BuilderView {
            project: text_of(self.project),
            input: text_of(self.input),
            corpus: text_of(self.corpus),
            solutions: text_of(self.solutions),
            tui: self.tui,
            shrink: self.shrink,
            dedup: self.dedup,
            grimoire: self.grimoire,
            timeout_ms: self.timeout_ms,
            executor_timeout: self.executor_timeout,
            cores: match self.cores {
                Some(cores) => Some(cores@),
                None => None,
            },
            command: match self.command {
                Some(command) => Some(command@),
                None => None,
            },
            log_level: self.log_level,
            trace_mode: self.trace_mode,
            simics_gui: self.simics_gui,
            iterations: self.iterations,
        }
    }
}

impl View for SimicsFuzzer {
    type V = FuzzerView;

    closed spec fn view(&self) -> FuzzerView {
        FuzzerView {
            project: self.project@,
            input: text_of(self.input),
            corpus: self.corpus@,
            solutions: self.solutions@,
            tui: self.tui,
            shrink: self.shrink,
            dedup: self.dedup,
            grimoire: self.grimoire,
            timeout_ms: self.timeout_ms,
            executor_timeout: self.executor_timeout,
            cores: self.cores@,
            command: self.command@,
            log_level: self.log_level,
            trace_mode: self.trace_mode,
            simics_gui: self.simics_gui,
            iterations: self.iterations,
        }
    }
}

impl BuilderView {
    /// Whether the settings contradict each other: the simulator's own
    /// window is asked for together with more than one core.
    pub open spec fn contradicts(self) -> bool {
        self.simics_gui && match self.cores {
            Some(cores) => cores.len() > 1,
            None => false,
        }
    }

    /// The first reason for which no launch can be made of the settings:
    /// their contradiction, else the first setting without a default that
    /// is missing, in the order project, terminal interface, timeout,
    /// executor timeout, cores, command, log level, trace mode.
    pub open spec fn defect(self) -> Option<ConfigurationError> {
        if self.contradicts() {
            Some(ConfigurationError::GuiWithManyCores)
        } else if self.project is None {
            Some(ConfigurationError::Missing(Setting::Project))
        } else if self.tui is None {
            Some(ConfigurationError::Missing(Setting::Tui))
        } else if self.timeout_ms is None {
            Some(ConfigurationError::Missing(Setting::Timeout))
        } else if self.executor_timeout is None {
            Some(ConfigurationError::Missing(Setting::ExecutorTimeout))
        } else if self.cores is None {
            Some(ConfigurationError::Missing(Setting::Cores))
        } else if self.command is None {
            Some(ConfigurationError::Missing(Setting::Command))
        } else if self.log_level is None {
            Some(ConfigurationError::Missing(Setting::LogLevel))
        } else if self.trace_mode is None {
            Some(ConfigurationError::Missing(Setting::TraceMode))
        } else {
            None
        }
    }

    /// The launch that is made of complete settings. A directory that was
    /// never named is the empty path.
    pub open spec fn launch(self) -> FuzzerView {
        FuzzerView {
            project: self.project.unwrap(),
            input: self.input,
            corpus: match self.corpus {
                Some(path) => path,
                None => Seq::empty(),
            },
            solutions: match self.solutions {
                Some(path) => path,
                None => Seq::empty(),
            },
            tui: self.tui.unwrap(),
            shrink: self.shrink,
            dedup: self.dedup,
            grimoire: self.grimoire,
            timeout_ms: self.timeout_ms.unwrap(),
            executor_timeout: self.executor_timeout.unwrap(),
            cores: self.cores.unwrap(),
            command: self.command.unwrap(),
            log_level: self.log_level.unwrap(),
            trace_mode: self.trace_mode.unwrap(),
            simics_gui: self.simics_gui,
            iterations: self.iterations,
        }
    }
}

impl SimicsFuzzerBuilder {
    /// A builder with nothing set.
    pub fn new() -> (b: SimicsFuzzerBuilder)
        ensures
            b@ == (BuilderView {
                project: None,
                input: None,
                corpus: None,
                solutions: None,
                tui: None,
                shrink: false,
                dedup: false,
                grimoire: false,
                timeout_ms: None,
                executor_timeout: None,
                cores: None,
                command: None,
                log_level: None,
                trace_mode: None,
                simics_gui: false,
                iterations: None,
            }),
    {
        SimicsFuzzerBuilder {
            project: None,
            input: None,
            corpus: None,
            solutions: None,
            tui: None,
            shrink: false,
            dedup: false,
            grimoire: false,
            timeout_ms: None,
            executor_timeout: None,
            cores: None,
            command: None,
            log_level: None,
            trace_mode: None,
            simics_gui: false,
            iterations: None,
        }
    }

    /// Names the project that the simulator runs in.
    pub fn project(&mut self, value: String)
        ensures
            final(self)@ == (BuilderView { project: Some(value@), ..old(self)@ }),
    {
        self.project = Some(value);
    }

    /// Names the file or directory of the inputs to start from.
    pub fn input(&mut self, value: Option<String>)
        ensures
            final(self)@ == (BuilderView { input: text_of(value), ..old(self)@ }),
    {
        self.input = value;
    }

    /// Names the directory of the input corpus; without a value it is
    /// `DEFAULT_CORPUS_DIRECTORY`.
    pub fn corpus(&mut self, value: Option<String>)
        ensures
            final(self)@ == (BuilderView {
                corpus: Some(
                    match value {
                        Some(path) => path@,
                        None => DEFAULT_CORPUS_DIRECTORY@,
                    },
                ),
                ..old(self)@
            }),
    {
        self.corpus = Some(
            match value {
                Some(path) => path,
                None => DEFAULT_CORPUS_DIRECTORY.to_owned(),
            },
        );
    }

    /// Names the directory of the solutions; without a value it is
    /// `DEFAULT_SOLUTIONS_DIRECTORY`.
    pub fn solutions(&mut self, value: Option<String>)
        ensures
            final(self)@ == (BuilderView {
                solutions: Some(
                    match value {
                        Some(path) => path@,
                        None => DEFAULT_SOLUTIONS_DIRECTORY@,
                    },
                ),
                ..old(self)@
            }),
    {
        self.solutions = Some(
            match value {
                Some(path) => path,
                None => DEFAULT_SOLUTIONS_DIRECTORY.to_owned(),
            },
        );
    }

    /// Says whether the terminal interface is shown.
    pub fn tui(&mut self, value: bool)
        ensures
            final(self)@ == (BuilderView { tui: Some(value), ..old(self)@ }),
    {
        self.tui = Some(value);
    }

    /// Says whether the corpus is to be shrunk.
    pub fn shrink(&mut self, value: bool)
        ensures
            final(self)@ == (BuilderView { shrink: value, ..old(self)@ }),
    {
        self.shrink = value;
    }

    /// Says whether equal findings are to be counted once.
    pub fn dedup(&mut self, value: bool)
        ensures
            final(self)@ == (BuilderView { dedup: value, ..old(self)@ }),
    {
        self.dedup = value;
    }

    /// Says whether grammar-aware mutation is asked for.
    pub fn grimoire(&mut self, value: bool)
        ensures
            final(self)@ == (BuilderView { grimoire: value, ..old(self)@ }),
    {
        self.grimoire = value;
    }

    /// Sets the target's time bound for one run, in milliseconds.
    pub fn timeout_ms(&mut self, value: u64)
        ensures
            final(self)@ == (BuilderView { timeout_ms: Some(value), ..old(self)@ }),
    {
        self.timeout_ms = Some(value);
    }

    /// Sets the orchestrator's own time bound for one trial, in seconds.
    pub fn executor_timeout(&mut self, value: u64)
        ensures
            final(self)@ == (BuilderView { executor_timeout: Some(value), ..old(self)@ }),
    {
        self.executor_timeout = Some(value);
    }

    /// Names the cores, one for each worker.
    pub fn cores(&mut self, value: Vec<usize>)
        ensures
            final(self)@ == (BuilderView { cores: Some(value@), ..old(self)@ }),
    {
        self.cores = Some(value);
    }

    /// Gives the things that the simulator is told to do once it is set up.
    pub fn command(&mut self, value: Vec<StartupCommand>)
        ensures
            final(self)@ == (BuilderView { command: Some(value@), ..old(self)@ }),
    {
        self.command = Some(value);
    }

    /// Chooses the log level.
    pub fn log_level(&mut self, value: LogLevel)
        ensures
            final(self)@ == (BuilderView { log_level: Some(value), ..old(self)@ }),
    {
        self.log_level = Some(value);
    }

    /// Chooses the trace mode.
    pub fn trace_mode(&mut self, value: TraceMode)
        ensures
            final(self)@ == (BuilderView { trace_mode: Some(value), ..old(self)@ }),
    {
        self.trace_mode = Some(value);
    }

    /// Says whether the simulator opens its own window.
    pub fn simics_gui(&mut self, value: bool)
        ensures
            final(self)@ == (BuilderView { simics_gui: value, ..old(self)@ }),
    {
        self.simics_gui = value;
    }

    /// Sets the number of turns of the search after which each worker stops.
    pub fn iterations(&mut self, value: Option<usize>)
        ensures
            final(self)@ == (BuilderView { iterations: value, ..old(self)@ }),
    {
        self.iterations = value;
    }

    /// Checks the settings given so far against each other: the simulator's
    /// own window cannot be had with more than one core.
    pub fn validate(&self) -> (r: Result<(), ConfigurationError>)
        ensures
            match r {
                Ok(()) => !self@.contradicts(),
                Err(e) => self@.contradicts() && e == ConfigurationError::GuiWithManyCores,
            },
    {
        let many: bool = match &self.cores {
            Some(cores) => cores.len() > 1,
            None => false,
        };
        if self.simics_gui && many {
            Err(ConfigurationError::GuiWithManyCores)
        } else {
            Ok(())
        }
    }

    /// Makes the settings of a launch, or says why they cannot be made.
    pub fn build(self) -> (r: Result<SimicsFuzzer, ConfigurationError>)
        ensures
            match r {
                Ok(fuzzer) => self@.defect() is None && fuzzer@ == self@.launch(),
                Err(e) => self@.defect() == Some(e),
            },
    {
        match self.validate() {
            Ok(()) => {},
            Err(e) => {
                return Err(e);
            },
        }
        let project = match self.project {
            Some(value) => value,
            None => {
                return Err(ConfigurationError::Missing(Setting::Project));
            },
        };
        let tui = match self.tui {
            Some(value) => value,
            None => {
                return Err(ConfigurationError::Missing(Setting::Tui));
            },
        };
        let timeout_ms = match self.timeout_ms {
            Some(value) => value,
            None => {
                return Err(ConfigurationError::Missing(Setting::Timeout));
            },
        };
        let executor_timeout = match self.executor_timeout {
            Some(value) => value,
            None => {
                return Err(ConfigurationError::Missing(Setting::ExecutorTimeout));
            },
        };
        let cores = match self.cores {
            Some(value) => value,
            None => {
                return Err(ConfigurationError::Missing(Setting::Cores));
            },
        };
        let command = match self.command {
            Some(value) => value,
            None => {
                return Err(ConfigurationError::Missing(Setting::Command));
            },
        };
        let log_level = match self.log_level {
            Some(value) => value,
            None => {
                return Err(ConfigurationError::Missing(Setting::LogLevel));
            },
        };
        let trace_mode = match self.trace_mode {
            Some(value) => value,
            None => {
                return Err(ConfigurationError::Missing(Setting::TraceMode));
            },
        };
        let corpus = match self.corpus {
            Some(path) => path,
            None => String::new(),
        };
        let solutions = match self.solutions {
            Some(path) => path,
            None => String::new(),
        };
        Ok(
            SimicsFuzzer {
                project,
                input: self.input,
                corpus,
                solutions,
                tui,
                shrink: self.shrink,
                dedup: self.dedup,
                grimoire: self.grimoire,
                timeout_ms,
                executor_timeout,
                cores,
                command,
                log_level,
                trace_mode,
                simics_gui: self.simics_gui,
                iterations: self.iterations,
            },
        )
    }
}

impl SimicsFuzzer {
    /// The project that the simulator runs in.
    pub fn project(&self) -> (p: &String)
        ensures
            p@ == self@.project,
    {
        &self.project
    }

    /// The file or directory of the inputs to start from.
    pub fn input(&self) -> (p: &Option<String>)
        ensures
            text_of(*p) == self@.input,
    {
        &self.input
    }

    /// The directory of the input corpus.
    pub fn corpus(&self) -> (p: &String)
        ensures
            p@ == self@.corpus,
    {
        &self.corpus
    }

    /// The directory of the solutions.
    pub fn solutions(&self) -> (p: &String)
        ensures
            p@ == self@.solutions,
    {
        &self.solutions
    }

    /// Whether the terminal interface is shown.
    pub fn tui(&self) -> (b: bool)
        ensures
            b == self@.tui,
    {
        self.tui
    }

    /// Whether grammar-aware mutation is asked for.
    pub fn grimoire(&self) -> (b: bool)
        ensures
            b == self@.grimoire,
    {
        self.grimoire
    }

    /// The orchestrator's own time bound for one trial, in seconds.
    pub fn executor_timeout(&self) -> (t: u64)
        ensures
            t == self@.executor_timeout,
    {
        self.executor_timeout
    }

    /// The cores, one for each worker.
    pub fn cores(&self) -> (c: &Vec<usize>)
        ensures
            c@ == self@.cores,
    {
        &self.cores
    }

    /// The things that the simulator is told to do once it is set up.
    pub fn command(&self) -> (c: &Vec<StartupCommand>)
        ensures
            c@ == self@.command,
    {
        &self.command
    }

    /// Whether the simulator opens its own window.
    pub fn simics_gui(&self) -> (b: bool)
        ensures
            b == self@.simics_gui,
    {
        self.simics_gui
    }

    /// The number of turns of the search after which each worker stops.
    pub fn iterations(&self) -> (n: Option<usize>)
        ensures
            n == self@.iterations,
    {
        self.iterations
    }

    /// The log level that the launch runs under: with the terminal interface
    /// only errors are logged, whatever was chosen.
    pub open spec fn spec_effective_log_level(&self) -> LogLevel {
        if self@.tui {
            LogLevel::Error
        } else {
            self@.log_level
        }
    }

    /// The log level that the launch runs under.
    pub fn effective_log_level(&self) -> (l: LogLevel)
        ensures
            l == self.spec_effective_log_level(),
    {
        if self.tui {
            LogLevel::Error
        } else {
            self.log_level
        }
    }

    /// The budget of each worker: the number of turns of the search that it
    /// takes once its seeds are used up. A turn is one scheduled entry with
    /// its mutants and the calibration of what they find.
    pub fn budget(&self) -> (b: Option<u64>)
        ensures
            b == match self@.iterations {
                Some(n) => Some(n as u64),
                None => None,
            },
    {
        match self.iterations {
            Some(n) => Some(n as u64),
            None => None,
        }
    }

    /// The configuration of a worker's session for a coverage map of
    /// `MAP_SIZE` counters at `address`: the target watches for page faults
    /// and invalid opcodes, and runs under the launch's trace mode, timeout
    /// and effective log level.
    pub fn session_config(&self, address: u64) -> (config: SessionConfig)
        ensures
            config.spec_coverage_map() == (MapDescriptor { address, len: MAP_SIZE }),
            config.spec_faults() == seq![
                Fault::X86_64(X86_64Fault::Page),
                Fault::X86_64(X86_64Fault::InvalidOpcode),
            ],
            config.spec_trace_mode() == self@.trace_mode,
            config.spec_timeout_ms() == self@.timeout_ms,
            config.spec_log_level() == self.spec_effective_log_level(),
    {
        let mut faults: Vec<Fault> = Vec::new();
        faults.push(Fault::X86_64(X86_64Fault::Page));
        faults.push(Fault::X86_64(X86_64Fault::InvalidOpcode));
        assert(faults@ =~= seq![
            Fault::X86_64(X86_64Fault::Page),
            Fault::X86_64(X86_64Fault::InvalidOpcode),
        ]);
        SessionConfig::assemble(
            MapDescriptor { address, len: MAP_SIZE },
            faults,
            self.trace_mode,
            self.timeout_ms,
            self.effective_log_level(),
        )
    }

    /// The arguments of the simulator's start, in their order: no warnings
    /// about deprecated features; then its usual windows where its own
    /// window is asked for, else batch mode, no graphical interface and no
    /// consoles; then the project.
    pub fn init_args(&self) -> (args: Vec<InitArg>)
        ensures
            args@.len() == if self@.simics_gui {
                3int
            } else {
                5int
            },
            args@[0] == InitArg::NoDeprecationWarnings,
            self@.simics_gui ==> args@[1] == InitArg::GuiDefault,
            !self@.simics_gui ==> args@[1] == InitArg::BatchMode && args@[2] == InitArg::GuiNone
                && args@[3] == InitArg::NoWindows,
            args@.last() matches InitArg::Project(path) && path@ == self@.project,
    {
        let mut args: Vec<InitArg> = Vec::new();
        args.push(InitArg::NoDeprecationWarnings);
        if self.simics_gui {
            args.push(InitArg::GuiDefault);
        } else {
            args.push(InitArg::BatchMode);
            args.push(InitArg::GuiNone);
            args.push(InitArg::NoWindows);
        }
        args.push(InitArg::Project(self.project.clone()));
        args
    }
}

} // verus!
