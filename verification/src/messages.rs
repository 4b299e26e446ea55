//! The messages that the orchestrator and the target exchange, and the
//! configuration that opens a session.

use crate::fault::Fault;
use vstd::prelude::*;

verus! {

/// Where the coverage map lies and how many counters it holds.
#[derive(Clone, Copy, Debug, PartialEq, Eq, Structural)]
pub struct MapDescriptor {
    /// The address of the first counter.
    pub address: u64,
    /// The number of counters.
    pub len: usize,
}

/// How the target fills the coverage map.
#[derive(Clone, Copy, Debug, PartialEq, Eq, Structural)]
pub enum TraceMode {
    /// An edge is marked the first time it is taken.
    Once,
    /// An edge's counter goes up each time it is taken.
    HitCount,
}

/// How much the target logs.
#[derive(Clone, Copy, Debug, PartialEq, Eq, Structural)]
pub enum LogLevel {
    Off,
    Error,
    Warn,
    Info,
    Debug,
    Trace,
}

/// Why the target stopped.
#[derive(Clone, Debug, PartialEq, Eq)]
pub enum StopReason {
    /// The target reached the end of the harness.
    Normal,
    /// The target raised a fault.
    Crash(Fault),
    /// The target ran out of its simulated time.
    Timeout,
    /// The target could not carry out the run.
    Error(String),
}

/// A setting of a session or of a launch.
#[derive(Clone, Copy, Debug, PartialEq, Eq, Structural)]
pub enum Setting {
    CoverageMap,
    TraceMode,
    Timeout,
    LogLevel,
    Project,
    Tui,
    ExecutorTimeout,
    Cores,
    Command,
}

/// Why a configuration cannot be used. It is found before any worker starts.
#[derive(Clone, Copy, Debug, PartialEq, Eq, Structural)]
pub enum ConfigurationError {
    /// A setting that has no default was not given.
    Missing(Setting),
    /// The coverage map holds no counter.
    EmptyCoverageMap,
    /// The simulator's own window was asked for with more than one worker.
    GuiWithManyCores,
}

/// What a session is opened with. It is made once and never changed.
#[derive(Clone, Debug, PartialEq, Eq)]
pub struct SessionConfig {
    coverage_map: MapDescriptor,
    faults: Vec<Fault>,
    trace_mode: TraceMode,
    timeout_ms: u64,
    log_level: LogLevel,
}

impl SessionConfig {
    pub closed spec fn spec_coverage_map(&self) -> MapDescriptor {
        self.coverage_map
    }

    pub closed spec fn spec_faults(&self) -> Seq<Fault> {
        self.faults@
    }

    pub closed spec fn spec_trace_mode(&self) -> TraceMode {
        self.trace_mode
    }

    pub closed spec fn spec_timeout_ms(&self) -> u64 {
        self.timeout_ms
    }

    pub closed spec fn spec_log_level(&self) -> LogLevel {
        self.log_level
    }

    /// The coverage map of the session.
    pub fn coverage_map(&self) -> (m: MapDescriptor)
        ensures
            m == self.spec_coverage_map(),
    {
        self.coverage_map
    }

    /// The fault classes that the target watches for.
    pub fn faults(&self) -> (f: &Vec<Fault>)
        ensures
            f@ == self.spec_faults(),
    {
        &self.faults
    }

    /// How the target fills the coverage map.
    pub fn trace_mode(&self) -> (m: TraceMode)
        ensures
            m == self.spec_trace_mode(),
    {
        self.trace_mode
    }

    /// The target's time bound for one run, in milliseconds.
    pub fn timeout_ms(&self) -> (t: u64)
        ensures
            t == self.spec_timeout_ms(),
    {
        self.timeout_ms
    }

    /// How much the target logs.
    pub fn log_level(&self) -> (l: LogLevel)
        ensures
            l == self.spec_log_level(),
    {
        self.log_level
    }

    /// Whether two configurations say the same.
    pub open spec fn same_as(&self, other: &SessionConfig) -> bool {
        &&& self.spec_coverage_map() == other.spec_coverage_map()
        &&& self.spec_faults() == other.spec_faults()
        &&& self.spec_trace_mode() == other.spec_trace_mode()
        &&& self.spec_timeout_ms() == other.spec_timeout_ms()
        &&& self.spec_log_level() == other.spec_log_level()
    }

    /// A configuration that says the same as this one.
    pub fn duplicate(&self) -> (copy: SessionConfig)
        ensures
            copy.same_as(self),
    {
        let mut faults: Vec<Fault> = Vec::new();
        let mut i: usize = 0;
        while i < self.faults.len()
            invariant
                i <= self.faults.len(),
                faults@ == self.faults@.take(i as int),
            decreases self.faults.len() - i,
        {
            faults.push(self.faults[i]);
            assert(self.faults@.take(i + 1) == self.faults@.take(i as int).push(self.faults@[i as int]));
            i += 1;
        }
        assert(self.faults@.take(self.faults@.len() as int) == self.faults@);
        SessionConfig {
            coverage_map: self.coverage_map,
            faults,
            trace_mode: self.trace_mode,
            timeout_ms: self.timeout_ms,
            log_level: self.log_level,
        }
    }
}

/// A copy of `bytes`.
pub fn copy_bytes(bytes: &Vec<u8>) -> (copy: Vec<u8>)
    ensures
        copy@ == bytes@,
{
    let mut copy: Vec<u8> = Vec::new();
    let mut i: usize = 0;
    while i < bytes.len()
        invariant
            i <= bytes.len(),
            copy@ == bytes@.take(i as int),
        decreases bytes.len() - i,
    {
        copy.push(bytes[i]);
        assert(bytes@.take(i + 1) == bytes@.take(i as int).push(bytes@[i as int]));
        i += 1;
    }
    assert(bytes@.take(bytes@.len() as int) == bytes@);
    copy
}

/// Collects the settings of a session one by one.
#[derive(Clone, Debug)]
pub struct SessionConfigBuilder {
    coverage_map: Option<MapDescriptor>,
    faults: Vec<Fault>,
    trace_mode: Option<TraceMode>,
    timeout_ms: Option<u64>,
    log_level: Option<LogLevel>,
}

impl SessionConfigBuilder {
    pub closed spec fn spec_coverage_map(&self) -> Option<MapDescriptor> {
        self.coverage_map
    }

    pub closed spec fn spec_faults(&self) -> Seq<Fault> {
        self.faults@
    }

    pub closed spec fn spec_trace_mode(&self) -> Option<TraceMode> {
        self.trace_mode
    }

    pub closed spec fn spec_timeout_ms(&self) -> Option<u64> {
        self.timeout_ms
    }

    pub closed spec fn spec_log_level(&self) -> Option<LogLevel> {
        self.log_level
    }

    /// A builder with nothing set and no fault class.
    pub fn new() -> (b: SessionConfigBuilder)
        ensures
            b.spec_coverage_map() is None,
            b.spec_faults().len() == 0,
            b.spec_trace_mode() is None,
            b.spec_timeout_ms() is None,
            b.spec_log_level() is None,
    {
        SessionConfigBuilder {
            coverage_map: None,
            faults: Vec::new(),
            trace_mode: None,
            timeout_ms: None,
            log_level: None,
        }
    }

    /// Names the coverage map.
    pub fn coverage_map(self, map: MapDescriptor) -> (b: SessionConfigBuilder)
        ensures
            b.spec_coverage_map() == Some(map),
            b.spec_faults() == self.spec_faults(),
            b.spec_trace_mode() == self.spec_trace_mode(),
            b.spec_timeout_ms() == self.spec_timeout_ms(),
            b.spec_log_level() == self.spec_log_level(),
    {
        let mut b = self;
        b.coverage_map = Some(map);
        b
    }

    /// Adds one fault class to those that the target watches for.
    pub fn fault(self, fault: Fault) -> (b: SessionConfigBuilder)
        ensures
            b.spec_faults() == self.spec_faults().push(fault),
            b.spec_coverage_map() == self.spec_coverage_map(),
            b.spec_trace_mode() == self.spec_trace_mode(),
            b.spec_timeout_ms() == self.spec_timeout_ms(),
            b.spec_log_level() == self.spec_log_level(),
    {
        let mut b = self;
        b.faults.push(fault);
        b
    }

    /// Chooses the trace mode.
    pub fn trace_mode(self, mode: TraceMode) -> (b: SessionConfigBuilder)
        ensures
            b.spec_trace_mode() == Some(mode),
            b.spec_coverage_map() == self.spec_coverage_map(),
            b.spec_faults() == self.spec_faults(),
            b.spec_timeout_ms() == self.spec_timeout_ms(),
            b.spec_log_level() == self.spec_log_level(),
    {
        let mut b = self;
        b.trace_mode = Some(mode);
        b
    }

    /// Sets the target's time bound for one run, in milliseconds.
    pub fn timeout_ms(self, timeout_ms: u64) -> (b: SessionConfigBuilder)
        ensures
            b.spec_timeout_ms() == Some(timeout_ms),
            b.spec_coverage_map() == self.spec_coverage_map(),
            b.spec_faults() == self.spec_faults(),
            b.spec_trace_mode() == self.spec_trace_mode(),
            b.spec_log_level() == self.spec_log_level(),
    {
        let mut b = self;
        b.timeout_ms = Some(timeout_ms);
        b
    }

    /// Chooses the log level.
    pub fn log_level(self, level: LogLevel) -> (b: SessionConfigBuilder)
        ensures
            b.spec_log_level() == Some(level),
            b.spec_coverage_map() == self.spec_coverage_map(),
            b.spec_faults() == self.spec_faults(),
            b.spec_trace_mode() == self.spec_trace_mode(),
            b.spec_timeout_ms() == self.spec_timeout_ms(),
    {
        let mut b = self;
        b.log_level = Some(level);
        b
    }

    /// The first setting that is missing or unusable, in the order coverage
    /// map, trace mode, timeout, log level; `None` where all are there.
    pub open spec fn spec_defect(&self) -> Option<ConfigurationError> {
        match self.spec_coverage_map() {
            None => Some(ConfigurationError::Missing(Setting::CoverageMap)),
            Some(map) => if map.len == 0 {
                Some(ConfigurationError::EmptyCoverageMap)
            } else if self.spec_trace_mode() is None {
                Some(ConfigurationError::Missing(Setting::TraceMode))
            } else if self.spec_timeout_ms() is None {
                Some(ConfigurationError::Missing(Setting::Timeout))
            } else if self.spec_log_level() is None {
                Some(ConfigurationError::Missing(Setting::LogLevel))
            } else {
                None
            },
        }
    }

    /// Makes the configuration, or names the first setting that is missing.
    pub fn build(self) -> (r: Result<SessionConfig, ConfigurationError>)
        ensures
            match r {
                Ok(config) => {
                    &&& self.spec_defect() is None
                    &&& Some(config.spec_coverage_map()) == self.spec_coverage_map()
                    &&& config.spec_faults() == self.spec_faults()
                    &&& Some(config.spec_trace_mode()) == self.spec_trace_mode()
                    &&& Some(config.spec_timeout_ms()) == self.spec_timeout_ms()
                    &&& Some(config.spec_log_level()) == self.spec_log_level()
                },
                Err(e) => self.spec_defect() == Some(e),
            },
    {
        let coverage_map = match self.coverage_map {
            Some(map) => map,
            None => {
                return Err(ConfigurationError::Missing(Setting::CoverageMap));
            },
        };
        if coverage_map.len == 0 {
            return Err(ConfigurationError::EmptyCoverageMap);
        }
        let trace_mode = match self.trace_mode {
            Some(mode) => mode,
            None => {
                return Err(ConfigurationError::Missing(Setting::TraceMode));
            },
        };
        let timeout_ms = match self.timeout_ms {
            Some(t) => t,
            None => {
                return Err(ConfigurationError::Missing(Setting::Timeout));
            },
        };
        let log_level = match self.log_level {
            Some(level) => level,
            None => {
                return Err(ConfigurationError::Missing(Setting::LogLevel));
            },
        };
        Ok(SessionConfig { coverage_map, faults: self.faults, trace_mode, timeout_ms, log_level })
    }
}

impl SessionConfig {
    /// The configuration with the given settings.
    pub(crate) fn assemble(
        coverage_map: MapDescriptor,
        faults: Vec<Fault>,
        trace_mode: TraceMode,
        timeout_ms: u64,
        log_level: LogLevel,
    ) -> (config: SessionConfig)
        requires
            coverage_map.len > 0,
        ensures
            config.spec_coverage_map() == coverage_map,
            config.spec_faults() == faults@,
            config.spec_trace_mode() == trace_mode,
            config.spec_timeout_ms() == timeout_ms,
            config.spec_log_level() == log_level,
    {
        SessionConfig { coverage_map, faults, trace_mode, timeout_ms, log_level }
    }
}

/// What the orchestrator sends to the target.
#[derive(Clone, Debug, PartialEq, Eq)]
pub enum Command {
    /// Opens the session with its configuration.
    Initialize(SessionConfig),
    /// Runs the target on the given input.
    Run(Vec<u8>),
    /// Puts the target back into its clean state.
    Reset,
    /// Ends the session.
    Stop,
}

/// What the target sends to the orchestrator.
#[derive(Clone, Debug, PartialEq, Eq)]
pub enum Event {
    /// The coverage map of the session.
    SharedMemoryHandle(MapDescriptor),
    /// The target is in its clean state and waits for a run.
    Ready,
    /// The run has ended.
    Stopped(StopReason),
}

} // verus!
