//! Configuration types for the fault-injection engine, with validation.

use vstd::prelude::*;

use crate::targeting::regex_compile;
use crate::targeting::regex_valid;
use crate::text::lower_of;
use crate::text::str_eq;
use crate::text::to_lowercase_str;

verus! {

/// A structural configuration error, detected once during validation.
#[derive(Clone, Copy, PartialEq, Eq, Structural, Debug)]
pub enum ConfigError {
    /// `max_affected_percent` lies outside 0..=100.
    MaxAffectedPercentOutOfRange,
    /// A schedule window starts at or after its end.
    ScheduleStartNotBeforeEnd,
    /// Two experiments share an id.
    DuplicateExperimentId,
    /// An experiment id is the empty string.
    EmptyExperimentId,
    /// A targeting percentage lies outside 0..=100.
    PercentageOutOfRange,
    /// A path matcher holds a pattern the regex engine cannot compile.
    InvalidRegex,
    /// A latency fault specifies neither a fixed delay nor a random range.
    LatencyWithoutDuration,
    /// A latency fault range has its maximum below its minimum.
    LatencyMaxBelowMin,
    /// An error fault status code lies outside 100..=599.
    ErrorStatusOutOfRange,
    /// A timeout fault has a zero duration.
    TimeoutZeroDuration,
    /// A throttle fault has a zero byte rate.
    ThrottleZeroRate,
    /// A corruption probability lies outside the unit interval.
    CorruptProbabilityOutOfRange,
}

/// Global settings.
#[derive(Clone, Copy, Debug)]
pub struct Settings {
    /// Global kill switch.
    pub enabled: bool,
    /// Compute fault decisions without applying them.
    pub dry_run: bool,
    /// Log when faults are injected.
    pub log_injections: bool,
}

/// The default for boolean settings that are on unless configured off.
pub fn default_true() -> (r: bool)
    ensures
        r,
{
    true
}

impl Default for Settings {
    fn default() -> (r: Self)
        ensures
            r.enabled && !r.dry_run && r.log_injections,
    {
        Settings { enabled: true, dry_run: false, log_injections: true }
    }
}

/// A day of the week.
#[derive(Clone, Copy, PartialEq, Eq, Structural, Debug)]
pub enum Weekday {
    Mon,
    Tue,
    Wed,
    Thu,
    Fri,
    Sat,
    Sun,
}

/// A time of day with second precision.
#[derive(Clone, Copy, PartialEq, Eq, Structural, Debug)]
pub struct TimeOfDay {
    pub hour: u8,
    pub minute: u8,
    pub second: u8,
}

impl TimeOfDay {
    /// The fields fit a real time of day.
    pub open spec fn valid(self) -> bool {
        self.hour < 24 && self.minute < 60 && self.second < 60
    }

    /// The time as seconds since midnight.
    pub open spec fn seconds_spec(self) -> int {
        (self.hour as int) * 3600 + (self.minute as int) * 60 + (self.second as int)
    }

    pub open spec fn le_spec(self, other: TimeOfDay) -> bool {
        self.seconds_spec() <= other.seconds_spec()
    }

    pub open spec fn lt_spec(self, other: TimeOfDay) -> bool {
        self.seconds_spec() < other.seconds_spec()
    }

    fn total_seconds(&self) -> (r: u32)
        ensures
            r == self.seconds_spec(),
    {
        (self.hour as u32) * 3600 + (self.minute as u32) * 60 + (self.second as u32)
    }

    /// Whether this time lies at or before `other`.
    pub fn le(&self, other: &TimeOfDay) -> (r: bool)
        ensures
            r == self.le_spec(*other),
    {
        self.total_seconds() <= other.total_seconds()
    }

    /// Whether this time lies strictly before `other`.
    pub fn lt(&self, other: &TimeOfDay) -> (r: bool)
        ensures
            r == self.lt_spec(*other),
    {
        self.total_seconds() < other.total_seconds()
    }
}

/// A schedule window during which chaos is permitted to activate.
#[derive(Clone, Debug)]
pub struct Schedule {
    /// Days of the week on which the window applies.
    pub days: Vec<Weekday>,
    /// Start of the window.
    pub start: TimeOfDay,
    /// End of the window.
    pub end: TimeOfDay,
    /// Timezone name (e.g. "UTC", "America/New_York").
    pub timezone: String,
}

/// The timezone assumed when a schedule names none.
pub fn default_timezone() -> (r: String)
    ensures
        r@ == "UTC"@,
{
    "UTC".to_owned()
}

/// Parses a weekday name, short or long, case-insensitively.
pub open spec fn weekday_from_name(s: Seq<char>) -> Option<Weekday> {
    if s == "mon"@ || s == "monday"@ {
        Some(Weekday::Mon)
    } else if s == "tue"@ || s == "tuesday"@ {
        Some(Weekday::Tue)
    } else if s == "wed"@ || s == "wednesday"@ {
        Some(Weekday::Wed)
    } else if s == "thu"@ || s == "thursday"@ {
        Some(Weekday::Thu)
    } else if s == "fri"@ || s == "friday"@ {
        Some(Weekday::Fri)
    } else if s == "sat"@ || s == "saturday"@ {
        Some(Weekday::Sat)
    } else if s == "sun"@ || s == "sunday"@ {
        Some(Weekday::Sun)
    } else {
        None
    }
}

/// Parse a weekday name such as "mon" or "Monday".
pub fn parse_weekday(s: &str) -> (r: Option<Weekday>)
    ensures
        r == weekday_from_name(lower_of(s@)),
{
    let lower = to_lowercase_str(s);
    let l = lower.as_str();
    if str_eq(l, "mon") || str_eq(l, "monday") {
        Some(Weekday::Mon)
    } else if str_eq(l, "tue") || str_eq(l, "tuesday") {
        Some(Weekday::Tue)
    } else if str_eq(l, "wed") || str_eq(l, "wednesday") {
        Some(Weekday::Wed)
    } else if str_eq(l, "thu") || str_eq(l, "thursday") {
        Some(Weekday::Thu)
    } else if str_eq(l, "fri") || str_eq(l, "friday") {
        Some(Weekday::Fri)
    } else if str_eq(l, "sat") || str_eq(l, "saturday") {
        Some(Weekday::Sat)
    } else if str_eq(l, "sun") || str_eq(l, "sunday") {
        Some(Weekday::Sun)
    } else {
        None
    }
}

/// Safety configuration: limits that hold regardless of experiments.
#[derive(Clone, Debug)]
pub struct SafetyConfig {
    /// Maximum percentage of traffic that may be affected (parsed and
    /// validated; not consulted by the evaluation pipeline).
    pub max_affected_percent: u8,
    /// Schedule windows when chaos is active; empty means always active.
    pub schedule: Vec<Schedule>,
    /// Paths that are never affected by chaos.
    pub excluded_paths: Vec<String>,
}

impl Default for SafetyConfig {
    fn default() -> (r: Self)
        ensures
            r.max_affected_percent == 50,
            r.schedule@.len() == 0,
            r.excluded_paths@.len() == 3,
            r.excluded_paths@[0]@ == "/health"@,
            r.excluded_paths@[1]@ == "/ready"@,
            r.excluded_paths@[2]@ == "/metrics"@,
    {
        let mut excluded: Vec<String> = Vec::new();
        excluded.push("/health".to_owned());
        excluded.push("/ready".to_owned());
        excluded.push("/metrics".to_owned());
        SafetyConfig { max_affected_percent: 50, schedule: Vec::new(), excluded_paths: excluded }
    }
}

/// Path matching rule.
#[derive(Clone, Debug)]
pub enum PathMatcher {
    /// Exact path match.
    Exact { exact: String },
    /// Path prefix match.
    Prefix { prefix: String },
    /// Regex pattern match (unanchored search).
    Regex { regex: String },
}

impl PathMatcher {
    /// A matcher is valid when any regex pattern it holds compiles.
    pub open spec fn valid_spec(&self) -> bool {
        match *self {
            PathMatcher::Regex { regex } => regex_valid(regex@),
            _ => true,
        }
    }

    /// The configured string the matcher matches against.
    pub open spec fn value_spec(m: PathMatcher) -> Seq<char> {
        match m {
            PathMatcher::Exact { exact } => exact@,
            PathMatcher::Prefix { prefix } => prefix@,
            PathMatcher::Regex { regex } => regex@,
        }
    }

    /// Validate the path matcher.
    pub fn validate(&self) -> (r: Result<(), ConfigError>)
        ensures
            r is Ok <==> self.valid_spec(),
            r matches Err(e) ==> e == ConfigError::InvalidRegex,
    {
        match self {
            PathMatcher::Regex { regex } => {
                match regex_compile(regex.as_str()) {
                    Some(_) => Ok(()),
                    None => Err(ConfigError::InvalidRegex),
                }
            },
            _ => Ok(()),
        }
    }

    /// Get the path value used for matching.
    pub fn value(&self) -> (r: &str)
        ensures
            r@ == PathMatcher::value_spec(*self),
    {
        match self {
            PathMatcher::Exact { exact } => exact.as_str(),
            PathMatcher::Prefix { prefix } => prefix.as_str(),
            PathMatcher::Regex { regex } => regex.as_str(),
        }
    }
}

/// Targeting rules for an experiment.
#[derive(Clone, Debug)]
pub struct Targeting {
    /// Path matchers; empty means every path matches.
    pub paths: Vec<PathMatcher>,
    /// HTTP methods to match; empty means every method matches.
    pub methods: Vec<String>,
    /// Header name/value pairs that must all be present.
    pub headers: Vec<(String, String)>,
    /// Percentage of matching requests to affect (0..=100).
    pub percentage: u8,
}

/// The percentage assumed when targeting names none.
pub fn default_percentage() -> (r: u8)
    ensures
        r == 100,
{
    100
}

impl Default for Targeting {
    fn default() -> (r: Self)
        ensures
            r.paths@.len() == 0,
            r.methods@.len() == 0,
            r.headers@.len() == 0,
            r.percentage == 100,
    {
        Targeting { paths: Vec::new(), methods: Vec::new(), headers: Vec::new(), percentage: 100 }
    }
}

impl Targeting {
    pub open spec fn valid_spec(&self) -> bool {
        self.percentage <= 100 && (forall|i: int|
            0 <= i < self.paths@.len() ==> (#[trigger] self.paths@[i]).valid_spec())
    }

    /// The first validation failure, if any.
    pub open spec fn check_spec(t: Targeting) -> Result<(), ConfigError> {
        if t.percentage > 100 {
            Err(ConfigError::PercentageOutOfRange)
        } else if !(forall|i: int| 0 <= i < t.paths@.len() ==> (#[trigger] t.paths@[i]).valid_spec()) {
            Err(ConfigError::InvalidRegex)
        } else {
            Ok(())
        }
    }

    /// Validate the targeting configuration.
    pub fn validate(&self) -> (r: Result<(), ConfigError>)
        ensures
            r == Targeting::check_spec(*self),
            r is Ok <==> self.valid_spec(),
    {
        if self.percentage > 100 {
            return Err(ConfigError::PercentageOutOfRange);
        }
        let mut i: usize = 0;
        while i < self.paths.len()
            invariant
                i <= self.paths@.len(),
                self.percentage <= 100,
                forall|k: int| 0 <= k < i ==> (#[trigger] self.paths@[k]).valid_spec(),
            decreases self.paths@.len() - i,
        {
            if let Err(e) = self.paths[i].validate() {
                proof {
                    assert(!(forall|k: int|
                        0 <= k < self.paths@.len() ==> (#[trigger] self.paths@[k]).valid_spec()))
                        by {
                        assert(!self.paths@[i as int].valid_spec());
                    }
                    assert(Targeting::check_spec(*self) == Err::<(), ConfigError>(
                        ConfigError::InvalidRegex,
                    ));
                }
                return Err(e);
            }
            i += 1;
        }
        Ok(())
    }
}

/// Fault behaviours that can be injected.
#[derive(Clone, Debug)]
pub enum Fault {
    /// Delay the request before letting it proceed.
    Latency {
        /// Fixed delay in milliseconds; when zero, the range below is used.
        fixed_ms: u64,
        /// Minimum delay for the random range.
        min_ms: u64,
        /// Maximum delay for the random range.
        max_ms: u64,
    },
    /// Return an HTTP error immediately.
    Error {
        /// HTTP status code.
        status: u16,
        /// Error message body; a fixed default is used when absent.
        message: Option<String>,
        /// Additional headers, applied after the marker headers.
        headers: Vec<(String, String)>,
    },
    /// Wait, then return 504 Gateway Timeout.
    Timeout {
        /// Duration to wait before returning, in milliseconds.
        duration_ms: u64,
    },
    /// Report a throttled-delivery delay hint without waiting.
    Throttle {
        /// Bytes per second.
        bytes_per_second: u64,
    },
    /// Replace the response with garbage, with the given probability.
    Corrupt {
        /// Probability of corruption in parts per million (0..=1_000_000).
        probability_ppm: u32,
    },
    /// Simulate a connection reset.
    Reset,
}

impl Fault {
    pub open spec fn valid_spec(&self) -> bool {
        match *self {
            Fault::Latency { fixed_ms, min_ms, max_ms } => !(fixed_ms == 0 && min_ms == 0
                && max_ms == 0) && !(fixed_ms == 0 && max_ms < min_ms),
            Fault::Error { status, .. } => 100 <= status <= 599,
            Fault::Timeout { duration_ms } => duration_ms > 0,
            Fault::Throttle { bytes_per_second } => bytes_per_second > 0,
            Fault::Corrupt { probability_ppm } => probability_ppm <= 1_000_000,
            Fault::Reset => true,
        }
    }

    /// The first validation failure, if any.
    pub open spec fn check_spec(f: Fault) -> Result<(), ConfigError> {
        match f {
            Fault::Latency { fixed_ms, min_ms, max_ms } => {
                if fixed_ms == 0 && min_ms == 0 && max_ms == 0 {
                    Err(ConfigError::LatencyWithoutDuration)
                } else if fixed_ms == 0 && max_ms < min_ms {
                    Err(ConfigError::LatencyMaxBelowMin)
                } else {
                    Ok(())
                }
            },
            Fault::Error { status, .. } => {
                if status < 100 || status > 599 {
                    Err(ConfigError::ErrorStatusOutOfRange)
                } else {
                    Ok(())
                }
            },
            Fault::Timeout { duration_ms } => {
                if duration_ms == 0 {
                    Err(ConfigError::TimeoutZeroDuration)
                } else {
                    Ok(())
                }
            },
            Fault::Throttle { bytes_per_second } => {
                if bytes_per_second == 0 {
                    Err(ConfigError::ThrottleZeroRate)
                } else {
                    Ok(())
                }
            },
            Fault::Corrupt { probability_ppm } => {
                if probability_ppm > 1_000_000 {
                    Err(ConfigError::CorruptProbabilityOutOfRange)
                } else {
                    Ok(())
                }
            },
            Fault::Reset => Ok(()),
        }
    }

    /// Validate the fault configuration.
    pub fn validate(&self) -> (r: Result<(), ConfigError>)
        ensures
            r == Fault::check_spec(*self),
            r is Ok <==> self.valid_spec(),
    {
        match self {
            Fault::Latency { fixed_ms, min_ms, max_ms } => {
                if *fixed_ms == 0 && *min_ms == 0 && *max_ms == 0 {
                    Err(ConfigError::LatencyWithoutDuration)
                } else if *fixed_ms == 0 && *max_ms < *min_ms {
                    Err(ConfigError::LatencyMaxBelowMin)
                } else {
                    Ok(())
                }
            },
            Fault::Error { status, .. } => {
                if *status < 100 || *status > 599 {
                    Err(ConfigError::ErrorStatusOutOfRange)
                } else {
                    Ok(())
                }
            },
            Fault::Timeout { duration_ms } => {
                if *duration_ms == 0 {
                    Err(ConfigError::TimeoutZeroDuration)
                } else {
                    Ok(())
                }
            },
            Fault::Throttle { bytes_per_second } => {
                if *bytes_per_second == 0 {
                    Err(ConfigError::ThrottleZeroRate)
                } else {
                    Ok(())
                }
            },
            Fault::Corrupt { probability_ppm } => {
                if *probability_ppm > 1_000_000 {
                    Err(ConfigError::CorruptProbabilityOutOfRange)
                } else {
                    Ok(())
                }
            },
            Fault::Reset => Ok(()),
        }
    }
}

/// A fault experiment: a targeting predicate paired with a fault.
#[derive(Clone, Debug)]
pub struct Experiment {
    /// Unique identifier for the experiment.
    pub id: String,
    /// Whether the experiment is enabled.
    pub enabled: bool,
    /// Human-readable description.
    pub description: String,
    /// Targeting rules.
    pub targeting: Targeting,
    /// Fault to inject.
    pub fault: Fault,
}

impl Experiment {
    pub open spec fn valid_spec(&self) -> bool {
        self.id@.len() > 0 && self.targeting.valid_spec() && self.fault.valid_spec()
    }

    /// The first validation failure, if any.
    pub open spec fn check_spec(e: Experiment) -> Result<(), ConfigError> {
        if e.id@.len() == 0 {
            Err(ConfigError::EmptyExperimentId)
        } else if Targeting::check_spec(e.targeting) is Err {
            Targeting::check_spec(e.targeting)
        } else {
            Fault::check_spec(e.fault)
        }
    }

    /// Validate the experiment configuration.
    pub fn validate(&self) -> (r: Result<(), ConfigError>)
        ensures
            r == Experiment::check_spec(*self),
            r is Ok <==> self.valid_spec(),
    {
        if self.id.as_str().is_empty() {
            return Err(ConfigError::EmptyExperimentId);
        }
        if let Err(e) = self.targeting.validate() {
            return Err(e);
        }
        self.fault.validate()
    }
}

/// Main configuration for the fault-injection engine.
#[derive(Clone, Debug)]
pub struct Config {
    /// Global settings.
    pub settings: Settings,
    /// Safety limits.
    pub safety: SafetyConfig,
    /// Fault experiments, in declaration order.
    pub experiments: Vec<Experiment>,
}

impl Default for Config {
    fn default() -> (r: Self)
        ensures
            r.settings.enabled && !r.settings.dry_run && r.settings.log_injections,
            r.safety.max_affected_percent == 50,
            r.safety.schedule@.len() == 0,
            r.experiments@.len() == 0,
    {
        Config {
            settings: Settings::default(),
            safety: SafetyConfig::default(),
            experiments: Vec::new(),
        }
    }
}

impl Config {
    /// Every schedule window starts strictly before it ends.
    pub open spec fn schedules_ok(ss: Seq<Schedule>) -> bool {
        forall|i: int| 0 <= i < ss.len() ==> (#[trigger] ss[i]).start.lt_spec(ss[i].end)
    }

    /// The first failure among the experiments from position `i` on, with
    /// ids checked for duplicates against all earlier experiments.
    pub open spec fn experiments_check(exps: Seq<Experiment>, i: int) -> Result<(), ConfigError>
        decreases exps.len() - i,
    {
        if i < 0 || i >= exps.len() {
            Ok(())
        } else if exists|j: int| 0 <= j < i && (#[trigger] exps[j].id@) == exps[i].id@ {
            Err(ConfigError::DuplicateExperimentId)
        } else if Experiment::check_spec(exps[i]) is Err {
            Experiment::check_spec(exps[i])
        } else {
            Config::experiments_check(exps, i + 1)
        }
    }

    /// The first validation failure, if any.
    pub open spec fn check_spec(c: Config) -> Result<(), ConfigError> {
        if c.safety.max_affected_percent > 100 {
            Err(ConfigError::MaxAffectedPercentOutOfRange)
        } else if !Config::schedules_ok(c.safety.schedule@) {
            Err(ConfigError::ScheduleStartNotBeforeEnd)
        } else {
            Config::experiments_check(c.experiments@, 0)
        }
    }

    pub open spec fn valid_spec(&self) -> bool {
        &&& self.safety.max_affected_percent <= 100
        &&& Config::schedules_ok(self.safety.schedule@)
        &&& forall|i: int, j: int|
            0 <= i < j < self.experiments@.len() ==> (#[trigger] self.experiments@[i].id@)
                != (#[trigger] self.experiments@[j].id@)
        &&& forall|i: int|
            0 <= i < self.experiments@.len() ==> (#[trigger] self.experiments@[i]).valid_spec()
    }

    /// Validate the configuration.
    pub fn validate(&self) -> (r: Result<(), ConfigError>)
        ensures
            r == Config::check_spec(*self),
            r is Ok <==> self.valid_spec(),
    {
        if self.safety.max_affected_percent > 100 {
            return Err(ConfigError::MaxAffectedPercentOutOfRange);
        }

        let mut i: usize = 0;
        while i < self.safety.schedule.len()
            invariant
                i <= self.safety.schedule@.len(),
                self.safety.max_affected_percent <= 100,
                forall|k: int|
                    0 <= k < i ==> (#[trigger] self.safety.schedule@[k]).start.lt_spec(
                        self.safety.schedule@[k].end,
                    ),
            decreases self.safety.schedule@.len() - i,
        {
            if !self.safety.schedule[i].start.lt(&self.safety.schedule[i].end) {
                proof {
                    assert(!(self.safety.schedule@[i as int]).start.lt_spec(
                        self.safety.schedule@[i as int].end,
                    ));
                    assert(!Config::schedules_ok(self.safety.schedule@));
                }
                return Err(ConfigError::ScheduleStartNotBeforeEnd);
            }
            i += 1;
        }

        let ghost exps = self.experiments@;
        let mut i: usize = 0;
        while i < self.experiments.len()
            invariant
                i <= exps.len(),
                exps == self.experiments@,
                self.safety.max_affected_percent <= 100,
                Config::schedules_ok(self.safety.schedule@),
                Config::experiments_check(exps, 0) == Config::experiments_check(exps, i as int),
            decreases exps.len() - i,
        {
            let mut j: usize = 0;
            while j < i
                invariant
                    j <= i < exps.len(),
                    exps == self.experiments@,
                    self.safety.max_affected_percent <= 100,
                    Config::schedules_ok(self.safety.schedule@),
                    Config::experiments_check(exps, 0) == Config::experiments_check(exps, i as int),
                    forall|k: int| 0 <= k < j ==> (#[trigger] exps[k].id@) != exps[i as int].id@,
                decreases i - j,
            {
                if str_eq(self.experiments[j].id.as_str(), self.experiments[i].id.as_str()) {
                    proof {
                        assert(exps[j as int].id@ == exps[i as int].id@);
                        assert(Config::experiments_check(exps, i as int) == Err::<(),
                            ConfigError,
                        >(ConfigError::DuplicateExperimentId));
                        assert(exps[j as int].id@ == self.experiments@[j as int].id@);
                    }
                    return Err(ConfigError::DuplicateExperimentId);
                }
                j += 1;
            }
            if let Err(e) = self.experiments[i].validate() {
                proof {
                    assert(Config::experiments_check(exps, i as int) == Err::<(), ConfigError>(e));
                    assert(!exps[i as int].valid_spec());
                }
                return Err(e);
            }
            proof {
                assert(Config::experiments_check(exps, i as int) == Config::experiments_check(
                    exps,
                    i as int + 1,
                ));
            }
            i += 1;
        }
        proof {
            lemma_experiments_check_ok(exps, 0);
        }
        Ok(())
    }
}

/// `Config::experiments_check` from the start succeeds exactly when the ids
/// are pairwise distinct and every experiment is valid.
pub proof fn lemma_experiments_check_ok(exps: Seq<Experiment>, i: int)
    requires
        0 <= i <= exps.len(),
    ensures
        Config::experiments_check(exps, i) is Ok <==> ((forall|k: int|
            i <= k < exps.len() ==> (#[trigger] exps[k]).valid_spec()) && (forall|j: int, k: int|
            0 <= j < k < exps.len() && i <= k ==> (#[trigger] exps[j].id@) != (#[trigger] exps[k].id@))),
    decreases exps.len() - i,
{
    if i < exps.len() {
        lemma_experiments_check_ok(exps, i + 1);
    }
}

} // verus!
