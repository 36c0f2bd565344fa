//! The decision orchestrator: per-request control flow composing the safety
//! gate, the targeting matcher and the fault executor, while maintaining
//! counters and the drain flag.

use vstd::prelude::*;

use crate::clock::Clock;
use crate::config::Config;
use crate::config::ConfigError;
use crate::config::Experiment;
use crate::config::Fault;
use crate::config::SafetyConfig;
use crate::config::Schedule;
use crate::config::Settings;
use crate::config::TimeOfDay;
use crate::config::Weekday;
use crate::faults::apply_fault;
use crate::faults::fault_plan_spec;
use crate::faults::FaultPlan;
use crate::faults::FaultResult;
use crate::random::RandomSource;
use crate::targeting::compiled_from_targeting;
use crate::targeting::is_excluded_path;
use crate::targeting::is_excluded_spec;
use crate::targeting::CompiledTargeting;
use crate::text::lower_of;
use crate::text::to_lowercase_str;

verus! {

/// `x + 1`, saturating at the top of the counter range.
pub open spec fn sat_inc(x: u64) -> u64 {
    if x == u64::MAX {
        x
    } else {
        (x + 1) as u64
    }
}

// ------------------------------------------------------------------
// Header flattening.
// ------------------------------------------------------------------

/// The single-valued header view: each name lower-cased, each value the
/// first of the values carried under that name (or empty when none are).
pub open spec fn flatten_spec(hs: Seq<(Seq<char>, Seq<Seq<char>>)>) -> Seq<(Seq<char>, Seq<char>)> {
    hs.map_values(
        |p: (Seq<char>, Seq<Seq<char>>)|
            (
                lower_of(p.0),
                if p.1.len() > 0 {
                    p.1[0]
                } else {
                    Seq::<char>::empty()
                },
            ),
    )
}

/// Flatten multi-valued headers to a case-insensitive single-valued view.
pub fn flatten_headers(headers: &Vec<(String, Vec<String>)>) -> (r: Vec<(String, String)>)
    ensures
        r.deep_view() == flatten_spec(headers.deep_view()),
{
    let ghost hs = headers.deep_view();
    let mut r: Vec<(String, String)> = Vec::new();
    let mut i: usize = 0;
    while i < headers.len()
        invariant
            i <= headers@.len(),
            hs == headers.deep_view(),
            hs.len() == headers@.len(),
            r.deep_view().len() == i,
            forall|k: int| 0 <= k < i ==> #[trigger] r.deep_view()[k] == flatten_spec(hs)[k],
        decreases headers@.len() - i,
    {
        let key = to_lowercase_str(headers[i].0.as_str());
        let vals = &headers[i].1;
        let value: String = if vals.len() > 0 {
            vals[0].clone()
        } else {
            String::new()
        };
        let ghost old_dv = r.deep_view();
        r.push((key, value));
        proof {
            assert(hs[i as int] == (headers@[i as int].0@, headers@[i as int].1.deep_view()));
            assert(r.deep_view() =~= old_dv.push(
                (lower_of(hs[i as int].0), flatten_spec(hs)[i as int].1),
            ));
        }
        i += 1;
    }
    proof {
        assert(r.deep_view() =~= flatten_spec(hs));
    }
    r
}

// ------------------------------------------------------------------
// Schedule checks.
// ------------------------------------------------------------------

/// Whether a schedule window covers the given weekday and time of day.
pub open spec fn schedule_active_spec(s: Schedule, day: Weekday, time: TimeOfDay) -> bool {
    s.days@.contains(day) && s.start.le_spec(time) && time.le_spec(s.end)
}

fn weekday_in(days: &Vec<Weekday>, day: Weekday) -> (r: bool)
    ensures
        r == days@.contains(day),
{
    let mut i: usize = 0;
    while i < days.len()
        invariant
            i <= days@.len(),
            forall|k: int| 0 <= k < i ==> days@[k] != day,
        decreases days@.len() - i,
    {
        if days[i] == day {
            proof {
                assert(days@[i as int] == day);
            }
            return true;
        }
        i += 1;
    }
    false
}

/// Check one schedule window against a weekday and time of day: the day
/// must be listed and the time must fall within `[start, end]` inclusive.
pub fn check_schedule(schedule: &Schedule, day: Weekday, time: TimeOfDay) -> (r: bool)
    ensures
        r == schedule_active_spec(*schedule, day, time),
{
    if !weekday_in(&schedule.days, day) {
        return false;
    }
    schedule.start.le(&time) && time.le(&schedule.end)
}

/// Whether chaos is currently active: no schedule entries means always
/// active; otherwise at least one entry must cover the current time in its
/// own timezone, read from the injected clock.
pub fn is_within_schedule<C: Clock>(schedules: &Vec<Schedule>, clock: &mut C) -> (r: bool)
    ensures
        schedules@.len() == 0 ==> r,
{
    if schedules.len() == 0 {
        return true;
    }
    let mut i: usize = 0;
    while i < schedules.len()
        invariant
            i <= schedules@.len(),
        decreases schedules@.len() - i,
    {
        let (day, time) = clock.day_time(schedules[i].timezone.as_str());
        if check_schedule(&schedules[i], day, time) {
            return true;
        }
        i += 1;
    }
    false
}

// ------------------------------------------------------------------
// The agent.
// ------------------------------------------------------------------

/// A pre-compiled experiment: the declared experiment plus its compiled
/// targeting.
pub struct CompiledExperiment {
    id: String,
    enabled: bool,
    targeting: CompiledTargeting,
    experiment: Experiment,
}

impl CompiledExperiment {
    pub closed spec fn spec_id(&self) -> Seq<char> {
        self.id@
    }

    pub closed spec fn spec_enabled(&self) -> bool {
        self.enabled
    }

    pub closed spec fn spec_targeting(&self) -> CompiledTargeting {
        self.targeting
    }

    pub closed spec fn spec_experiment(&self) -> Experiment {
        self.experiment
    }
}

/// The outcome of evaluating one request.
pub struct Evaluation {
    /// Milliseconds the host must suspend this request before acting on
    /// `result`. Only this request waits; concurrent requests proceed.
    pub wait_ms: u64,
    /// The decision: allow (with an optional telemetry delay hint) or block.
    pub result: FaultResult,
    /// The id of the experiment whose fault was applied, if any.
    pub applied: Option<String>,
}

/// An evaluation that passes the request through untouched.
pub open spec fn pass_eval(ev: Evaluation) -> bool {
    ev.wait_ms == 0 && ev.result == (FaultResult::Allow { delay: None }) && ev.applied is None
}

/// The fault-injection decision engine.
pub struct ChaosAgent {
    settings: Settings,
    safety: SafetyConfig,
    compiled: Vec<CompiledExperiment>,
    counts: Vec<u64>,
    requests_total: u64,
    faults_injected: u64,
    draining: bool,
}

/// How a freshly built agent relates to its configuration.
pub open spec fn initialized_from(a: ChaosAgent, config: Config) -> bool {
    &&& a.spec_settings() == config.settings
    &&& a.spec_safety() == config.safety
    &&& a.spec_count() == config.experiments@.len()
    &&& a.spec_counts().len() == config.experiments@.len()
    &&& forall|i: int|
        0 <= i < config.experiments@.len() ==> (#[trigger] a.spec_compiled()[i]).spec_experiment()
            == config.experiments@[i]
    &&& forall|i: int|
        0 <= i < config.experiments@.len() ==> (#[trigger] a.spec_compiled()[i]).spec_id()
            == config.experiments@[i].id@
    &&& forall|i: int|
        0 <= i < config.experiments@.len() ==> (#[trigger] a.spec_compiled()[i]).spec_enabled()
            == config.experiments@[i].enabled
    &&& forall|i: int|
        0 <= i < config.experiments@.len() ==> compiled_from_targeting(
            config.experiments@[i].targeting,
            (#[trigger] a.spec_compiled()[i]).spec_targeting(),
        )
    &&& forall|i: int| 0 <= i < a.spec_counts().len() ==> (#[trigger] a.spec_counts()[i]) == 0
    &&& a.spec_requests_total() == 0
    &&& a.spec_faults_injected() == 0
    &&& !a.spec_draining()
}

/// Every throttle fault among the compiled experiments carries a positive
/// byte rate.
pub open spec fn throttle_rates_ok(s: Seq<CompiledExperiment>) -> bool {
    forall|i: int|
        0 <= i < s.len() ==> (((#[trigger] s[i]).spec_experiment().fault) matches Fault::Throttle {
            bytes_per_second,
        } ==> bytes_per_second > 0)
}

/// The injection count recorded beside the first experiment with the given
/// id, or zero when no experiment has it.
pub open spec fn lookup_count(ids: Seq<Seq<char>>, counts: Seq<u64>, id: Seq<char>) -> u64
    decreases ids.len(),
{
    if ids.len() == 0 || counts.len() == 0 {
        0
    } else if ids[0] == id {
        counts[0]
    } else {
        lookup_count(ids.drop_first(), counts.drop_first(), id)
    }
}

/// The number of enabled experiments in the sequence.
pub open spec fn count_enabled(s: Seq<CompiledExperiment>) -> int
    decreases s.len(),
{
    if s.len() == 0 {
        0
    } else {
        count_enabled(s.drop_last()) + if s.last().spec_enabled() {
            1int
        } else {
            0int
        }
    }
}

/// A plain-value snapshot of the engine's counters and gauges.
pub struct MetricsSnapshot {
    /// Requests evaluated so far.
    pub requests_total: u64,
    /// Faults injected so far.
    pub faults_injected_total: u64,
    /// Injection count per experiment id, in declaration order.
    pub experiment_injections: Vec<(String, u64)>,
    /// Number of enabled experiments.
    pub experiments_enabled: usize,
    /// Whether the global kill switch is on.
    pub agent_enabled: bool,
    /// Whether the agent is draining.
    pub agent_draining: bool,
}

/// The health of the engine as reported to the host.
#[derive(Clone, Copy, PartialEq, Eq, Structural, Debug)]
pub enum HealthState {
    /// Operating normally.
    Healthy,
    /// Draining: fault injection is suppressed.
    Degraded,
}

impl ChaosAgent {
    pub closed spec fn spec_settings(&self) -> Settings {
        self.settings
    }

    pub closed spec fn spec_safety(&self) -> SafetyConfig {
        self.safety
    }

    pub closed spec fn spec_compiled(&self) -> Seq<CompiledExperiment> {
        self.compiled@
    }

    pub closed spec fn spec_counts(&self) -> Seq<u64> {
        self.counts@
    }

    pub closed spec fn spec_requests_total(&self) -> u64 {
        self.requests_total
    }

    pub closed spec fn spec_faults_injected(&self) -> u64 {
        self.faults_injected
    }

    pub closed spec fn spec_draining(&self) -> bool {
        self.draining
    }

    pub open spec fn spec_count(&self) -> int {
        self.spec_compiled().len() as int
    }

    pub open spec fn spec_id(&self, i: int) -> Seq<char> {
        self.spec_compiled()[i].spec_id()
    }

    pub open spec fn spec_enabled(&self, i: int) -> bool {
        self.spec_compiled()[i].spec_enabled()
    }

    pub open spec fn spec_fault(&self, i: int) -> Fault {
        self.spec_compiled()[i].spec_experiment().fault
    }

    pub open spec fn spec_percentage(&self, i: int) -> u8 {
        self.spec_compiled()[i].spec_targeting().spec_percentage()
    }

    pub open spec fn spec_ids(&self) -> Seq<Seq<char>> {
        self.spec_compiled().map_values(|e: CompiledExperiment| e.spec_id())
    }

    /// Whether the request matches experiment `i`'s compiled targeting.
    pub open spec fn spec_matches(
        &self,
        i: int,
        method: Seq<char>,
        path: Seq<char>,
        headers: Seq<(Seq<char>, Seq<char>)>,
    ) -> bool {
        self.spec_compiled()[i].spec_targeting().matches_spec(method, path, headers)
    }

    /// The agent's internal consistency: one counter per experiment, and
    /// every throttle fault carries a positive byte rate (validation
    /// guarantees this; the executor's delay hint divides by it).
    pub open spec fn wf(&self) -> bool {
        self.spec_counts().len() == self.spec_count() && throttle_rates_ok(self.spec_compiled())
    }

    /// Build the engine from a configuration: compile every experiment, in
    /// declaration order, and zero the counters. The number of compiled
    /// experiments always equals the number of declared experiments, even
    /// when a regex matcher inside one was dropped for failing to compile.
    pub fn new(config: Config) -> (r: ChaosAgent)
        ensures
            initialized_from(r, config),
    {
        let Config { settings, safety, experiments } = config;
        let ghost declared = experiments@;
        let mut rest = experiments;
        let mut compiled: Vec<CompiledExperiment> = Vec::new();
        let mut counts: Vec<u64> = Vec::new();
        while rest.len() > 0
            invariant
                compiled@.len() + rest@.len() == declared.len(),
                counts@.len() == compiled@.len(),
                rest@ == declared.skip(compiled@.len() as int),
                forall|k: int|
                    0 <= k < compiled@.len() ==> (#[trigger] compiled@[k]).spec_experiment()
                        == declared[k],
                forall|k: int|
                    0 <= k < compiled@.len() ==> (#[trigger] compiled@[k]).spec_id()
                        == declared[k].id@,
                forall|k: int|
                    0 <= k < compiled@.len() ==> (#[trigger] compiled@[k]).spec_enabled()
                        == declared[k].enabled,
                forall|k: int|
                    0 <= k < compiled@.len() ==> compiled_from_targeting(
                        declared[k].targeting,
                        (#[trigger] compiled@[k]).spec_targeting(),
                    ),
                forall|k: int| 0 <= k < counts@.len() ==> (#[trigger] counts@[k]) == 0,
            decreases rest@.len(),
        {
            let ghost done = compiled@.len();
            let exp = rest.remove(0);
            proof {
                assert(exp == declared[done as int]);
                assert(rest@ =~= declared.skip(done as int + 1));
            }
            let targeting = CompiledTargeting::new(&exp.targeting);
            let id = exp.id.clone();
            let enabled = exp.enabled;
            compiled.push(CompiledExperiment { id, enabled, targeting, experiment: exp });
            counts.push(0);
        }
        proof {
            assert(compiled@.len() == declared.len());
        }
        ChaosAgent {
            settings,
            safety,
            compiled,
            counts,
            requests_total: 0,
            faults_injected: 0,
            draining: false,
        }
    }

    /// Validate a configuration and build the engine from it. Succeeds
    /// exactly on valid configurations, returning the first validation
    /// failure otherwise.
    pub fn from_config(config: Config) -> (r: Result<ChaosAgent, ConfigError>)
        ensures
            r is Ok <==> config.valid_spec(),
            r matches Err(e) ==> Config::check_spec(config) == Err::<(), ConfigError>(e),
            r matches Ok(a) ==> initialized_from(a, config) && a.wf(),
    {
        match config.validate() {
            Ok(()) => {
                let ghost cfg = config;
                let a = ChaosAgent::new(config);
                proof {
                    assert forall|i: int|
                        0 <= i < a.spec_compiled().len() implies (((
                    #[trigger] a.spec_compiled()[i]).spec_experiment().fault)
                        matches Fault::Throttle { bytes_per_second } ==> bytes_per_second > 0) by {
                        assert(a.spec_compiled()[i].spec_experiment() == cfg.experiments@[i]);
                        assert(cfg.experiments@[i].valid_spec());
                    }
                }
                Ok(a)
            },
            Err(e) => Err(e),
        }
    }

    /// Whether the agent is currently draining.
    pub fn is_draining(&self) -> (r: bool)
        ensures
            r == self.spec_draining(),
    {
        self.draining
    }

    /// Total requests evaluated.
    pub fn total_requests(&self) -> (r: u64)
        ensures
            r == self.spec_requests_total(),
    {
        self.requests_total
    }

    /// Total faults injected.
    pub fn total_faults_injected(&self) -> (r: u64)
        ensures
            r == self.spec_faults_injected(),
    {
        self.faults_injected
    }

    /// The number of compiled experiments.
    pub fn experiment_count(&self) -> (r: usize)
        ensures
            r == self.spec_count(),
    {
        self.compiled.len()
    }

    /// The id of the experiment at the given position.
    pub fn experiment_id(&self, i: usize) -> (r: &String)
        requires
            i < self.spec_count(),
        ensures
            r@ == self.spec_id(i as int),
    {
        &self.compiled[i].id
    }

    /// Mark the agent as draining. One-way: nothing ever clears the flag.
    pub fn set_draining(&mut self)
        ensures
            final(self).spec_draining(),
            final(self).spec_settings() == old(self).spec_settings(),
            final(self).spec_safety() == old(self).spec_safety(),
            final(self).spec_compiled() == old(self).spec_compiled(),
            final(self).spec_counts() == old(self).spec_counts(),
            final(self).spec_requests_total() == old(self).spec_requests_total(),
            final(self).spec_faults_injected() == old(self).spec_faults_injected(),
    {
        self.draining = true;
    }

    /// The injection count for the experiment with the given id (zero for
    /// an unknown id).
    pub fn get_injection_count(&self, experiment_id: &str) -> (r: u64)
        requires
            self.wf(),
        ensures
            r == lookup_count(self.spec_ids(), self.spec_counts(), experiment_id@),
    {
        let ghost ids = self.spec_ids();
        let ghost cts = self.spec_counts();
        proof {
            assert(ids.skip(0) =~= ids);
            assert(cts.skip(0) =~= cts);
        }
        let mut i: usize = 0;
        while i < self.compiled.len()
            invariant
                self.wf(),
                i <= self.compiled@.len(),
                ids == self.spec_ids(),
                cts == self.spec_counts(),
                ids.len() == self.compiled@.len(),
                cts.len() == self.compiled@.len(),
                lookup_count(ids, cts, experiment_id@) == lookup_count(
                    ids.skip(i as int),
                    cts.skip(i as int),
                    experiment_id@,
                ),
            decreases self.compiled@.len() - i,
        {
            proof {
                assert(ids.skip(i as int)[0] == ids[i as int]);
                assert(cts.skip(i as int)[0] == cts[i as int]);
            }
            if crate::text::str_eq(self.compiled[i].id.as_str(), experiment_id) {
                proof {
                    assert(ids[i as int] == self.compiled@[i as int].spec_id());
                }
                return self.counts[i];
            }
            proof {
                assert(ids[i as int] == self.compiled@[i as int].spec_id());
                assert(ids.skip(i as int).drop_first() =~= ids.skip(i as int + 1));
                assert(cts.skip(i as int).drop_first() =~= cts.skip(i as int + 1));
            }
            i += 1;
        }
        proof {
            assert(ids.skip(self.compiled@.len() as int).len() == 0);
        }
        0
    }

    /// Report health: degraded while draining, healthy otherwise.
    pub fn health_state(&self) -> (r: HealthState)
        ensures
            r == (if self.spec_draining() {
                HealthState::Degraded
            } else {
                HealthState::Healthy
            }),
    {
        if self.draining {
            HealthState::Degraded
        } else {
            HealthState::Healthy
        }
    }

    /// A snapshot of the counters and gauges the engine exposes.
    pub fn metrics_snapshot(&self) -> (r: MetricsSnapshot)
        requires
            self.wf(),
        ensures
            r.requests_total == self.spec_requests_total(),
            r.faults_injected_total == self.spec_faults_injected(),
            r.experiment_injections@.len() == self.spec_count(),
            forall|i: int|
                0 <= i < self.spec_count() ==> (#[trigger] r.experiment_injections@[i]).0@
                    == self.spec_id(i) && r.experiment_injections@[i].1 == self.spec_counts()[i],
            r.experiments_enabled == count_enabled(self.spec_compiled()),
            r.agent_enabled == self.spec_settings().enabled,
            r.agent_draining == self.spec_draining(),
    {
        let mut injections: Vec<(String, u64)> = Vec::new();
        let mut enabled_count: usize = 0;
        let mut i: usize = 0;
        while i < self.compiled.len()
            invariant
                self.wf(),
                i <= self.compiled@.len(),
                injections@.len() == i,
                forall|k: int|
                    0 <= k < i ==> (#[trigger] injections@[k]).0@ == self.spec_id(k)
                        && injections@[k].1 == self.spec_counts()[k],
                enabled_count == count_enabled(self.spec_compiled().subrange(0, i as int)),
                enabled_count <= i,
            decreases self.compiled@.len() - i,
        {
            injections.push((self.compiled[i].id.clone(), self.counts[i]));
            if self.compiled[i].enabled {
                enabled_count += 1;
            }
            proof {
                let pre = self.spec_compiled().subrange(0, i as int + 1);
                assert(pre.drop_last() =~= self.spec_compiled().subrange(0, i as int));
                assert(pre.last() == self.spec_compiled()[i as int]);
            }
            i += 1;
        }
        proof {
            assert(self.spec_compiled().subrange(0, self.compiled@.len() as int)
                =~= self.spec_compiled());
        }
        MetricsSnapshot {
            requests_total: self.requests_total,
            faults_injected_total: self.faults_injected,
            experiment_injections: injections,
            experiments_enabled: enabled_count,
            agent_enabled: self.settings.enabled,
            agent_draining: self.draining,
        }
    }

    /// The indices of the enabled experiments whose targeting matches the
    /// request, in declaration order.
    pub fn find_matching_experiments(
        &self,
        method: &str,
        path: &str,
        headers: &Vec<(String, String)>,
    ) -> (r: Vec<usize>)
        ensures
            forall|k: int|
                0 <= k < r@.len() ==> (#[trigger] r@[k]) < self.spec_count() && self.spec_enabled(
                    r@[k] as int,
                ) && self.spec_matches(r@[k] as int, method@, path@, headers.deep_view()),
            forall|i: int|
                0 <= i < self.spec_count() && self.spec_enabled(i) && self.spec_matches(
                    i,
                    method@,
                    path@,
                    headers.deep_view(),
                ) ==> r@.contains(i as usize),
            forall|k1: int, k2: int| 0 <= k1 < k2 < r@.len() ==> r@[k1] < r@[k2],
    {
        let mut r: Vec<usize> = Vec::new();
        let mut i: usize = 0;
        while i < self.compiled.len()
            invariant
                i <= self.compiled@.len(),
                forall|k: int|
                    0 <= k < r@.len() ==> (#[trigger] r@[k]) < i && self.spec_enabled(r@[k] as int)
                        && self.spec_matches(r@[k] as int, method@, path@, headers.deep_view()),
                forall|t: int|
                    0 <= t < i && self.spec_enabled(t) && self.spec_matches(
                        t,
                        method@,
                        path@,
                        headers.deep_view(),
                    ) ==> r@.contains(t as usize),
                forall|k1: int, k2: int| 0 <= k1 < k2 < r@.len() ==> r@[k1] < r@[k2],
            decreases self.compiled@.len() - i,
        {
            let ghost old_r = r@;
            if self.compiled[i].enabled && self.compiled[i].targeting.matches(
                method,
                path,
                headers,
            ) {
                r.push(i);
                proof {
                    assert(r@[r@.len() - 1] == i as usize);
                    assert forall|t: int|
                        0 <= t < i + 1 && self.spec_enabled(t) && self.spec_matches(
                            t,
                            method@,
                            path@,
                            headers.deep_view(),
                        ) implies r@.contains(t as usize) by {
                        if t < i {
                            assert(old_r.contains(t as usize));
                            let w = choose|w: int| 0 <= w < old_r.len() && old_r[w] == t as usize;
                            assert(r@[w] == t as usize);
                        } else {
                            assert(r@[r@.len() - 1] == t as usize);
                        }
                    }
                }
            } else {
                proof {
                    assert forall|t: int|
                        0 <= t < i + 1 && self.spec_enabled(t) && self.spec_matches(
                            t,
                            method@,
                            path@,
                            headers.deep_view(),
                        ) implies r@.contains(t as usize) by {
                        assert(t != i);
                    }
                }
            }
            i += 1;
        }
        r
    }

    /// Evaluate one request.
    ///
    /// Increments the request counter, runs the safety gate (kill switch,
    /// drain flag, schedule, excluded paths), selects the first matching
    /// enabled experiment that wins its percentage roll, applies its fault,
    /// and returns the outcome. Once the drain flag is set, no evaluation
    /// blocks a request or increments the fault counters.
    #[verifier::loop_isolation(false)]
    pub fn evaluate<R: RandomSource, C: Clock>(
        &mut self,
        method: &str,
        path: &str,
        headers: &Vec<(String, Vec<String>)>,
        rng: &mut R,
        clock: &mut C,
    ) -> (ev: Evaluation)
        requires
            old(self).wf(),
        ensures
            final(self).wf(),
            final(self).spec_settings() == old(self).spec_settings(),
            final(self).spec_safety() == old(self).spec_safety(),
            final(self).spec_compiled() == old(self).spec_compiled(),
            final(self).spec_draining() == old(self).spec_draining(),
            final(self).spec_requests_total() == sat_inc(old(self).spec_requests_total()),
            final(self).spec_counts().len() == old(self).spec_counts().len(),
            old(self).spec_draining() ==> pass_eval(ev),
            !old(self).spec_settings().enabled ==> pass_eval(ev),
            is_excluded_spec(path@, old(self).spec_safety().excluded_paths.deep_view())
                ==> pass_eval(ev),
            (forall|i: int|
                0 <= i < old(self).spec_count() ==> !(old(self).spec_enabled(i)
                    && old(self).spec_matches(i, method@, path@, flatten_spec(headers.deep_view()))))
                ==> pass_eval(ev),
            ev.result is Block ==> ev.applied is Some,
            ev.applied is None ==> final(self).spec_counts() == old(self).spec_counts()
                && final(self).spec_faults_injected() == old(self).spec_faults_injected()
                && pass_eval(ev),
            ev.applied matches Some(id) ==> ({
                &&& !old(self).spec_draining()
                &&& old(self).spec_settings().enabled
                &&& !is_excluded_spec(path@, old(self).spec_safety().excluded_paths.deep_view())
                &&& final(self).spec_faults_injected() == sat_inc(
                    old(self).spec_faults_injected(),
                )
                &&& exists|i: int|
                    {
                        &&& 0 <= i < old(self).spec_count()
                        &&& (#[trigger] old(self).spec_id(i)) == id@
                        &&& old(self).spec_enabled(i)
                        &&& old(self).spec_matches(
                            i,
                            method@,
                            path@,
                            flatten_spec(headers.deep_view()),
                        )
                        &&& old(self).spec_percentage(i) > 0
                        &&& fault_plan_spec(
                            old(self).spec_fault(i),
                            id@,
                            old(self).spec_settings().dry_run,
                            (FaultPlan { wait_ms: ev.wait_ms, result: ev.result }),
                        )
                        &&& final(self).spec_counts() == old(self).spec_counts().update(
                            i,
                            sat_inc(old(self).spec_counts()[i]),
                        )
                    }
            }),
            (!old(self).spec_draining() && old(self).spec_settings().enabled && old(
                self,
            ).spec_safety().schedule@.len() == 0 && !is_excluded_spec(
                path@,
                old(self).spec_safety().excluded_paths.deep_view(),
            ) && exists|i: int|
                0 <= i < old(self).spec_count() && old(self).spec_enabled(i) && old(
                    self,
                ).spec_matches(i, method@, path@, flatten_spec(headers.deep_view())) && (
                #[trigger] old(self).spec_percentage(i)) >= 100) ==> ev.applied is Some,
    {
        if self.requests_total < u64::MAX {
            self.requests_total = self.requests_total + 1;
        }

        if !self.settings.enabled {
            return Evaluation {
                wait_ms: 0,
                result: FaultResult::Allow { delay: None },
                applied: None,
            };
        }
        if self.draining {
            return Evaluation {
                wait_ms: 0,
                result: FaultResult::Allow { delay: None },
                applied: None,
            };
        }
        if !is_within_schedule(&self.safety.schedule, clock) {
            return Evaluation {
                wait_ms: 0,
                result: FaultResult::Allow { delay: None },
                applied: None,
            };
        }

        let flat = flatten_headers(headers);

        if is_excluded_path(path, &self.safety.excluded_paths) {
            return Evaluation {
                wait_ms: 0,
                result: FaultResult::Allow { delay: None },
                applied: None,
            };
        }

        let matching = self.find_matching_experiments(method, path, &flat);

        let ghost entry = *self;
        let mut k: usize = 0;
        while k < matching.len()
            invariant
                *self == entry,
                forall|t: int|
                    0 <= t < k ==> entry.spec_percentage((#[trigger] matching@[t]) as int) < 100,
            decreases matching@.len() - k,
        {
            let idx = matching[k];
            proof {
                assert(old(self).spec_compiled()[idx as int] == self.compiled@[idx as int]);
            }
            if self.compiled[idx].targeting.should_apply(rng) {
                let dry = self.settings.dry_run;
                let plan = apply_fault(
                    &self.compiled[idx].experiment.fault,
                    self.compiled[idx].id.as_str(),
                    dry,
                    rng,
                );
                let id = self.compiled[idx].id.clone();
                let ghost pre_counts = self.counts@;
                let c = self.counts[idx];
                if c < u64::MAX {
                    self.counts[idx] = c + 1;
                }
                proof {
                    assert(self.counts@ =~= pre_counts.update(idx as int, sat_inc(c)));
                }
                if self.faults_injected < u64::MAX {
                    self.faults_injected = self.faults_injected + 1;
                }
                let ev = Evaluation {
                    wait_ms: plan.wait_ms,
                    result: plan.result,
                    applied: Some(id),
                };
                proof {
                    let gi = idx as int;
                    assert(plan == (FaultPlan { wait_ms: ev.wait_ms, result: ev.result }));
                    assert(old(self).spec_id(gi) == id@);
                    assert(old(self).spec_enabled(gi));
                    assert(old(self).spec_percentage(gi) > 0);
                    assert(old(self).spec_matches(
                        gi,
                        method@,
                        path@,
                        flatten_spec(headers.deep_view()),
                    ));
                    assert(fault_plan_spec(
                        old(self).spec_fault(gi),
                        id@,
                        old(self).spec_settings().dry_run,
                        (FaultPlan { wait_ms: ev.wait_ms, result: ev.result }),
                    ));
                    assert(self.spec_counts() == old(self).spec_counts().update(
                        gi,
                        sat_inc(old(self).spec_counts()[gi]),
                    ));
                }
                return ev;
            }
            k += 1;
        }

        proof {
            assert forall|i: int|
                0 <= i < old(self).spec_count() && old(self).spec_enabled(i) && old(
                    self,
                ).spec_matches(i, method@, path@, flatten_spec(headers.deep_view())) implies (
            #[trigger] old(self).spec_percentage(i)) < 100 by {
                assert(entry.spec_compiled() == old(self).spec_compiled());
                assert(entry.spec_enabled(i));
                assert(entry.spec_matches(i, method@, path@, flat.deep_view()));
                assert(matching@.contains(i as usize));
                let t = choose|t: int| 0 <= t < matching@.len() && matching@[t] == i as usize;
                assert(matching@[t] == i as usize);
                assert(vstd::std_specs::vec::spec_vec_len(&entry.compiled)
                    == entry.spec_compiled().len());
                assert(matching@[t] as int == i);
                assert(entry.spec_percentage(i) < 100);
            }
        }
        Evaluation { wait_ms: 0, result: FaultResult::Allow { delay: None }, applied: None }
    }
}

} // verus!
