use chaos_engine::agent::flatten_headers;
use chaos_engine::agent::check_schedule;
use chaos_engine::agent::is_within_schedule;
use chaos_engine::agent::ChaosAgent;
use chaos_engine::agent::HealthState;
use chaos_engine::clock::Clock;
use chaos_engine::clock::SystemClock;
use chaos_engine::config::Config;
use chaos_engine::config::Experiment;
use chaos_engine::config::Fault;
use chaos_engine::config::PathMatcher;
use chaos_engine::config::SafetyConfig;
use chaos_engine::config::Schedule;
use chaos_engine::config::Settings;
use chaos_engine::config::Targeting;
use chaos_engine::config::TimeOfDay;
use chaos_engine::config::Weekday;
use chaos_engine::faults::FaultResult;
use chaos_engine::random::RandomSource;
use chaos_engine::random::ThreadRandom;
use chaos_engine::targeting::is_excluded_path;

/// A deterministic random source: hands out scripted draws in order,
/// clamped into the requested range, and the range minimum when the script
/// runs out.
struct FixedRolls {
    rolls: Vec<u64>,
    next: usize,
}

impl FixedRolls {
    fn new(rolls: Vec<u64>) -> Self {
        FixedRolls { rolls, next: 0 }
    }
}

impl RandomSource for FixedRolls {
    fn pick(&mut self, lo: u64, hi: u64) -> u64 {
        let raw = if self.next < self.rolls.len() {
            let r = self.rolls[self.next];
            self.next += 1;
            r
        } else {
            lo
        };
        raw.clamp(lo, hi)
    }
}

/// A clock frozen at one weekday and time of day, whatever the timezone.
struct FixedClock {
    day: Weekday,
    time: TimeOfDay,
}

impl Clock for FixedClock {
    fn day_time(&mut self, _timezone: &str) -> (Weekday, TimeOfDay) {
        (self.day, self.time)
    }
}

fn create_test_config(experiments: Vec<Experiment>) -> Config {
    Config {
        settings: Settings {
            enabled: true,
            dry_run: false,
            log_injections: false,
        },
        safety: SafetyConfig {
            max_affected_percent: 100,
            schedule: vec![],
            excluded_paths: vec!["/health".to_string()],
        },
        experiments,
    }
}

fn create_latency_experiment(id: &str, path_prefix: &str, delay_ms: u64) -> Experiment {
    Experiment {
        id: id.to_string(),
        enabled: true,
        description: "Test latency".to_string(),
        targeting: Targeting {
            paths: vec![PathMatcher::Prefix {
                prefix: path_prefix.to_string(),
            }],
            methods: vec![],
            headers: vec![],
            percentage: 100,
        },
        fault: Fault::Latency {
            fixed_ms: delay_ms,
            min_ms: 0,
            max_ms: 0,
        },
    }
}

fn create_error_experiment(id: &str, path_prefix: &str, status: u16) -> Experiment {
    Experiment {
        id: id.to_string(),
        enabled: true,
        description: "Test error".to_string(),
        targeting: Targeting {
            paths: vec![PathMatcher::Prefix {
                prefix: path_prefix.to_string(),
            }],
            methods: vec![],
            headers: vec![],
            percentage: 100,
        },
        fault: Fault::Error {
            status,
            message: Some("Test error".to_string()),
            headers: vec![],
        },
    }
}

#[test]
fn test_agent_initialization() {
    let config = create_test_config(vec![
        create_latency_experiment("exp1", "/api/", 100),
        create_error_experiment("exp2", "/test/", 500),
    ]);

    let agent = ChaosAgent::new(config);
    assert_eq!(agent.experiment_count(), 2);
}

#[test]
fn test_flatten_headers() {
    let headers = vec![
        (
            "Content-Type".to_string(),
            vec!["application/json".to_string()],
        ),
        (
            "X-Test".to_string(),
            vec!["value1".to_string(), "value2".to_string()],
        ),
    ];

    let flat = flatten_headers(&headers);
    let lookup = |name: &str| {
        flat.iter()
            .find(|(k, _)| k == name)
            .map(|(_, v)| v.as_str())
    };
    assert_eq!(lookup("content-type"), Some("application/json"));
    assert_eq!(lookup("x-test"), Some("value1"));
}

#[test]
fn test_find_matching_experiments() {
    let config = create_test_config(vec![
        create_latency_experiment("api-latency", "/api/", 100),
        create_error_experiment("test-error", "/test/", 500),
    ]);

    let agent = ChaosAgent::new(config);
    let headers = Vec::new();

    // Should match api-latency
    let matches = agent.find_matching_experiments("GET", "/api/users", &headers);
    assert_eq!(matches.len(), 1);
    assert_eq!(agent.experiment_id(matches[0]), "api-latency");

    // Should match test-error
    let matches = agent.find_matching_experiments("POST", "/test/data", &headers);
    assert_eq!(matches.len(), 1);
    assert_eq!(agent.experiment_id(matches[0]), "test-error");

    // Should not match anything
    let matches = agent.find_matching_experiments("GET", "/other/path", &headers);
    assert!(matches.is_empty());
}

#[test]
fn test_excluded_path() {
    let config = create_test_config(vec![create_latency_experiment("all", "/", 100)]);
    let excluded = config.safety.excluded_paths.clone();
    let _agent = ChaosAgent::new(config);

    // Health path should be excluded
    assert!(is_excluded_path("/health", &excluded));

    // Other paths should not be excluded
    assert!(!is_excluded_path("/api/test", &excluded));
}

#[test]
fn test_draining_flag() {
    let config = create_test_config(vec![]);
    let mut agent = ChaosAgent::new(config);

    assert!(!agent.is_draining());
    agent.set_draining();
    assert!(agent.is_draining());
}

#[test]
fn test_second_experiment_fires_when_first_roll_fails() {
    // Two enabled experiments match the request. A deterministic double
    // fails the first percentage roll and passes the second: the second
    // experiment's fault fires and only its counter increments.
    let mut exp_a = create_latency_experiment("a", "/api/", 100);
    exp_a.targeting.percentage = 50;
    let mut exp_b = create_error_experiment("b", "/api/", 503);
    exp_b.targeting.percentage = 50;
    let config = create_test_config(vec![exp_a, exp_b]);

    let mut agent = ChaosAgent::new(config);
    // First roll 99 (>= 50): a loses. Second roll 0 (< 50): b wins.
    let mut rng = FixedRolls::new(vec![99, 0]);
    let mut clock = SystemClock;
    let ev = agent.evaluate("GET", "/api/users", &Vec::new(), &mut rng, &mut clock);

    assert_eq!(ev.applied.as_deref(), Some("b"));
    match ev.result {
        FaultResult::Block(b) => assert_eq!(b.status, 503),
        _ => panic!("the second experiment's error fault must block"),
    }
    assert_eq!(agent.get_injection_count("a"), 0);
    assert_eq!(agent.get_injection_count("b"), 1);
    assert_eq!(agent.total_faults_injected(), 1);
    assert_eq!(agent.total_requests(), 1);
}

#[test]
fn test_drain_suppresses_faults() {
    // Once the drain flag is set, no evaluation blocks or bumps the
    // fault counters, even for requests that would otherwise match.
    let config = create_test_config(vec![create_error_experiment("e", "/api/", 500)]);
    let mut agent = ChaosAgent::new(config);
    agent.set_draining();

    let mut rng = ThreadRandom;
    let mut clock = SystemClock;
    for _ in 0..50 {
        let ev = agent.evaluate("GET", "/api/users", &Vec::new(), &mut rng, &mut clock);
        assert!(matches!(ev.result, FaultResult::Allow { delay: None }));
        assert!(ev.applied.is_none());
        assert_eq!(ev.wait_ms, 0);
    }
    assert_eq!(agent.total_faults_injected(), 0);
    assert_eq!(agent.get_injection_count("e"), 0);
    assert_eq!(agent.total_requests(), 50);
}

#[test]
fn test_kill_switch_suppresses_faults() {
    let mut config = create_test_config(vec![create_error_experiment("e2", "/api/", 500)]);
    config.settings.enabled = false;
    let mut agent = ChaosAgent::new(config);

    let mut rng = ThreadRandom;
    let mut clock = SystemClock;
    let ev = agent.evaluate("GET", "/api/users", &Vec::new(), &mut rng, &mut clock);
    assert!(matches!(ev.result, FaultResult::Allow { delay: None }));
    assert_eq!(agent.total_faults_injected(), 0);
    assert_eq!(agent.total_requests(), 1);
}

#[test]
fn test_excluded_path_passes_through() {
    let config = create_test_config(vec![create_error_experiment("e3", "/", 500)]);
    let mut agent = ChaosAgent::new(config);

    let mut rng = ThreadRandom;
    let mut clock = SystemClock;
    let ev = agent.evaluate("GET", "/health", &Vec::new(), &mut rng, &mut clock);
    assert!(matches!(ev.result, FaultResult::Allow { delay: None }));
    let ev = agent.evaluate("GET", "/health/live", &Vec::new(), &mut rng, &mut clock);
    assert!(matches!(ev.result, FaultResult::Allow { delay: None }));
    assert_eq!(agent.total_faults_injected(), 0);
}

#[test]
fn test_latency_evaluation_plan() {
    // A matching latency fault: the evaluation allows the request and
    // carries the wait the host must perform; in dry-run mode the same
    // delay is reported but nothing waits.
    let config = create_test_config(vec![create_latency_experiment("lat", "/api/", 100)]);
    let mut agent = ChaosAgent::new(config);
    let mut rng = ThreadRandom;
    let mut clock = SystemClock;
    let ev = agent.evaluate("GET", "/api/x", &Vec::new(), &mut rng, &mut clock);
    assert!(matches!(ev.result, FaultResult::Allow { delay: Some(100) }));
    assert_eq!(ev.wait_ms, 100);
    assert_eq!(ev.applied.as_deref(), Some("lat"));

    let mut config = create_test_config(vec![create_latency_experiment("lat2", "/api/", 100)]);
    config.settings.dry_run = true;
    let mut agent = ChaosAgent::new(config);
    let ev = agent.evaluate("GET", "/api/x", &Vec::new(), &mut rng, &mut clock);
    assert!(matches!(ev.result, FaultResult::Allow { delay: Some(100) }));
    assert_eq!(ev.wait_ms, 0);
}

#[test]
fn test_error_dry_run_evaluation() {
    let mut config = create_test_config(vec![create_error_experiment("ed", "/api/", 503)]);
    config.settings.dry_run = true;
    let mut agent = ChaosAgent::new(config);
    let mut rng = ThreadRandom;
    let mut clock = SystemClock;
    let ev = agent.evaluate("GET", "/api/x", &Vec::new(), &mut rng, &mut clock);
    // The fault was selected (and counted) but, being a dry run, not applied.
    assert!(matches!(ev.result, FaultResult::Allow { delay: None }));
    assert_eq!(ev.applied.as_deref(), Some("ed"));
    assert_eq!(agent.total_faults_injected(), 1);
}

#[test]
fn test_header_targeted_evaluation() {
    let mut exp = create_error_experiment("hdr", "/", 500);
    exp.targeting.paths = vec![];
    exp.targeting.headers = vec![("x-chaos-latency".to_string(), "true".to_string())];
    let config = create_test_config(vec![exp]);
    let mut agent = ChaosAgent::new(config);
    let mut rng = ThreadRandom;
    let mut clock = SystemClock;

    let ev = agent.evaluate("GET", "/api/x", &Vec::new(), &mut rng, &mut clock);
    assert!(ev.applied.is_none());

    let headers = vec![(
        "X-Chaos-Latency".to_string(),
        vec!["true".to_string()],
    )];
    let ev = agent.evaluate("GET", "/api/x", &headers, &mut rng, &mut clock);
    assert_eq!(ev.applied.as_deref(), Some("hdr"));
}

#[test]
fn test_disabled_experiment_not_selected() {
    let mut exp = create_error_experiment("off", "/api/", 500);
    exp.enabled = false;
    let config = create_test_config(vec![exp]);
    let mut agent = ChaosAgent::new(config);
    let mut rng = ThreadRandom;
    let mut clock = SystemClock;
    let ev = agent.evaluate("GET", "/api/x", &Vec::new(), &mut rng, &mut clock);
    assert!(ev.applied.is_none());
    assert_eq!(agent.total_faults_injected(), 0);
}

#[test]
fn test_injection_counts_per_experiment() {
    let config = create_test_config(vec![
        create_error_experiment("first", "/api/", 500),
        create_error_experiment("second", "/other/", 500),
    ]);
    let mut agent = ChaosAgent::new(config);
    let mut rng = ThreadRandom;
    let mut clock = SystemClock;

    for _ in 0..3 {
        agent.evaluate("GET", "/api/x", &Vec::new(), &mut rng, &mut clock);
    }
    agent.evaluate("GET", "/other/x", &Vec::new(), &mut rng, &mut clock);

    assert_eq!(agent.get_injection_count("first"), 3);
    assert_eq!(agent.get_injection_count("second"), 1);
    assert_eq!(agent.get_injection_count("unknown"), 0);
    assert_eq!(agent.total_faults_injected(), 4);
    assert_eq!(agent.total_requests(), 4);
}

#[test]
fn test_health_state_reports_draining() {
    let config = create_test_config(vec![]);
    let mut agent = ChaosAgent::new(config);
    assert_eq!(agent.health_state(), HealthState::Healthy);
    agent.set_draining();
    assert_eq!(agent.health_state(), HealthState::Degraded);
}

#[test]
fn test_metrics_snapshot() {
    let mut off = create_error_experiment("m-off", "/x/", 500);
    off.enabled = false;
    let config = create_test_config(vec![
        create_error_experiment("m-on", "/api/", 500),
        off,
    ]);
    let mut agent = ChaosAgent::new(config);
    let mut rng = ThreadRandom;
    let mut clock = SystemClock;
    agent.evaluate("GET", "/api/x", &Vec::new(), &mut rng, &mut clock);

    let snap = agent.metrics_snapshot();
    assert_eq!(snap.requests_total, 1);
    assert_eq!(snap.faults_injected_total, 1);
    assert_eq!(snap.experiments_enabled, 1);
    assert!(snap.agent_enabled);
    assert!(!snap.agent_draining);
    assert_eq!(
        snap.experiment_injections,
        vec![("m-on".to_string(), 1), ("m-off".to_string(), 0)]
    );
}

#[test]
fn test_check_schedule_window() {
    let schedule = Schedule {
        days: vec![Weekday::Mon, Weekday::Tue, Weekday::Wed],
        start: TimeOfDay {
            hour: 9,
            minute: 0,
            second: 0,
        },
        end: TimeOfDay {
            hour: 17,
            minute: 0,
            second: 0,
        },
        timezone: "UTC".to_string(),
    };

    let noon = TimeOfDay {
        hour: 12,
        minute: 0,
        second: 0,
    };
    let night = TimeOfDay {
        hour: 20,
        minute: 0,
        second: 0,
    };
    assert!(check_schedule(&schedule, Weekday::Mon, noon));
    // The bounds are inclusive.
    assert!(check_schedule(&schedule, Weekday::Tue, schedule.start));
    assert!(check_schedule(&schedule, Weekday::Tue, schedule.end));
    assert!(!check_schedule(&schedule, Weekday::Mon, night));
    assert!(!check_schedule(&schedule, Weekday::Sun, noon));
}

#[test]
fn test_schedule_gate_in_evaluation() {
    let mut config = create_test_config(vec![create_error_experiment("sch", "/api/", 500)]);
    config.safety.schedule = vec![Schedule {
        days: vec![Weekday::Mon],
        start: TimeOfDay {
            hour: 9,
            minute: 0,
            second: 0,
        },
        end: TimeOfDay {
            hour: 17,
            minute: 0,
            second: 0,
        },
        timezone: "UTC".to_string(),
    }];
    let mut agent = ChaosAgent::new(config);
    let mut rng = ThreadRandom;

    // Inside the window: the fault fires.
    let mut clock = FixedClock {
        day: Weekday::Mon,
        time: TimeOfDay {
            hour: 10,
            minute: 30,
            second: 0,
        },
    };
    let ev = agent.evaluate("GET", "/api/x", &Vec::new(), &mut rng, &mut clock);
    assert_eq!(ev.applied.as_deref(), Some("sch"));

    // Outside the window (wrong day): pass-through.
    let mut clock = FixedClock {
        day: Weekday::Sat,
        time: TimeOfDay {
            hour: 10,
            minute: 30,
            second: 0,
        },
    };
    let ev = agent.evaluate("GET", "/api/x", &Vec::new(), &mut rng, &mut clock);
    assert!(ev.applied.is_none());
}

#[test]
fn test_empty_schedule_always_active() {
    let schedules: Vec<Schedule> = vec![];
    let mut clock = SystemClock;
    assert!(is_within_schedule(&schedules, &mut clock));
}

#[test]
fn test_new_keeps_experiment_with_invalid_regex() {
    // An experiment whose only path matcher fails to compile keeps its
    // entry: the number of compiled experiments equals the number declared.
    let mut exp = create_error_experiment("bad-re", "/", 500);
    exp.targeting.paths = vec![PathMatcher::Regex {
        regex: "[unclosed".to_string(),
    }];
    let config = create_test_config(vec![
        exp,
        create_error_experiment("good", "/api/", 500),
    ]);
    let agent = ChaosAgent::new(config);
    assert_eq!(agent.experiment_count(), 2);
}

#[test]
fn test_from_config_validates() {
    let config = create_test_config(vec![create_error_experiment("ok", "/api/", 500)]);
    assert!(ChaosAgent::from_config(config).is_ok());

    let config = create_test_config(vec![
        create_error_experiment("dup2", "/api/", 500),
        create_error_experiment("dup2", "/api/", 500),
    ]);
    assert!(ChaosAgent::from_config(config).is_err());
}
