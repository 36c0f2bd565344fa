use chaos_engine::config::Config;
use chaos_engine::config::ConfigError;
use chaos_engine::config::Experiment;
use chaos_engine::config::Fault;
use chaos_engine::config::PathMatcher;
use chaos_engine::config::SafetyConfig;
use chaos_engine::config::Schedule;
use chaos_engine::config::Settings;
use chaos_engine::config::Targeting;
use chaos_engine::config::TimeOfDay;
use chaos_engine::config::Weekday;
use chaos_engine::config::default_percentage;
use chaos_engine::config::default_timezone;
use chaos_engine::config::default_true;
use chaos_engine::config::parse_weekday;

fn latency_experiment(id: &str, percentage: u8, fixed_ms: u64) -> Experiment {
    Experiment {
        id: id.to_string(),
        enabled: true,
        description: String::new(),
        targeting: Targeting {
            paths: vec![],
            methods: vec![],
            headers: vec![],
            percentage,
        },
        fault: Fault::Latency {
            fixed_ms,
            min_ms: 0,
            max_ms: 0,
        },
    }
}

fn config_with(experiments: Vec<Experiment>) -> Config {
    Config {
        settings: Settings::default(),
        safety: SafetyConfig::default(),
        experiments,
    }
}

#[test]
fn test_default_config() {
    let config = Config::default();
    assert!(config.settings.enabled);
    assert!(!config.settings.dry_run);
    assert!(config.experiments.is_empty());
}

#[test]
fn test_validation_fails_for_duplicate_ids() {
    let config = config_with(vec![
        latency_experiment("test", 10, 100),
        latency_experiment("test", 10, 200),
    ]);
    assert!(config.validate().is_err());
}

#[test]
fn test_validation_fails_for_invalid_percentage() {
    let config = config_with(vec![latency_experiment("test", 150, 100)]);
    assert!(config.validate().is_err());
}

#[test]
fn test_validation_fails_for_invalid_regex() {
    let mut exp = latency_experiment("test", 100, 100);
    exp.targeting.paths = vec![PathMatcher::Regex {
        regex: "[invalid".to_string(),
    }];
    let config = config_with(vec![exp]);
    assert!(config.validate().is_err());
}

#[test]
fn test_valid_config_passes() {
    let config = config_with(vec![
        latency_experiment("a", 10, 100),
        latency_experiment("b", 100, 200),
    ]);
    assert!(config.validate().is_ok());
}

#[test]
fn test_error_variants() {
    let mut config = config_with(vec![]);
    config.safety.max_affected_percent = 150;
    assert_eq!(
        config.validate(),
        Err(ConfigError::MaxAffectedPercentOutOfRange)
    );

    let mut config = config_with(vec![]);
    config.safety.schedule = vec![Schedule {
        days: vec![Weekday::Mon],
        start: TimeOfDay {
            hour: 17,
            minute: 0,
            second: 0,
        },
        end: TimeOfDay {
            hour: 9,
            minute: 0,
            second: 0,
        },
        timezone: default_timezone(),
    }];
    assert_eq!(config.validate(), Err(ConfigError::ScheduleStartNotBeforeEnd));

    let config = config_with(vec![
        latency_experiment("dup", 10, 100),
        latency_experiment("dup", 10, 100),
    ]);
    assert_eq!(config.validate(), Err(ConfigError::DuplicateExperimentId));

    let config = config_with(vec![latency_experiment("", 10, 100)]);
    assert_eq!(config.validate(), Err(ConfigError::EmptyExperimentId));

    let config = config_with(vec![latency_experiment("p", 101, 100)]);
    assert_eq!(config.validate(), Err(ConfigError::PercentageOutOfRange));

    let mut exp = latency_experiment("r", 100, 100);
    exp.targeting.paths = vec![PathMatcher::Regex {
        regex: "(unclosed".to_string(),
    }];
    let config = config_with(vec![exp]);
    assert_eq!(config.validate(), Err(ConfigError::InvalidRegex));

    let config = config_with(vec![latency_experiment("l", 100, 0)]);
    assert_eq!(config.validate(), Err(ConfigError::LatencyWithoutDuration));

    let mut exp = latency_experiment("lr", 100, 0);
    exp.fault = Fault::Latency {
        fixed_ms: 0,
        min_ms: 100,
        max_ms: 50,
    };
    let config = config_with(vec![exp]);
    assert_eq!(config.validate(), Err(ConfigError::LatencyMaxBelowMin));

    let mut exp = latency_experiment("s", 100, 100);
    exp.fault = Fault::Error {
        status: 99,
        message: None,
        headers: vec![],
    };
    let config = config_with(vec![exp]);
    assert_eq!(config.validate(), Err(ConfigError::ErrorStatusOutOfRange));

    let mut exp = latency_experiment("t", 100, 100);
    exp.fault = Fault::Timeout { duration_ms: 0 };
    let config = config_with(vec![exp]);
    assert_eq!(config.validate(), Err(ConfigError::TimeoutZeroDuration));

    let mut exp = latency_experiment("th", 100, 100);
    exp.fault = Fault::Throttle {
        bytes_per_second: 0,
    };
    let config = config_with(vec![exp]);
    assert_eq!(config.validate(), Err(ConfigError::ThrottleZeroRate));

    let mut exp = latency_experiment("c", 100, 100);
    exp.fault = Fault::Corrupt {
        probability_ppm: 1_000_001,
    };
    let config = config_with(vec![exp]);
    assert_eq!(
        config.validate(),
        Err(ConfigError::CorruptProbabilityOutOfRange)
    );
}

#[test]
fn test_fault_validate_accepts_boundaries() {
    assert!(Fault::Error {
        status: 100,
        message: None,
        headers: vec![]
    }
    .validate()
    .is_ok());
    assert!(Fault::Error {
        status: 599,
        message: None,
        headers: vec![]
    }
    .validate()
    .is_ok());
    assert!(Fault::Corrupt {
        probability_ppm: 1_000_000
    }
    .validate()
    .is_ok());
    assert!(Fault::Corrupt { probability_ppm: 0 }.validate().is_ok());
    assert!(Fault::Latency {
        fixed_ms: 0,
        min_ms: 5,
        max_ms: 5
    }
    .validate()
    .is_ok());
    assert!(Fault::Reset.validate().is_ok());
}

#[test]
fn test_parse_weekday_names() {
    assert_eq!(parse_weekday("mon"), Some(Weekday::Mon));
    assert_eq!(parse_weekday("Monday"), Some(Weekday::Mon));
    assert_eq!(parse_weekday("TUE"), Some(Weekday::Tue));
    assert_eq!(parse_weekday("wednesday"), Some(Weekday::Wed));
    assert_eq!(parse_weekday("Thu"), Some(Weekday::Thu));
    assert_eq!(parse_weekday("friday"), Some(Weekday::Fri));
    assert_eq!(parse_weekday("sat"), Some(Weekday::Sat));
    assert_eq!(parse_weekday("SUNDAY"), Some(Weekday::Sun));
    assert_eq!(parse_weekday("noday"), None);
    assert_eq!(parse_weekday(""), None);
}

#[test]
fn test_defaults() {
    assert!(default_true());
    assert_eq!(default_percentage(), 100);
    assert_eq!(default_timezone(), "UTC");

    let settings = Settings::default();
    assert!(settings.enabled);
    assert!(!settings.dry_run);
    assert!(settings.log_injections);

    let safety = SafetyConfig::default();
    assert_eq!(safety.max_affected_percent, 50);
    assert!(safety.schedule.is_empty());
    assert_eq!(
        safety.excluded_paths,
        vec![
            "/health".to_string(),
            "/ready".to_string(),
            "/metrics".to_string()
        ]
    );

    let targeting = Targeting::default();
    assert!(targeting.paths.is_empty());
    assert!(targeting.methods.is_empty());
    assert!(targeting.headers.is_empty());
    assert_eq!(targeting.percentage, 100);
}

#[test]
fn test_time_of_day_ordering() {
    let nine = TimeOfDay {
        hour: 9,
        minute: 0,
        second: 0,
    };
    let five = TimeOfDay {
        hour: 17,
        minute: 0,
        second: 0,
    };
    assert!(nine.le(&five));
    assert!(nine.lt(&five));
    assert!(!five.le(&nine));
    assert!(nine.le(&nine));
    assert!(!nine.lt(&nine));
}
