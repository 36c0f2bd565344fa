use std::collections::HashMap;

use chaos_engine::config::PathMatcher;
use chaos_engine::config::Targeting;
use chaos_engine::random::ThreadRandom;
use chaos_engine::targeting::is_excluded_path;
use chaos_engine::targeting::CompiledTargeting;

fn create_targeting(
    paths: Vec<PathMatcher>,
    methods: Vec<&str>,
    headers: HashMap<&str, &str>,
    percentage: u8,
) -> Targeting {
    Targeting {
        paths,
        methods: methods.into_iter().map(String::from).collect(),
        headers: headers
            .into_iter()
            .map(|(k, v)| (k.to_string(), v.to_string()))
            .collect(),
        percentage,
    }
}

#[test]
fn test_exact_path_matching() {
    let targeting = create_targeting(
        vec![PathMatcher::Exact {
            exact: "/api/users".to_string(),
        }],
        vec![],
        HashMap::new(),
        100,
    );
    let compiled = CompiledTargeting::new(&targeting);

    assert!(compiled.matches("GET", "/api/users", &Vec::new()));
    assert!(!compiled.matches("GET", "/api/users/123", &Vec::new()));
    assert!(!compiled.matches("GET", "/api", &Vec::new()));
}

#[test]
fn test_prefix_path_matching() {
    let targeting = create_targeting(
        vec![PathMatcher::Prefix {
            prefix: "/api/".to_string(),
        }],
        vec![],
        HashMap::new(),
        100,
    );
    let compiled = CompiledTargeting::new(&targeting);

    assert!(compiled.matches("GET", "/api/users", &Vec::new()));
    assert!(compiled.matches("GET", "/api/orders/123", &Vec::new()));
    assert!(!compiled.matches("GET", "/health", &Vec::new()));
}

#[test]
fn test_regex_path_matching() {
    let targeting = create_targeting(
        vec![PathMatcher::Regex {
            regex: r"^/api/v\d+/.*".to_string(),
        }],
        vec![],
        HashMap::new(),
        100,
    );
    let compiled = CompiledTargeting::new(&targeting);

    assert!(compiled.matches("GET", "/api/v1/users", &Vec::new()));
    assert!(compiled.matches("GET", "/api/v2/orders", &Vec::new()));
    assert!(!compiled.matches("GET", "/api/users", &Vec::new()));
}

#[test]
fn test_method_matching() {
    let targeting = create_targeting(vec![], vec!["GET", "POST"], HashMap::new(), 100);
    let compiled = CompiledTargeting::new(&targeting);

    assert!(compiled.matches("GET", "/test", &Vec::new()));
    assert!(compiled.matches("POST", "/test", &Vec::new()));
    assert!(compiled.matches("get", "/test", &Vec::new())); // Case insensitive
    assert!(!compiled.matches("DELETE", "/test", &Vec::new()));
}

#[test]
fn test_header_matching() {
    let targeting = create_targeting(
        vec![],
        vec![],
        HashMap::from([("x-chaos-enabled", "true")]),
        100,
    );
    let compiled = CompiledTargeting::new(&targeting);

    let headers = vec![("x-chaos-enabled".to_string(), "true".to_string())];
    assert!(compiled.matches("GET", "/test", &headers));

    let headers = vec![("x-chaos-enabled".to_string(), "false".to_string())];
    assert!(!compiled.matches("GET", "/test", &headers));

    let empty_headers = Vec::new();
    assert!(!compiled.matches("GET", "/test", &empty_headers));
}

#[test]
fn test_header_matching_case_insensitive() {
    let targeting = create_targeting(
        vec![],
        vec![],
        HashMap::from([("X-Chaos-Enabled", "true")]),
        100,
    );
    let compiled = CompiledTargeting::new(&targeting);

    let headers = vec![("x-chaos-enabled".to_string(), "true".to_string())];
    assert!(compiled.matches("GET", "/test", &headers));
}

#[test]
fn test_combined_matching() {
    let targeting = create_targeting(
        vec![PathMatcher::Prefix {
            prefix: "/api/".to_string(),
        }],
        vec!["POST"],
        HashMap::from([("x-test", "yes")]),
        100,
    );
    let compiled = CompiledTargeting::new(&targeting);

    let headers = vec![("x-test".to_string(), "yes".to_string())];

    // All conditions match
    assert!(compiled.matches("POST", "/api/users", &headers));

    // Wrong method
    assert!(!compiled.matches("GET", "/api/users", &headers));

    // Wrong path
    assert!(!compiled.matches("POST", "/health", &headers));

    // Missing header
    assert!(!compiled.matches("POST", "/api/users", &Vec::new()));
}

#[test]
fn test_empty_targeting_matches_all() {
    let targeting = create_targeting(vec![], vec![], HashMap::new(), 100);
    let compiled = CompiledTargeting::new(&targeting);

    assert!(compiled.matches("GET", "/anything", &Vec::new()));
    assert!(compiled.matches("POST", "/whatever", &Vec::new()));
}

#[test]
fn test_percentage_zero_never_applies() {
    let targeting = create_targeting(vec![], vec![], HashMap::new(), 0);
    let compiled = CompiledTargeting::new(&targeting);

    // Run multiple times to ensure it never applies
    let mut rng = ThreadRandom;
    for _ in 0..100 {
        assert!(!compiled.should_apply(&mut rng));
    }
}

#[test]
fn test_percentage_100_always_applies() {
    let targeting = create_targeting(vec![], vec![], HashMap::new(), 100);
    let compiled = CompiledTargeting::new(&targeting);

    // Run multiple times to ensure it always applies
    let mut rng = ThreadRandom;
    for _ in 0..100 {
        assert!(compiled.should_apply(&mut rng));
    }
}

#[test]
fn test_excluded_paths() {
    let excluded = vec!["/health".to_string(), "/ready".to_string()];

    assert!(is_excluded_path("/health", &excluded));
    assert!(is_excluded_path("/health/live", &excluded));
    assert!(is_excluded_path("/ready", &excluded));
    assert!(!is_excluded_path("/api/users", &excluded));
    assert!(!is_excluded_path("/healthy", &excluded));
}

#[test]
fn test_excluded_child_but_not_sibling() {
    let excluded = vec!["/health".to_string()];

    assert!(is_excluded_path("/health/live", &excluded));
    assert!(!is_excluded_path("/healthy", &excluded));
}

#[test]
fn test_path_matcher_value() {
    let exact = PathMatcher::Exact {
        exact: "/a".to_string(),
    };
    let prefix = PathMatcher::Prefix {
        prefix: "/b/".to_string(),
    };
    let regex = PathMatcher::Regex {
        regex: "^/c".to_string(),
    };
    assert_eq!(exact.value(), "/a");
    assert_eq!(prefix.value(), "/b/");
    assert_eq!(regex.value(), "^/c");
}

#[test]
fn test_invalid_regex_matcher_is_dropped() {
    // A regex that fails to compile is silently dropped from the compiled
    // list; the remaining matchers still apply.
    let targeting = create_targeting(
        vec![
            PathMatcher::Regex {
                regex: "[invalid".to_string(),
            },
            PathMatcher::Exact {
                exact: "/keep".to_string(),
            },
        ],
        vec![],
        HashMap::new(),
        100,
    );
    let compiled = CompiledTargeting::new(&targeting);

    assert!(compiled.matches("GET", "/keep", &Vec::new()));
    assert!(!compiled.matches("GET", "/other", &Vec::new()));
}
