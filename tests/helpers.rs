use watest::apps::{app_name_from_id, app_url, build_clean_test_app_dir, get_random_app_name, hello_world_app_yaml};
use watest::command::{command_line, publish_accepted};
use watest::endpoint::{edge_server_url, with_default_scheme, EndpointError};
use watest::rollout::{rollout_step, serves_version, wait_expired, RolloutStep, ROLLOUT_BUDGET_SECS};
use watest::text::{contains_text, has_prefix};

#[test]
fn prefix_and_containment() {
    assert!(has_prefix("https://x", "http"));
    assert!(has_prefix("abc", ""));
    assert!(!has_prefix("htt", "http"));
    assert!(!has_prefix("edge:80", "http"));
    assert!(contains_text("error: version already exists!", "already exists"));
    assert!(contains_text("abc", "abc"));
    assert!(contains_text("abc", ""));
    assert!(!contains_text("ab", "abc"));
    assert!(!contains_text("already exist", "already exists"));
    assert!(contains_text("ääb", "äb"));
}

#[test]
fn default_scheme_is_added() {
    assert_eq!(with_default_scheme("edge.local:8080"), "http://edge.local:8080");
    assert_eq!(with_default_scheme("127.0.0.1"), "http://127.0.0.1");
    assert_eq!(with_default_scheme("https://edge.example"), "https://edge.example");
    assert_eq!(with_default_scheme("http://edge.example"), "http://edge.example");
    assert_eq!(with_default_scheme(""), "http://");
}

#[test]
fn edge_server_url_parses() {
    let u = edge_server_url("edge.local:8080").unwrap();
    assert_eq!(u.as_str(), "http://edge.local:8080/");
    let u = edge_server_url("https://edge.example/base").unwrap();
    assert_eq!(u.as_str(), "https://edge.example/base");
    assert_eq!(u.host_str(), Some("edge.example"));
}

#[test]
fn edge_server_url_rejects_bad_address() {
    assert_eq!(edge_server_url("http://[::1").unwrap_err(), EndpointError::InvalidUrl);
    assert_eq!(edge_server_url("").unwrap_err(), EndpointError::InvalidUrl);
}

#[test]
fn app_names_from_identifiers() {
    assert_eq!(app_name_from_id("67e55044-10b1-426f-9247-bb680e5fe0c8"), "7e55044-10b1-426f-9247-b");
}

#[test]
fn random_app_names() {
    let a = get_random_app_name();
    let b = get_random_app_name();
    assert_eq!(a.len(), 24);
    assert_eq!(b.len(), 24);
    assert_ne!(a, b);
    for (i, c) in a.chars().enumerate() {
        if i == 7 || i == 12 || i == 17 || i == 22 {
            assert_eq!(c, '-');
        } else {
            assert!(c.is_ascii_digit() || ('a'..='f').contains(&c));
        }
    }
}

#[test]
fn test_app_dirs() {
    assert_eq!(build_clean_test_app_dir("/tmp/wasmer-tests/apps", "hello"), "/tmp/wasmer-tests/apps/hello");
    assert_eq!(build_clean_test_app_dir("/tmp/wasmer-tests/apps", "/x"), "/x");
    assert_eq!(build_clean_test_app_dir("/tmp/apps/", "y"), "/tmp/apps/y");
    assert_eq!(build_clean_test_app_dir("", "y"), "y");
    let longest = "a".repeat(50);
    assert_eq!(build_clean_test_app_dir("r", &longest), format!("r/{longest}"));
}

#[test]
fn app_addresses_and_manifests() {
    assert_eq!(app_url("foo", "wasmer.dev"), "https://foo-wasmer-integration-tests.wasmer.dev");
    assert_eq!(
        hello_world_app_yaml("foo"),
        "\nkind: wasmer.io/App.v0\nname: foo\nowner: wasmer-integration-tests\npackage: wasmer-integration-tests/hello-world\n    "
    );
}

#[test]
fn command_lines() {
    let args = vec!["publish".to_string(), "--registry".to_string(), "https://r/graphql".to_string()];
    assert_eq!(command_line("wasmer", &args), "wasmer publish --registry https://r/graphql");
    assert_eq!(command_line("tar", &Vec::new()), "tar ");
    assert_eq!(command_line("wasmer", &vec!["run".to_string()]), "wasmer run");
}

#[test]
fn publish_outcomes() {
    assert!(publish_accepted(true, ""));
    assert!(publish_accepted(false, "error: package version already exists"));
    assert!(publish_accepted(false, "Could not create package: conflict"));
    assert!(!publish_accepted(false, "network unreachable"));
    assert!(!publish_accepted(false, ""));
}

#[test]
fn rollout_checks() {
    assert!(serves_version(true, Some("v42"), "v42"));
    assert!(!serves_version(true, Some("v41"), "v42"));
    assert!(!serves_version(false, Some("v42"), "v42"));
    assert!(!serves_version(true, None, "v42"));
    assert!(!serves_version(true, Some("v4"), "v42"));
    assert!(wait_expired(241, 240));
    assert!(!wait_expired(240, 240));
}

#[test]
fn rollout_steps() {
    assert_eq!(rollout_step(0, ROLLOUT_BUDGET_SECS, None, "v2"), RolloutStep::Probe);
    assert_eq!(rollout_step(240, 240, None, "v2"), RolloutStep::Probe);
    assert_eq!(rollout_step(241, 240, None, "v2"), RolloutStep::Expired);
    assert_eq!(rollout_step(10, 240, Some((true, Some("v2"))), "v2"), RolloutStep::Serving);
    assert_eq!(rollout_step(500, 240, Some((true, Some("v2"))), "v2"), RolloutStep::Serving);
    assert_eq!(rollout_step(10, 240, Some((true, Some("v1"))), "v2"), RolloutStep::Pause);
    assert_eq!(rollout_step(10, 240, Some((false, Some("v2"))), "v2"), RolloutStep::Pause);
    assert_eq!(rollout_step(10, 240, Some((true, None)), "v2"), RolloutStep::Pause);
}
