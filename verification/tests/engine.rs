use honeybee::engine::{build_plan, is_fatal, Phase, RegenError};
use honeybee::registry::get_resource;
use honeybee::Resource;

fn rows(texts: &[&str]) -> Vec<String> {
    texts.iter().map(|t| t.to_string()).collect()
}

#[test]
fn plan_targets_exactly_the_named_resource() {
    let res = get_resource("incident").unwrap();
    let plan = build_plan(&res, &rows(&["{\"x\":1}"]));
    assert_eq!(plan.file_name, "incident");
    assert_eq!(plan.content, "[\n{\"x\":1}\n]\n");
    assert_eq!(plan.row_count, 1);
}

#[test]
fn plan_for_zero_rows_is_still_a_valid_array() {
    let res = get_resource("sign_config").unwrap();
    let plan = build_plan(&res, &rows(&[]));
    assert_eq!(plan.file_name, "sign_config");
    assert_eq!(plan.content, "[]\n");
    assert_eq!(plan.row_count, 0);
}

#[test]
fn regeneration_result_reports_name_and_count() {
    let res = Resource::new("camera_pub", "SELECT 1");
    let plan = build_plan(&res, &rows(&["{\"a\":1}", "{\"a\":2}"]));
    let outcome = plan.result();
    assert_eq!(outcome.resource, "camera_pub");
    assert_eq!(outcome.row_count, 2);
}

#[test]
fn unknown_payload_produces_no_plan() {
    assert!(get_resource("no_such_resource").is_none());
}

#[test]
fn connection_failure_is_always_fatal() {
    assert!(is_fatal(Phase::Bootstrap, RegenError::ConnectionError));
    assert!(is_fatal(Phase::Live, RegenError::ConnectionError));
}

#[test]
fn unknown_resource_never_stops_the_loop() {
    assert!(!is_fatal(Phase::Bootstrap, RegenError::UnknownResource));
    assert!(!is_fatal(Phase::Live, RegenError::UnknownResource));
}

#[test]
fn bootstrap_failures_abort_startup() {
    assert!(is_fatal(Phase::Bootstrap, RegenError::QueryError));
    assert!(is_fatal(Phase::Bootstrap, RegenError::IoError));
}

#[test]
fn live_regeneration_failures_are_isolated() {
    assert!(!is_fatal(Phase::Live, RegenError::QueryError));
    assert!(!is_fatal(Phase::Live, RegenError::IoError));
}
