use forest::precheck::{checked_tools, precheck_problems, precheck_report, ConfigStatus};

#[test]
fn precheck_collects_multiple_errors() {
    let missing = ConfigStatus::Missing { path: "/h/forest/forest.toml".to_string() };
    let problems = precheck_problems(false, true, false, &missing);
    assert_eq!(problems.len(), 3);
    let err = precheck_report(&problems).unwrap_err();
    assert!(err.contains("devcontainer command not found"));
    assert!(err.contains("gh command not found"));
    assert!(err.contains("config file"));
    assert_eq!(
        err,
        "precheck failed:\n- devcontainer command not found\n- gh command not found\n- config file /h/forest/forest.toml not found"
    );
}

#[test]
fn precheck_succeeds_with_all_requirements() {
    let problems = precheck_problems(true, true, true, &ConfigStatus::Valid);
    assert!(problems.is_empty());
    assert!(precheck_report(&problems).is_ok());
}

#[test]
fn precheck_reports_bad_config() {
    let bad = ConfigStatus::Unparsable { path: "c.toml".to_string(), detail: "oops".to_string() };
    assert_eq!(precheck_problems(true, true, true, &bad), vec!["failed to parse c.toml: oops"]);
    assert_eq!(
        precheck_problems(true, false, true, &ConfigStatus::NoConfigDir),
        vec!["git command not found", "could not determine configuration directory"]
    );
}

#[test]
fn precheck_tool_order() {
    assert_eq!(checked_tools(), vec!["devcontainer", "git", "gh"]);
}
