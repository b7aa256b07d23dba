use cloud_update::probe::version_from_output;

#[test]
fn version_token_from_stdout() {
    assert_eq!(version_from_output(true, "CloudAgent 2.0.1-beta (build 7)\n", "").as_deref(), Some("2.0.1-beta"));
    assert_eq!(version_from_output(true, "v1.2.3\n", "").as_deref(), Some("1.2.3"));
}

#[test]
fn version_token_from_stderr_on_failure() {
    assert_eq!(version_from_output(false, "9.9.9", "agent 3.4.5").as_deref(), Some("3.4.5"));
}

#[test]
fn no_version_token_is_a_failed_probe() {
    assert!(version_from_output(true, "no version here", "").is_none());
    assert!(version_from_output(true, "7 alone", "").is_none());
    assert!(version_from_output(true, "", "").is_none());
}
