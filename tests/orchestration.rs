use cloud_update::error::{ErrorKind, UpdateError};
use cloud_update::orchestrate::{Action, Event, Phase, UpdateStatus};
use cloud_update::plan::{Host, Update, UpdateBuilder};
use cloud_update::query::HttpOutcome;
use cloud_update::release::{NetResponse, Soft};

fn host() -> Host {
    Host {
        target: "x86_64-pc-windows-msvc".to_string(),
        exe_suffix: ".exe".to_string(),
        current_exe: Some("C:\\agent\\updater.exe".to_string()),
    }
}

fn record(version: &str) -> Soft {
    Soft {
        id: 1,
        binary_id: 42,
        name: Some("agent".to_string()),
        hash: None,
        version: Some(version.to_string()),
        create_time: Some("2024-01-01".to_string()),
    }
}

fn list_reply(version: &str) -> Event {
    Event::ListReply(HttpOutcome::Response {
        status: 200,
        body: Ok(NetResponse { is_success: true, content: vec![record(version)], error_mesg: None }),
    })
}

fn builder(current: &str, ignore: bool) -> UpdateBuilder {
    let mut b = Update::configure(host());
    b.name("Agent")
        .custom_url("http://h")
        .bin_name("agent")
        .current_version(current)
        .ignore_ver_compare(ignore);
    b
}

#[test]
fn build_fills_defaults() {
    let u = builder("1.0.0", false).build().unwrap();
    assert_eq!(u.bin_name(), "agent.exe");
    assert_eq!(u.bin_path_in_archive(), "agent.exe");
    assert_eq!(u.bin_install_path(), "C:\\agent\\updater.exe");
    assert_eq!(u.target(), "x86_64-pc-windows-msvc");
    assert!(!u.idty_target_platform());
    assert_eq!(u.current_version(), "1.0.0");
    assert!(u.target_version().is_none());
    assert!(u.show_output());
    assert!(!u.show_download_progress());
    assert!(!u.no_confirm());
    assert!(!u.ignore_ver_compare());
    assert!(u.all_replce());
    assert!(u.auth_token().is_none());
    assert!(u.progress_style().is_none());
}

#[test]
fn build_fails_on_each_missing_field() {
    let mut b = Update::configure(host());
    b.bin_name("agent").current_version("1");
    assert!(matches!(b.build(), Err(UpdateError::Configuration(_))));

    let mut b = Update::configure(host());
    b.name("n").current_version("1");
    assert!(matches!(b.build(), Err(UpdateError::Configuration(_))));

    let mut b = Update::configure(host());
    b.name("n").bin_name("agent");
    assert!(matches!(b.build(), Err(UpdateError::Configuration(_))));

    let mut b = UpdateBuilder::new(Host { current_exe: None, ..host() });
    b.name("n").bin_name("agent").current_version("1");
    assert!(matches!(b.build(), Err(UpdateError::Configuration(_))));
    b.bin_install_path("/opt/agent");
    assert_eq!(b.build().unwrap().bin_install_path(), "/opt/agent");
}

#[test]
fn bin_name_keeps_explicit_archive_path() {
    let mut b = Update::configure(host());
    b.bin_path_in_archive("bin/agent.exe").bin_name("agent.exe");
    assert_eq!(b.bin_name.as_deref(), Some("agent.exe"));
    assert_eq!(b.bin_path_in_archive.as_deref(), Some("bin/agent.exe"));
}

#[test]
fn bin_name_normalization_is_idempotent() {
    let mut b = Update::configure(host());
    b.bin_name("agent");
    let once = b.bin_name.clone().unwrap();
    b.bin_name(&once);
    assert_eq!(b.bin_name.unwrap(), once);
    assert_eq!(once, "agent.exe");
}

#[test]
fn same_version_is_reported_up_to_date() {
    let u = builder("2.0.0", false).build().unwrap();
    let (phase, action) = u.step(Phase::Start, Event::Begin);
    match action {
        Action::FetchList(q) => assert_eq!(q.url, "http://h/api/soft/getlist?type=2"),
        _ => panic!("expected a list request"),
    }
    let (phase, action) = u.step(phase, list_reply("2.0.0"));
    assert!(matches!(phase, Phase::Finished));
    match action {
        Action::Report(Ok(UpdateStatus::UpToDate(v))) => assert_eq!(v, "2.0.0"),
        _ => panic!("expected an up-to-date report"),
    }
}

#[test]
fn ignored_comparison_applies_same_version() {
    let mut b = builder("2.0.0", true);
    b.before_cmd("sv stop agent").after_cmd("sv start agent");
    let u = b.build().unwrap();
    let (phase, _) = u.step(Phase::Start, Event::Begin);
    let (phase, action) = u.step(phase, list_reply("2.0.0"));
    match action {
        Action::RunHook(c) => assert_eq!(c, "sv stop agent"),
        _ => panic!("expected the before hook"),
    }
    let (phase, action) = u.step(phase, Event::HookDone { succeeded: false });
    match action {
        Action::Apply(a) => {
            assert_eq!(a.download_url, "http://h/api/binaryfile/download?id=42");
            assert_eq!(a.bin_name, "agent.exe");
            assert_eq!(a.bin_install_path, "C:\\agent\\updater.exe");
        }
        _ => panic!("expected the apply step"),
    }
    let (phase, action) = u.step(phase, Event::ApplyDone(Ok(())));
    assert!(matches!(action, Action::RunHook(ref c) if c == "sv start agent"));
    let (phase, action) = u.step(phase, Event::HookDone { succeeded: true });
    assert!(matches!(phase, Phase::Finished));
    match action {
        Action::Report(Ok(UpdateStatus::Updated(v))) => assert_eq!(v, "2.0.0"),
        _ => panic!("expected an updated report"),
    }
}

#[test]
fn newer_version_without_hooks_applies_at_once() {
    let u = builder("1.0.0", false).build().unwrap();
    let (phase, _) = u.step(Phase::Start, Event::Begin);
    let (phase, action) = u.step(phase, list_reply("2.0.0"));
    assert!(matches!(action, Action::Apply(_)));
    let (_, action) = u.step(phase, Event::ApplyDone(Ok(())));
    assert!(matches!(action, Action::Report(Ok(UpdateStatus::Updated(_)))));
}

#[test]
fn failed_apply_still_runs_after_hook_once() {
    let mut b = builder("1.0.0", false);
    b.after_cmd("sv start agent");
    let u = b.build().unwrap();
    let (phase, _) = u.step(Phase::Start, Event::Begin);
    let (phase, action) = u.step(phase, list_reply("2.0.0"));
    assert!(matches!(action, Action::Apply(_)));
    let (phase, action) = u.step(phase, Event::ApplyDone(Err("disk full".to_string())));
    assert!(matches!(action, Action::RunHook(ref c) if c == "sv start agent"));
    let (phase, action) = u.step(phase, Event::HookDone { succeeded: true });
    assert!(matches!(phase, Phase::Finished));
    match action {
        Action::Report(Err(UpdateError::Apply(m))) => assert_eq!(m, "disk full"),
        _ => panic!("expected the apply failure"),
    }
}

#[test]
fn server_error_ends_run_before_gate() {
    let u = builder("2.0.0", false).build().unwrap();
    let (phase, _) = u.step(Phase::Start, Event::Begin);
    let reply = Event::ListReply(HttpOutcome::Response { status: 500, body: Err("html".to_string()) });
    let (phase, action) = u.step(phase, reply);
    assert!(matches!(phase, Phase::Finished));
    match action {
        Action::Report(Err(e)) => {
            assert_eq!(e.error_kind(), ErrorKind::HttpStatus(500));
            match e {
                UpdateError::Network { url, .. } => assert_eq!(url, "http://h/api/soft/getlist?type=2"),
                _ => panic!("expected a network failure"),
            }
        }
        _ => panic!("expected a failure report"),
    }
}

#[test]
fn tagged_version_uses_version_endpoint() {
    let mut b = builder("1.0.0", false);
    b.target_version_tag("2.0.0").auth_token("secret");
    let u = b.build().unwrap();
    let (phase, action) = u.step(Phase::Start, Event::Begin);
    match action {
        Action::FetchVersion(q) => {
            assert_eq!(q.url, "http://h/api/soft/getver?type=2&ver=2.0.0");
            assert_eq!(q.headers.authorization.as_deref(), Some("Bearer secret"));
        }
        _ => panic!("expected a version request"),
    }
    let reply = Event::VersionReply(HttpOutcome::Response {
        status: 200,
        body: Ok(NetResponse { is_success: true, content: record("2.0.0"), error_mesg: None }),
    });
    let (_, action) = u.step(phase, reply);
    assert!(matches!(action, Action::Apply(_)));
}

#[test]
fn unsuccessful_version_envelope_is_not_found() {
    let u = builder("1.0.0", false).build().unwrap();
    let reply = HttpOutcome::Response {
        status: 200,
        body: Ok(NetResponse { is_success: false, content: record("2.0.0"), error_mesg: None }),
    };
    let e = u.get_latest_release(reply).err().unwrap();
    assert_eq!(e.error_kind(), ErrorKind::ReleaseNotFound);
    let q = u.release_request("").unwrap();
    assert_eq!(q.url, "http://h/api/soft/getver?type=2&ver=");
}

#[test]
fn get_release_version_maps_record() {
    let u = builder("1.0.0", false).build().unwrap();
    let reply = HttpOutcome::Response {
        status: 200,
        body: Ok(NetResponse { is_success: true, content: record("3.1.4"), error_mesg: None }),
    };
    let r = u.get_release_version("3.1.4", reply).unwrap();
    assert_eq!(r.version, "3.1.4");
    assert_eq!(r.assets[0].download_url, "http://h/api/binaryfile/download?id=42");
}

#[test]
fn bad_token_fails_before_any_request() {
    let mut b = builder("1.0.0", false);
    b.auth_token("line\nbreak");
    let u = b.build().unwrap();
    let (phase, action) = u.step(Phase::Start, Event::Begin);
    assert!(matches!(phase, Phase::Finished));
    assert!(matches!(action, Action::Report(Err(UpdateError::Configuration(_)))));
}

#[test]
fn target_filter_without_match_is_not_found() {
    let mut b = builder("1.0.0", false);
    b.target("aarch64");
    let u = b.build().unwrap();
    assert!(u.idty_target_platform());
    let (phase, _) = u.step(Phase::Start, Event::Begin);
    let (_, action) = u.step(phase, list_reply("2.0.0"));
    assert!(matches!(action, Action::Report(Err(UpdateError::ReleaseNotFound(_)))));
}

#[test]
fn unexpected_event_ends_run() {
    let u = builder("1.0.0", false).build().unwrap();
    let (phase, action) = u.step(Phase::Start, Event::HookDone { succeeded: true });
    assert!(matches!(phase, Phase::Finished));
    assert!(matches!(action, Action::Report(Err(UpdateError::OutOfOrder))));
    let (_, action) = u.step(Phase::Finished, Event::Begin);
    assert!(matches!(action, Action::Report(Err(UpdateError::OutOfOrder))));
}
