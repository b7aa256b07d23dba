use cloud_update::error::{ErrorKind, NetworkCause, UpdateError};
use cloud_update::list::ReleaseList;
use cloud_update::query::{api_headers, read_list_reply, HttpOutcome};
use cloud_update::release::{filter_by_target, from_cloud, map_records, NetResponse, Release, ReleaseAsset, Soft};
use cloud_update::text::{i64_to_text, normalize_exe_name, str_contains};

fn soft(id: i64, binary_id: i64, name: Option<&str>, version: Option<&str>, time: Option<&str>) -> Soft {
    Soft {
        id,
        binary_id,
        name: name.map(|s| s.to_string()),
        hash: None,
        version: version.map(|s| s.to_string()),
        create_time: time.map(|s| s.to_string()),
    }
}

fn ok_list(content: Vec<Soft>) -> HttpOutcome<Vec<Soft>> {
    HttpOutcome::Response {
        status: 200,
        body: Ok(NetResponse { is_success: true, content, error_mesg: None }),
    }
}

fn list_for(url: &str) -> ReleaseList {
    let mut b = ReleaseList::configure();
    b.custom_url(url);
    b.build().unwrap()
}

#[test]
fn envelope_with_one_record_maps_to_release() {
    let reply = ok_list(vec![soft(1, 42, Some("agent"), Some("2.0.0"), Some("2024-01-01"))]);
    let releases = list_for("http://h").fetch(reply).unwrap();
    assert_eq!(releases.len(), 1);
    let r = &releases[0];
    assert_eq!(r.name, "agent");
    assert_eq!(r.version, "2.0.0");
    assert_eq!(r.date, "2024-01-01");
    assert!(r.body.is_none());
    assert_eq!(r.assets.len(), 1);
    assert_eq!(r.assets[0].name, "agent");
    assert_eq!(r.assets[0].download_url, "http://h/api/binaryfile/download?id=42");
}

#[test]
fn mapped_record_has_one_asset_with_download_url() {
    let r = from_cloud(&soft(7, 123456, Some("svc"), Some("1.2"), None), "https://api.example.com").unwrap();
    assert_eq!(r.assets.len(), 1);
    assert_eq!(r.assets[0].download_url, "https://api.example.com/api/binaryfile/download?id=123456");
    assert_eq!(r.date, "");
}

#[test]
fn record_without_name_or_version_does_not_map() {
    assert!(from_cloud(&soft(1, 2, None, Some("1"), None), "http://h").is_none());
    assert!(from_cloud(&soft(1, 2, Some("a"), None, None), "http://h").is_none());
}

#[test]
fn negative_binary_id_is_written_with_sign() {
    let r = from_cloud(&soft(1, -5, Some("a"), Some("1"), None), "http://h").unwrap();
    assert_eq!(r.assets[0].download_url, "http://h/api/binaryfile/download?id=-5");
}

#[test]
fn decimal_text_of_integers() {
    assert_eq!(i64_to_text(0), "0");
    assert_eq!(i64_to_text(42), "42");
    assert_eq!(i64_to_text(-1234), "-1234");
    assert_eq!(i64_to_text(i64::MAX), "9223372036854775807");
    assert_eq!(i64_to_text(i64::MIN), "-9223372036854775808");
}

#[test]
fn unsuccessful_envelope_is_release_not_found() {
    let reply = HttpOutcome::Response {
        status: 200,
        body: Ok(NetResponse {
            is_success: false,
            content: vec![soft(1, 42, Some("agent"), Some("2.0.0"), None)],
            error_mesg: Some("nope".to_string()),
        }),
    };
    let err = list_for("http://h").fetch(reply).err().unwrap();
    assert_eq!(err.error_kind(), ErrorKind::ReleaseNotFound);
}

#[test]
fn empty_content_is_release_not_found() {
    let err = list_for("http://h").fetch(ok_list(vec![])).err().unwrap();
    assert!(matches!(err, UpdateError::ReleaseNotFound(_)));
}

#[test]
fn server_error_on_list_is_network_failure_with_url() {
    let reply: HttpOutcome<Vec<Soft>> = HttpOutcome::Response { status: 500, body: Err("not json".to_string()) };
    let err = list_for("http://h").fetch(reply).err().unwrap();
    assert_eq!(err.error_kind(), ErrorKind::HttpStatus(500));
    match err {
        UpdateError::Network { url, cause: NetworkCause::Status(500) } => {
            assert_eq!(url, "http://h/api/soft/getlist?type=2")
        }
        _ => panic!("expected a network failure"),
    }
}

#[test]
fn transport_and_decode_failures_are_network() {
    let t: HttpOutcome<Vec<Soft>> = HttpOutcome::Transport("refused".to_string());
    let e = list_for("http://h").fetch(t).err().unwrap();
    assert_eq!(e.error_kind(), ErrorKind::Transport);
    assert!(e.is_network());
    let d: HttpOutcome<Vec<Soft>> = HttpOutcome::Response { status: 200, body: Err("bad".to_string()) };
    let e = list_for("http://h").fetch(d).err().unwrap();
    assert_eq!(e.error_kind(), ErrorKind::Decode);
}

#[test]
fn one_incomplete_record_fails_the_batch() {
    let reply = ok_list(vec![
        soft(1, 1, Some("a"), Some("1"), None),
        soft(2, 2, Some("b"), None, None),
    ]);
    let e = list_for("http://h").fetch(reply).err().unwrap();
    assert_eq!(e.error_kind(), ErrorKind::Decode);
}

#[test]
fn target_narrows_releases_in_order() {
    let mut b = ReleaseList::configure();
    b.with_url("http://h").with_target("linux").with_name("agent");
    let list = b.build().unwrap();
    let reply = ok_list(vec![
        soft(1, 1, Some("agent-linux"), Some("3"), None),
        soft(2, 2, Some("agent-windows"), Some("2"), None),
        soft(3, 3, Some("agent-linux-musl"), Some("1"), None),
    ]);
    let v = list.fetch(reply).unwrap();
    let versions: Vec<&str> = v.iter().map(|r| r.version.as_str()).collect();
    assert_eq!(versions, vec!["3", "1"]);
}

#[test]
fn no_match_for_target_is_empty_not_error() {
    let records = vec![soft(1, 1, Some("agent"), Some("1"), None)];
    let v = map_records(&records, "http://h").unwrap();
    assert_eq!(v.len(), 1);
    assert!(filter_by_target(v, "aarch64").is_empty());
    let r = read_list_reply(ok_list(vec![soft(1, 1, Some("agent"), Some("1"), None)]), "u", "http://h", Some("x86"));
    assert!(r.unwrap().is_empty());
}

#[test]
fn release_has_target_asset_by_substring() {
    let r = Release {
        name: "a".to_string(),
        version: "1".to_string(),
        date: String::new(),
        body: None,
        assets: vec![
            ReleaseAsset { name: "a-x86_64-unknown-linux-gnu".to_string(), download_url: "u".to_string() },
        ],
    };
    assert!(r.has_target_asset("x86_64-unknown-linux-gnu"));
    assert!(r.has_target_asset(""));
    assert!(!r.has_target_asset("windows"));
}

#[test]
fn substring_search() {
    assert!(str_contains("abcabd", "abd"));
    assert!(!str_contains("abcabc", "abd"));
    assert!(!str_contains("ab", "abc"));
    assert!(str_contains("", ""));
}

#[test]
fn auth_headers() {
    let h = api_headers(&None).unwrap();
    assert_eq!(h.user_agent, "rust-reqwest/self-update");
    assert!(h.authorization.is_none());
    let h = api_headers(&Some("tok".to_string())).unwrap();
    assert_eq!(h.authorization.as_deref(), Some("Bearer tok"));
    let e = api_headers(&Some("bad\ntoken".to_string())).err().unwrap();
    assert_eq!(e.error_kind(), ErrorKind::Configuration);
    assert!(api_headers(&Some("tab\tis fine, é too".to_string())).is_ok());
}

#[test]
fn list_request_url_and_default_root() {
    let q = list_for("http://h").request().unwrap();
    assert_eq!(q.url, "http://h/api/soft/getlist?type=2");
    let q = ReleaseList::configure().build().unwrap().request().unwrap();
    assert_eq!(q.url, "http://127.0.0.1/api/soft/getlist?type=2");
}

#[test]
fn exe_name_normalization() {
    assert_eq!(normalize_exe_name("agent", ".exe"), "agent.exe");
    assert_eq!(normalize_exe_name("agent.exe", ".exe"), "agent.exe");
    assert_eq!(normalize_exe_name("agent.exe.exe", ".exe"), "agent.exe");
    assert_eq!(normalize_exe_name("agent", ""), "agent");
    let once = normalize_exe_name("agent", ".exe");
    assert_eq!(normalize_exe_name(&once, ".exe"), once);
}
