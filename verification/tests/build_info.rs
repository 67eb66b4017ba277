use sumi::build_info::{app_version, build_timestamp, commit_hash, summary};

#[test]
fn version_is_package_version() {
    assert_eq!(app_version(), "0.1.0");
}

#[test]
fn missing_build_values_read_unknown() {
    assert_eq!(commit_hash(None), "unknown");
    assert_eq!(build_timestamp(None), "unknown");
}

#[test]
fn embedded_build_values_are_returned() {
    assert_eq!(commit_hash(Some("abc1234")), "abc1234");
    assert_eq!(build_timestamp(Some("2024-05-01T12:00:00Z")), "2024-05-01T12:00:00Z");
}

#[test]
fn summary_lists_version_commit_build_and_config() {
    let s = summary("/home/u/sumi/config.toml", Some("abc1234"), None);
    assert_eq!(
        s,
        "sumi 0.1.0\ncommit:  abc1234\nbuilt:   unknown\nconfig:  /home/u/sumi/config.toml"
    );
    assert_eq!(s.lines().count(), 4);
}
