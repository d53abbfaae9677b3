use djbot_sidecar::paths::join;
use djbot_sidecar::paths::ends_with_component;
use djbot_sidecar::paths::pop_component;
use djbot_sidecar::text::starts_with;
use djbot_sidecar::text::ends_with;

#[test]
fn join_inserts_separator() {
    assert_eq!(join("/data/djbot", "output"), "/data/djbot/output");
    assert_eq!(join("", "output"), "/output");
}

#[test]
fn final_component_comparison() {
    assert!(ends_with_component("/p/app/src-tauri", "src-tauri"));
    assert!(ends_with_component("/p/app", "app"));
    assert!(!ends_with_component("/p/app", "src-tauri"));
    assert!(!ends_with_component("/p/myapp", "app"));
    assert!(ends_with_component("app", "app"));
    assert!(ends_with_component("C:\\p\\app", "app"));
}

#[test]
fn popping_strips_the_final_component() {
    assert_eq!(pop_component("/p/app/src-tauri"), "/p/app");
    assert_eq!(pop_component("C:\\p\\app"), "C:\\p");
    assert_eq!(pop_component("lone"), "");
    assert_eq!(pop_component(""), "");
}

#[test]
fn prefix_and_suffix_checks() {
    assert!(starts_with("ffmpeg-v7.exe", "ffmpeg"));
    assert!(!starts_with("ff", "ffmpeg"));
    assert!(ends_with("ffmpeg-v7.exe", ".exe"));
    assert!(!ends_with("exe", ".exe"));
    assert!(starts_with("anything", ""));
    assert!(ends_with("anything", ""));
}
