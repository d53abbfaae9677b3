use djbot_sidecar::runtime::RuntimeState;
use djbot_sidecar::runtime::choose_data_dir;
use djbot_sidecar::runtime::project_root;
use djbot_sidecar::runtime::worker_args;

#[test]
fn port_query_fails_until_announced_then_stays() {
    let mut s = RuntimeState::new();
    assert_eq!(s.get_worker_port().unwrap_err(), "Worker not ready yet");
    s.process_line("starting up");
    assert_eq!(s.get_worker_port().unwrap_err(), "Worker not ready yet");
    s.process_line("PORT:5173");
    assert_eq!(s.get_worker_port().unwrap(), 5173);
    s.process_line("some diagnostic chatter");
    s.process_line("another line");
    assert_eq!(s.get_worker_port().unwrap(), 5173);
}

#[test]
fn last_announcement_wins() {
    let mut s = RuntimeState::new();
    let lines = vec![String::from("PORT:5173"), String::from("PORT:9999")];
    s.process_lines(&lines);
    assert_eq!(s.get_worker_port().unwrap(), 9999);
}

#[test]
fn malformed_lines_change_nothing() {
    let mut s = RuntimeState::new();
    s.process_line("PORT:5173");
    s.process_line("PORTAL:abc");
    s.process_line("PORT:abc");
    assert_eq!(s.get_worker_port().unwrap(), 5173);
}

#[test]
fn chatter_alone_never_readies_the_port() {
    let mut s = RuntimeState::new();
    let lines = vec![
        String::from("starting"),
        String::from("listening soon"),
        String::from("PORT:"),
    ];
    s.process_lines(&lines);
    assert_eq!(s.get_worker_port().unwrap_err(), "Worker not ready yet");
    assert_eq!(s.get_worker_port().unwrap_err(), "Worker not ready yet");
}

#[test]
fn output_dir_is_data_dir_child() {
    let mut s = RuntimeState::new();
    s.set_data_dir(String::from("/data/djbot"));
    assert_eq!(s.output_dir("/cwd"), "/data/djbot/output");
}

#[test]
fn output_dir_is_idempotent() {
    let mut s = RuntimeState::new();
    s.set_data_dir(String::from("/data/djbot"));
    let first = s.output_dir("/cwd");
    let second = s.output_dir("/cwd");
    assert_eq!(first, second);
}

#[test]
fn output_dir_falls_back_to_cwd() {
    let s = RuntimeState::new();
    assert_eq!(s.output_dir("/somewhere"), "/somewhere/output");
}

#[test]
fn publishing_keeps_data_dir() {
    let mut s = RuntimeState::new();
    s.set_data_dir(String::from("/d"));
    s.publish_port(8080);
    assert_eq!(s.get_worker_port().unwrap(), 8080);
    assert_eq!(s.output_dir("/cwd"), "/d/output");
}

#[test]
fn args_with_transcoder() {
    let t = Some(String::from("/usr/bin/ffmpeg"));
    let v = worker_args(&t, "/data/djbot");
    assert_eq!(
        v,
        vec![
            String::from("--transcoder-path"),
            String::from("/usr/bin/ffmpeg"),
            String::from("--data-dir"),
            String::from("/data/djbot"),
        ]
    );
}

#[test]
fn args_without_transcoder() {
    let v = worker_args(&None, "/data/djbot");
    assert_eq!(v, vec![String::from("--data-dir"), String::from("/data/djbot")]);
}

#[test]
fn project_root_walks_out_of_known_subdirs() {
    assert_eq!(project_root("/home/u/proj/app/src-tauri"), "/home/u/proj");
    assert_eq!(project_root("/home/u/proj/app"), "/home/u/proj");
    assert_eq!(project_root("/home/u/proj"), "/home/u/proj");
}

#[test]
fn project_root_stops_at_empty() {
    assert_eq!(project_root("app"), "");
    assert_eq!(project_root(""), "");
}

#[test]
fn data_dir_choice() {
    assert_eq!(choose_data_dir(true, "/p/app/src-tauri", None), "/p");
    assert_eq!(choose_data_dir(false, "/cwd", Some("/appdata/djbot")), "/appdata/djbot");
    assert_eq!(choose_data_dir(false, "/cwd", None), "/cwd");
}
