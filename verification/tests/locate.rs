use djbot_sidecar::locate::ProbeScan;
use djbot_sidecar::locate::select_existing;
use djbot_sidecar::locate::worker_candidates;
use djbot_sidecar::locate::resolve_worker_path;
use djbot_sidecar::locate::locate_worker;
use djbot_sidecar::locate::ffmpeg_fixed_candidates;
use djbot_sidecar::locate::imageio_binary_dirs;
use djbot_sidecar::locate::is_ffmpeg_exe_name;
use djbot_sidecar::locate::pick_ffmpeg_name;
use djbot_sidecar::locate::find_ffmpeg_from;
use djbot_sidecar::platform::Platform;
use djbot_sidecar::platform::goworker_name;
use djbot_sidecar::platform::fallback_worker_name;

#[test]
fn first_existing_candidate_wins() {
    assert_eq!(select_existing(&vec![false, true, true]), Some(1));
    assert_eq!(select_existing(&vec![true, false]), Some(0));
    assert_eq!(select_existing(&vec![false, false, false]), None);
    assert_eq!(select_existing(&vec![]), None);
}

#[test]
fn scan_stops_probing_after_a_hit() {
    let mut scan = ProbeScan::new(3);
    let mut probes = 0;
    while let Some(i) = scan.pending() {
        probes += 1;
        scan.record(i == 1);
    }
    assert_eq!(scan.result(), Some(1));
    // the third candidate was never asked for
    assert_eq!(probes, 2);
}

#[test]
fn scan_exhausts_without_a_hit() {
    let mut scan = ProbeScan::new(2);
    let mut probes = 0;
    while let Some(_) = scan.pending() {
        probes += 1;
        scan.record(false);
    }
    assert_eq!(scan.result(), None);
    assert_eq!(probes, 2);
}

#[test]
fn worker_candidate_order() {
    let v = worker_candidates("/res", "/cwd", "goworker-x86_64-unknown-linux-gnu");
    assert_eq!(
        v,
        vec![
            String::from("/res/binaries/goworker-x86_64-unknown-linux-gnu"),
            String::from("/res/goworker-x86_64-unknown-linux-gnu"),
            String::from("/cwd/backend/goworker-x86_64-unknown-linux-gnu"),
        ]
    );
}

#[test]
fn worker_falls_back_to_bare_name() {
    let v = worker_candidates("/res", "/cwd", "goworker-x86_64-unknown-linux-gnu");
    assert_eq!(locate_worker(&v, &vec![false, false, false], false), "goworker");
    assert_eq!(locate_worker(&v, &vec![false, false, false], true), "goworker.exe");
    assert_eq!(resolve_worker_path(&v, None, false), "goworker");
}

#[test]
fn worker_uses_first_existing() {
    let v = worker_candidates("/res", "/cwd", "w");
    assert_eq!(locate_worker(&v, &vec![false, true, true], false), "/res/w");
    assert_eq!(resolve_worker_path(&v, Some(2), true), "/cwd/backend/w");
}

#[test]
fn worker_names_per_platform() {
    assert_eq!(goworker_name(Platform::WindowsX64), "goworker-x86_64-pc-windows-msvc.exe");
    assert_eq!(goworker_name(Platform::MacosArm64), "goworker-aarch64-apple-darwin");
    assert_eq!(goworker_name(Platform::MacosX64), "goworker-x86_64-apple-darwin");
    assert_eq!(goworker_name(Platform::LinuxX64), "goworker-x86_64-unknown-linux-gnu");
    assert_eq!(goworker_name(Platform::Other), "goworker");
    assert_eq!(fallback_worker_name(true), "goworker.exe");
    assert_eq!(fallback_worker_name(false), "goworker");
}

#[test]
fn linux_fixed_locations() {
    let v = ffmpeg_fixed_candidates(Platform::LinuxX64, "", "", "", "");
    assert_eq!(
        v,
        vec![
            String::from("/usr/bin/ffmpeg"),
            String::from("/usr/local/bin/ffmpeg"),
            String::from("/snap/bin/ffmpeg"),
            String::from("/var/lib/flatpak/exports/bin/ffmpeg"),
            String::from("/usr/games/ffmpeg"),
        ]
    );
}

#[test]
fn macos_fixed_locations() {
    let v = ffmpeg_fixed_candidates(Platform::MacosArm64, "", "", "", "");
    assert_eq!(v[0], "/opt/homebrew/bin/ffmpeg");
    assert_eq!(v[3], "/usr/bin/ffmpeg");
    assert_eq!(v.len(), 4);
    assert_eq!(v, ffmpeg_fixed_candidates(Platform::MacosX64, "", "", "", ""));
}

#[test]
fn windows_fixed_locations() {
    let v = ffmpeg_fixed_candidates(
        Platform::WindowsX64,
        "C:/Users/u",
        "C:/Users/u/AppData/Local",
        "C:/Program Files",
        "C:/Program Files (x86)",
    );
    assert_eq!(v.len(), 11);
    assert_eq!(v[0], "C:/Users/u/scoop/apps/ffmpeg/current/bin/ffmpeg.exe");
    assert_eq!(v[2], "C:/ProgramData/chocolatey/bin/ffmpeg.exe");
    assert_eq!(v[4], "C:/Program Files/ffmpeg/bin/ffmpeg.exe");
    assert_eq!(v[6], "C:/Program Files (x86)/ffmpeg/bin/ffmpeg.exe");
    assert_eq!(
        v[10],
        "C:/Users/u/AppData/Local/Python/Python39/site-packages/imageio_ffmpeg/binaries/ffmpeg.exe"
    );
}

#[test]
fn other_platform_has_no_fixed_locations() {
    assert_eq!(ffmpeg_fixed_candidates(Platform::Other, "", "", "", ""), Vec::<String>::new());
}

#[test]
fn imageio_dirs_newest_first() {
    let v = imageio_binary_dirs("C:/Users/u/AppData/Roaming");
    assert_eq!(v.len(), 6);
    assert_eq!(
        v[0],
        "C:/Users/u/AppData/Roaming/Python/Python314/site-packages/imageio_ffmpeg/binaries"
    );
    assert_eq!(
        v[5],
        "C:/Users/u/AppData/Roaming/Python/Python39/site-packages/imageio_ffmpeg/binaries"
    );
}

#[test]
fn transcoder_filenames() {
    assert!(is_ffmpeg_exe_name("ffmpeg.exe"));
    assert!(is_ffmpeg_exe_name("ffmpeg-win64-v4.2.2.exe"));
    assert!(!is_ffmpeg_exe_name("ffmpeg"));
    assert!(!is_ffmpeg_exe_name("ffprobe.exe"));
    assert!(!is_ffmpeg_exe_name("x.exe"));
    assert!(!is_ffmpeg_exe_name(""));
}

#[test]
fn first_transcoder_in_listing() {
    let names = vec![
        String::from("readme.txt"),
        String::from("ffmpeg-win64.exe"),
        String::from("ffmpeg.exe"),
    ];
    assert_eq!(pick_ffmpeg_name(&names), Some(1));
    assert_eq!(pick_ffmpeg_name(&vec![String::from("readme.txt")]), None);
    assert_eq!(pick_ffmpeg_name(&vec![]), None);
}

#[test]
fn path_probe_wins_over_everything() {
    let fixed = vec![String::from("/usr/bin/ffmpeg")];
    let r = find_ffmpeg_from(true, &fixed, &vec![true], &vec![], &vec![]);
    assert_eq!(r.unwrap(), "ffmpeg");
}

#[test]
fn fixed_location_wins_over_scan() {
    let fixed = vec![String::from("/a/ffmpeg"), String::from("/b/ffmpeg")];
    let dirs = vec![String::from("/d")];
    let listings = vec![vec![String::from("ffmpeg.exe")]];
    let r = find_ffmpeg_from(false, &fixed, &vec![false, true], &dirs, &listings);
    assert_eq!(r.unwrap(), "/b/ffmpeg");
}

#[test]
fn scan_is_the_last_resort() {
    let dirs = vec![String::from("/d1"), String::from("/d2")];
    let listings = vec![
        vec![String::from("notes.txt")],
        vec![String::from("other.bin"), String::from("ffmpeg-v7.exe")],
    ];
    let r = find_ffmpeg_from(false, &vec![], &vec![], &dirs, &listings);
    assert_eq!(r.unwrap(), "/d2/ffmpeg-v7.exe");
}

#[test]
fn nothing_found_is_not_an_error() {
    let r = find_ffmpeg_from(false, &vec![String::from("/a")], &vec![false], &vec![], &vec![]);
    assert_eq!(r, None);
}
