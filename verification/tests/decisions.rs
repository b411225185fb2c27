use hyprlight::backend::detect_backend;
use hyprlight::guard::{check_existing_instances, ProcEntry};
use hyprlight::{BackendChoice, Error};

fn entry(pid: u32, name: &str, exe: &str) -> ProcEntry {
    ProcEntry { pid, name: String::from(name), exe: String::from(exe) }
}

#[test]
fn guard_detects_second_instance() {
    let procs = vec![
        entry(100, "hyprlight", "/usr/bin/hyprlight"),
        entry(200, "hyprlight", "/usr/bin/hyprlight"),
    ];
    let r = check_existing_instances(&procs, 100, "hyprlight");
    assert_eq!(r, Err(Error::AlreadyRunning));
}

#[test]
fn guard_accepts_when_only_own_pid_matches() {
    let procs = vec![
        entry(100, "hyprlight", "/usr/bin/hyprlight"),
        entry(2, "bash", "/bin/bash"),
    ];
    let r = check_existing_instances(&procs, 100, "hyprlight");
    assert_eq!(r, Ok(()));
}

#[test]
fn guard_accepts_empty_table() {
    let procs: Vec<ProcEntry> = Vec::new();
    assert_eq!(check_existing_instances(&procs, 100, "hyprlight"), Ok(()));
}

#[test]
fn guard_matches_exe_by_suffix() {
    let procs = vec![entry(300, "hyprlight", "/opt/tools/hyprlight")];
    let r = check_existing_instances(&procs, 100, "./hyprlight");
    assert_eq!(r, Ok(()));
    let r2 = check_existing_instances(&procs, 100, "hyprlight");
    assert_eq!(r2, Err(Error::AlreadyRunning));
}

#[test]
fn backend_client_absent_gives_direct_controller() {
    let procs = vec![entry(5, "swayosd-server", "/usr/bin/swayosd-server")];
    assert_eq!(detect_backend(false, &procs), BackendChoice::DirectController);
}

#[test]
fn backend_server_absent_gives_direct_controller() {
    let procs = vec![entry(2, "bash", "/bin/bash")];
    assert_eq!(detect_backend(true, &procs), BackendChoice::DirectController);
}

#[test]
fn backend_both_present_gives_osd_service() {
    let procs = vec![
        entry(2, "bash", "/bin/bash"),
        entry(5, "swayosd-server", "/usr/bin/swayosd-server"),
    ];
    assert_eq!(detect_backend(true, &procs), BackendChoice::OsdService);
}

#[test]
fn backend_requires_exact_server_name() {
    let procs = vec![entry(5, "swayosd-server-helper", "/usr/bin/swayosd-server-helper")];
    assert_eq!(detect_backend(true, &procs), BackendChoice::DirectController);
}

#[test]
fn error_messages() {
    assert_eq!(
        Error::AlreadyRunning.message(),
        "An instance of the script is already running..."
    );
    assert_eq!(
        Error::BrightnessQueryParseFailure.message(),
        "Failed to parse brightnessctl output"
    );
}
