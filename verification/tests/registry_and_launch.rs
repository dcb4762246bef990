use browser_supervisor::command::{CommandLine, ProcessHandle};
use browser_supervisor::error::SupervisorError;
use browser_supervisor::launch::{
    async_launch_command, chrome_flags, iwa_launch_command, launch_options, record_launch,
    PostLaunch, KILL_CHROME_AFTER_LAUNCH, KILL_DELAY_SECS, REMOTE_DEBUGGING_PORT,
};
use browser_supervisor::registry::ChromeState;
use browser_supervisor::termination::{kill_command, kill_report, kill_request};
use browser_supervisor::ProcessOutput;

fn spawned(pid: u32) -> Result<ProcessHandle, String> {
    Ok(ProcessHandle { pid, args: chrome_flags("/tmp/x") })
}

const FEATURES: &str = "--enable-features=IsolatedWebApps,IsolatedWebAppDevMode,ControlledFrame,AutomaticFullscreenContentSetting,WebAppBorderless";

#[test]
fn new_state_tracks_nothing() {
    let state = ChromeState::new("/data/chrome".to_string());
    assert_eq!(state.get(), None);
    assert_eq!(state.data_dir, "/data/chrome");
    assert_eq!(state.profile_dir_text(), "/data/chrome");
}

#[test]
fn get_sees_the_last_set() {
    let mut state = ChromeState::new("/data/chrome".to_string());
    state.set(100);
    assert_eq!(state.get(), Some(100));
    state.set(200);
    assert_eq!(state.get(), Some(200));
    assert_eq!(state.data_dir, "/data/chrome");
}

#[test]
fn clear_empties_the_slot() {
    let mut state = ChromeState::new("d".to_string());
    state.set(7);
    state.clear();
    assert_eq!(state.get(), None);
    state.clear();
    assert_eq!(state.get(), None);
    state.set(0);
    assert_eq!(state.get(), Some(0));
}

#[test]
fn flags_hold_the_profile_directory() {
    let flags = chrome_flags("/tmp/x");
    assert!(flags.contains(&"--user-data-dir=/tmp/x".to_string()));
    assert_eq!(flags[0], "--user-data-dir=/tmp/x");
}

#[test]
fn flags_are_the_fixed_set_in_order() {
    let flags = chrome_flags("/home/u/My Profile");
    assert_eq!(
        flags,
        vec![
            "--user-data-dir=/home/u/My Profile".to_string(),
            "--no-first-run".to_string(),
            "--no-default-browser-check".to_string(),
            "--remote-debugging-port=9222".to_string(),
            FEATURES.to_string(),
            "--install-isolated-web-app-from-url=http://localhost:5193".to_string(),
        ]
    );
    assert_eq!(REMOTE_DEBUGGING_PORT, 9222);
}

#[test]
fn flags_with_empty_profile_directory() {
    let flags = chrome_flags("");
    assert_eq!(flags.len(), 6);
    assert_eq!(flags[0], "--user-data-dir=");
}

#[test]
fn launch_options_for_a_state() {
    let state = ChromeState::new("/tmp/x".to_string());
    let options = launch_options(&state);
    assert_eq!(options.starting_url, "https://www.userandagents.com");
    assert!(options.ignore_default_flags);
    assert_eq!(options.chrome_flags, chrome_flags("/tmp/x"));
    assert!(options.chrome_flags.contains(&"--user-data-dir=/tmp/x".to_string()));
}

#[test]
fn successful_launch_is_read_back() {
    let mut state = ChromeState::new("/tmp/x".to_string());
    let res = record_launch(&mut state, spawned(4242), KILL_CHROME_AFTER_LAUNCH);
    assert_eq!(res, Ok(PostLaunch::Leave));
    assert_eq!(state.get(), Some(4242));
}

#[test]
fn second_launch_replaces_the_first() {
    let mut state = ChromeState::new("/tmp/x".to_string());
    assert!(record_launch(&mut state, spawned(1), false).is_ok());
    assert!(record_launch(&mut state, spawned(2), false).is_ok());
    assert_eq!(state.get(), Some(2));
}

#[test]
fn failed_launch_leaves_the_registry() {
    let mut state = ChromeState::new("/tmp/x".to_string());
    let res = record_launch(&mut state, Err("Chrome path not found".to_string()), false);
    assert_eq!(res, Err(SupervisorError::SpawnFailure("Chrome path not found".to_string())));
    assert_eq!(state.get(), None);
    state.set(9);
    let res = record_launch(&mut state, Err("denied".to_string()), true);
    assert_eq!(res.unwrap_err().message(), "denied");
    assert_eq!(state.get(), Some(9));
}

#[test]
fn launch_with_forced_termination() {
    let mut state = ChromeState::new("/tmp/x".to_string());
    let res = record_launch(&mut state, spawned(31337), true);
    assert_eq!(
        res,
        Ok(PostLaunch::KillAfter {
            delay_secs: 10,
            command: CommandLine {
                program: "kill".to_string(),
                args: vec!["31337".to_string()],
                current_dir: None,
            },
        })
    );
    assert_eq!(KILL_DELAY_SECS, 10);
    assert_eq!(state.get(), Some(31337));
}

#[test]
fn policy_is_off_by_default() {
    assert!(!KILL_CHROME_AFTER_LAUNCH);
}

#[test]
fn untracked_launch_command() {
    let command = async_launch_command();
    assert_eq!(command.program, "google-chrome");
    assert_eq!(
        command.args,
        vec![
            "--no-first-run".to_string(),
            "--no-default-browser-check".to_string(),
            FEATURES.to_string(),
            "--install-isolated-web-app-from-url=http://localhost:5193".to_string(),
        ]
    );
    assert_eq!(command.current_dir, None);
}

#[test]
fn web_app_launch_command() {
    let command = iwa_launch_command();
    assert_eq!(
        command.program,
        "/Users/luke/Applications/Chrome Apps.localized/U&A IWA Test.app/Contents/MacOS/app_mode_loader"
    );
    assert_eq!(
        command.args,
        vec![format!("--remote-debugging-port=9222 {}", FEATURES)]
    );
    assert_eq!(command.current_dir, None);
}

#[test]
fn kill_with_nothing_tracked_is_not_running() {
    let state = ChromeState::new("/tmp/x".to_string());
    let res = kill_request(&state);
    assert_eq!(res, Err(SupervisorError::NotRunning));
    assert_eq!(res.unwrap_err().message(), "Chrome is not running");
}

#[test]
fn kill_signals_the_tracked_id_once() {
    let mut state = ChromeState::new("/tmp/x".to_string());
    state.set(4242);
    let command = kill_request(&state).unwrap();
    assert_eq!(command.program, "kill");
    assert_eq!(command.args, vec!["4242".to_string()]);
    assert_eq!(command.current_dir, None);
}

#[test]
fn kill_leaves_the_id_in_the_registry() {
    let mut state = ChromeState::new("/tmp/x".to_string());
    state.set(55);
    assert!(kill_request(&state).is_ok());
    assert_eq!(state.get(), Some(55));
    assert!(kill_request(&state).is_ok());
}

#[test]
fn kill_after_clear_is_not_running() {
    let mut state = ChromeState::new("/tmp/x".to_string());
    state.set(55);
    state.clear();
    assert_eq!(kill_request(&state), Err(SupervisorError::NotRunning));
}

#[test]
fn kill_command_for_extreme_ids() {
    assert_eq!(kill_command(0).args, vec!["0".to_string()]);
    assert_eq!(kill_command(u32::MAX).args, vec!["4294967295".to_string()]);
}

#[test]
fn kill_report_gives_the_captured_text() {
    let done = ProcessOutput {
        success: true,
        code: Some(0),
        stdout: b"terminated \"4242\"\n".to_vec(),
        stderr: Vec::new(),
    };
    assert_eq!(kill_report(Ok(done)), Ok("terminated \"4242\"\n".to_string()));
    let quiet = ProcessOutput { success: true, code: Some(0), stdout: Vec::new(), stderr: Vec::new() };
    assert_eq!(kill_report(Ok(quiet)), Ok(String::new()));
}

#[test]
fn kill_report_of_a_failed_command() {
    let failed = ProcessOutput {
        success: false,
        code: Some(1),
        stdout: b"ignored".to_vec(),
        stderr: b"no such process".to_vec(),
    };
    assert_eq!(kill_report(Ok(failed)), Ok("Exit with code: 1".to_string()));
    let signalled = ProcessOutput { success: false, code: None, stdout: Vec::new(), stderr: Vec::new() };
    assert_eq!(kill_report(Ok(signalled)), Ok("Exit without a code".to_string()));
}

#[test]
fn kill_command_that_could_not_run() {
    let res = kill_report(Err("kill: not found".to_string()));
    assert_eq!(res, Err(SupervisorError::SpawnFailure("kill: not found".to_string())));
    assert_eq!(res.unwrap_err().message(), "kill: not found");
}
