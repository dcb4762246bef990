use browser_supervisor::command::{CommandLine, ProcessOutput};
use browser_supervisor::error::SupervisorError;
use browser_supervisor::repository::clone_report;
use browser_supervisor::sidecar::{
    dev_command, dev_started, install_command, install_result, outcome_report, report_exit,
    run_report, version_command, version_report,
};
use browser_supervisor::text::{greet, pid_text, push_decimal, push_exit_code};
use browser_supervisor::update::UpdateFault;

fn finished(success: bool, code: i32, stdout: &[u8], stderr: &[u8]) -> ProcessOutput {
    ProcessOutput { success, code: Some(code), stdout: stdout.to_vec(), stderr: stderr.to_vec() }
}

#[test]
fn decimal_of_process_ids() {
    assert_eq!(pid_text(0), "0");
    assert_eq!(pid_text(7), "7");
    assert_eq!(pid_text(10), "10");
    assert_eq!(pid_text(909), "909");
    assert_eq!(pid_text(1234567890), "1234567890");
    assert_eq!(pid_text(u32::MAX), "4294967295");
}

#[test]
fn decimal_agrees_with_display() {
    let mut n: u32 = 1;
    for _ in 0..40 {
        assert_eq!(pid_text(n), n.to_string());
        assert_eq!(pid_text(n - 1), (n - 1).to_string());
        n = n.wrapping_mul(7).wrapping_add(3);
    }
}

#[test]
fn push_decimal_appends() {
    let mut out = "pid=".to_string();
    push_decimal(&mut out, 120);
    assert_eq!(out, "pid=120");
}

#[test]
fn exit_codes_in_decimal() {
    let mut out = String::new();
    push_exit_code(&mut out, -1);
    assert_eq!(out, "-1");
    assert_eq!(report_exit(Some(0)), "Exit with code: 0");
    assert_eq!(report_exit(Some(1)), "Exit with code: 1");
    assert_eq!(report_exit(Some(127)), "Exit with code: 127");
    assert_eq!(report_exit(Some(-15)), "Exit with code: -15");
    assert_eq!(report_exit(Some(i32::MAX)), "Exit with code: 2147483647");
    assert_eq!(report_exit(Some(i32::MIN)), "Exit with code: -2147483648");
    assert_eq!(report_exit(None), "Exit without a code");
}

#[test]
fn greeting_text() {
    assert_eq!(greet("Ada"), "Hello, Ada! You've been greeted from Rust!");
    assert_eq!(greet(""), "Hello, ! You've been greeted from Rust!");
}

#[test]
fn sidecar_command_lines() {
    assert_eq!(
        version_command(),
        CommandLine { program: "bun".to_string(), args: vec!["--version".to_string()], current_dir: None }
    );
    assert_eq!(
        install_command("/work/app"),
        CommandLine {
            program: "bun".to_string(),
            args: vec!["install".to_string()],
            current_dir: Some("/work/app".to_string()),
        }
    );
    assert_eq!(
        dev_command("/work/app"),
        CommandLine {
            program: "bun".to_string(),
            args: vec!["dev".to_string()],
            current_dir: Some("/work/app".to_string()),
        }
    );
}

#[test]
fn version_check_reports_the_printed_version() {
    let text = version_report(Ok(finished(true, 0, b"1.2.3", b""))).unwrap();
    assert!(text.contains("1.2.3"));
    assert_eq!(text, "1.2.3");
}

#[test]
fn version_check_gives_stdout_as_written() {
    let res = version_report(Ok(finished(true, 0, b"1.2.3\n", b"")));
    assert_eq!(res, Ok("1.2.3\n".to_string()));
    let res = version_report(Ok(finished(true, 0, b"a\"b\\c\t", b"noise")));
    assert_eq!(res, Ok("a\"b\\c\t".to_string()));
    let res = version_report(Ok(finished(true, 0, "v\u{e9}".as_bytes(), b"")));
    assert_eq!(res, Ok("v\u{e9}".to_string()));
    let res = version_report(Ok(finished(true, 0, b"", b"")));
    assert_eq!(res, Ok(String::new()));
}

#[test]
fn version_check_reports_the_exit_code() {
    assert_eq!(
        version_report(Ok(finished(false, 1, b"1.2.3", b"bad"))),
        Ok("Exit with code: 1".to_string())
    );
    assert_eq!(
        version_report(Ok(finished(false, -2, b"", b""))),
        Ok("Exit with code: -2".to_string())
    );
}

#[test]
fn version_check_of_a_run_without_exit_code() {
    let signalled = ProcessOutput {
        success: false,
        code: None,
        stdout: b"1.2".to_vec(),
        stderr: b"killed".to_vec(),
    };
    assert_eq!(version_report(Ok(signalled)), Ok("Exit without a code".to_string()));
}

#[test]
fn version_check_with_undecodable_output() {
    let bytes: Vec<u8> = vec![b'o', b'k', 0xff];
    let text = outcome_report(finished(true, 0, &bytes, b""));
    assert_eq!(text, "ok\u{fffd}");
    assert_eq!(text, String::from_utf8_lossy(&bytes));
}

#[test]
fn version_check_that_could_not_be_spawned() {
    let res = version_report(Err("sidecar not found".to_string()));
    assert_eq!(res, Err(SupervisorError::SpawnFailure("sidecar not found".to_string())));
    assert_eq!(res.unwrap_err().message(), "sidecar not found");
    let res = run_report(Err(String::new()));
    assert_eq!(res, Err(SupervisorError::SpawnFailure(String::new())));
}

#[test]
fn successful_run_ignores_its_exit_code_and_stderr() {
    let odd = ProcessOutput {
        success: true,
        code: None,
        stdout: b"fine".to_vec(),
        stderr: b"warn".to_vec(),
    };
    assert_eq!(outcome_report(odd), "fine");
    assert_eq!(run_report(Ok(finished(true, 3, b"out", b"err"))), Ok("out".to_string()));
}

#[test]
fn install_failure_carries_stderr() {
    let res = install_result(Ok(finished(false, 1, b"partial", b"boom")));
    assert_eq!(res, Err(SupervisorError::NonZeroExit("boom".to_string())));
    let text = res.unwrap_err().message();
    assert!(text.contains("boom"));
    assert_eq!(text, "Failed to run bun install: boom");
}

#[test]
fn install_success_gives_stdout() {
    let res = install_result(Ok(finished(true, 0, b"installed 3 packages\n", b"warn")));
    assert_eq!(res, Ok("installed 3 packages\n".to_string()));
    let res = install_result(Ok(finished(true, 0, b"", b"")));
    assert_eq!(res, Ok(String::new()));
}

#[test]
fn install_output_is_decoded_lossily() {
    let res = install_result(Ok(finished(true, 0, &[b'a', 0xff, b'b'], b"")));
    assert_eq!(res, Ok("a\u{fffd}b".to_string()));
    let res = install_result(Ok(finished(false, 2, b"", &[0xc3, 0x28])));
    assert_eq!(res, Err(SupervisorError::NonZeroExit("\u{fffd}(".to_string())));
    let res = install_result(Ok(finished(true, 0, "gr\u{fc}n".as_bytes(), b"")));
    assert_eq!(res, Ok("gr\u{fc}n".to_string()));
}

#[test]
fn install_that_could_not_run() {
    let res = install_result(Err("No such file or directory".to_string()));
    assert_eq!(res, Err(SupervisorError::SpawnFailure("No such file or directory".to_string())));
    assert_eq!(res.unwrap_err().message(), "No such file or directory");
}

#[test]
fn dev_start_is_acknowledged_at_once() {
    assert_eq!(dev_started(Ok(())), Ok("starting bun dev".to_string()));
    assert_eq!(
        dev_started(Err("spawn failed".to_string())),
        Err(SupervisorError::SpawnFailure("spawn failed".to_string()))
    );
}

#[test]
fn error_messages() {
    assert_eq!(SupervisorError::NotRunning.message(), "Chrome is not running");
    assert_eq!(SupervisorError::SpawnFailure("x".to_string()).message(), "x");
    assert_eq!(
        SupervisorError::NonZeroExit(String::new()).message(),
        "Failed to run bun install: "
    );
    assert_eq!(SupervisorError::NetworkFailure("timed out".to_string()).message(), "timed out");
    assert_eq!(SupervisorError::InstallFailure("bad signature".to_string()).message(), "bad signature");
}

#[test]
fn update_faults_become_errors() {
    assert_eq!(
        SupervisorError::from_update_fault(UpdateFault::Network, "dns".to_string()),
        SupervisorError::NetworkFailure("dns".to_string())
    );
    assert_eq!(
        SupervisorError::from_update_fault(UpdateFault::Install, "disk full".to_string()),
        SupervisorError::InstallFailure("disk full".to_string())
    );
}

#[test]
fn clone_reports() {
    assert_eq!(
        clone_report("/dst", Ok(Some("/dst/".to_string()))),
        Ok("Successfully cloned repository to /dst (Working directory: /dst/)".to_string())
    );
    assert_eq!(
        clone_report("/dst", Ok(None)),
        Err("Could not get repository working directory".to_string())
    );
    assert_eq!(
        clone_report("/dst", Err("remote hung up".to_string())),
        Err("Failed to clone repository: remote hung up".to_string())
    );
}
