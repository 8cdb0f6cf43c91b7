use shell_bridge::executor::{captured_outcome, detached_outcome, CommandRequest, RunOutput};
use shell_bridge::platform::{shell_invocation, OsFamily};

fn output(status: Option<i32>, stdout: &[u8], stderr: &[u8]) -> RunOutput {
    RunOutput { status, stdout: stdout.to_vec(), stderr: stderr.to_vec() }
}

#[test]
fn posix_runs_through_sh_dash_c() {
    let inv = shell_invocation(OsFamily::Posix, "echo hello");
    assert_eq!(inv.program, "sh");
    assert_eq!(inv.args, vec!["-c".to_string(), "echo hello".to_string()]);
}

#[test]
fn windows_runs_through_cmd_slash_c() {
    let inv = shell_invocation(OsFamily::Windows, "dir && echo done");
    assert_eq!(inv.program, "cmd");
    assert_eq!(inv.args, vec!["/C".to_string(), "dir && echo done".to_string()]);
}

#[test]
fn command_is_passed_untouched() {
    let req = CommandRequest { command: "echo 'a  b' | tr a z; exit 3".to_string(), detached: false };
    let inv = req.invocation(OsFamily::Posix);
    assert_eq!(inv.args[1], req.command);
    let empty = CommandRequest { command: String::new(), detached: true };
    assert_eq!(empty.invocation(OsFamily::Windows).args, vec!["/C".to_string(), String::new()]);
}

#[test]
fn captured_output_is_returned() {
    let r = captured_outcome(Ok(output(Some(0), b"hello\n", b"")));
    assert_eq!(r, Ok("hello\n".to_string()));
}

#[test]
fn nonzero_exit_still_returns_output() {
    let r = captured_outcome(Ok(output(Some(1), b"partial\n", b"boom\n")));
    assert_eq!(r, Ok("partial\n".to_string()));
    let killed = captured_outcome(Ok(output(None, b"x", b"")));
    assert_eq!(killed, Ok("x".to_string()));
}

#[test]
fn empty_output_is_empty_success() {
    assert_eq!(captured_outcome(Ok(output(Some(2), b"", b"error"))), Ok(String::new()));
}

#[test]
fn invalid_bytes_are_replaced() {
    let r = captured_outcome(Ok(output(Some(0), &[0x66, 0xff, 0x6f], b"")));
    assert_eq!(r, Ok("f\u{FFFD}o".to_string()));
    let utf8 = captured_outcome(Ok(output(Some(0), "héllo".as_bytes(), b"")));
    assert_eq!(utf8, Ok("héllo".to_string()));
}

#[test]
fn run_launch_failure_is_described() {
    let r = captured_outcome(Err("No such file or directory (os error 2)".to_string()));
    assert_eq!(r, Err("Failed to execute command: No such file or directory (os error 2)".to_string()));
    let bare = captured_outcome(Err(String::new()));
    assert!(!bare.unwrap_err().is_empty());
}

#[test]
fn detached_launch_is_success() {
    assert_eq!(detached_outcome(Ok(())), Ok("Command started successfully".to_string()));
}

#[test]
fn detached_launch_failure_is_described() {
    let r = detached_outcome(Err("No such file or directory (os error 2)".to_string()));
    assert_eq!(r, Err("Failed to start command: No such file or directory (os error 2)".to_string()));
    let bare = detached_outcome(Err(String::new()));
    assert!(!bare.unwrap_err().is_empty());
}
