use vstd::prelude::*;
use vstd::string::*;

use crate::platform::{shell_invocation, Invocation, OsFamily};

verus! {

/// A command string and whether it runs detached from the caller.
pub struct CommandRequest {
    pub command: String,
    pub detached: bool,
}

/// What a finished interpreter run left behind. Only `stdout` reaches the
/// caller; the exit status and the error stream are kept for completeness.
pub struct RunOutput {
    pub status: Option<i32>,
    pub stdout: Vec<u8>,
    pub stderr: Vec<u8>,
}

/// The text that lossy UTF-8 decoding makes of a byte sequence, with every
/// invalid sequence replaced by U+FFFD.
pub uninterp spec fn lossy_text(bytes: Seq<u8>) -> Seq<char>;

/// Relies on `String::from_utf8_lossy`: the text decoded from the bytes, which
/// never fails; no bytes decode to no text.
#[verifier::external_body]
fn decode_lossy(bytes: &Vec<u8>) -> (r: String)
    ensures
        r@ == lossy_text(bytes@),
        bytes@.len() == 0 ==> r@.len() == 0,
{
    String::from_utf8_lossy(bytes.as_slice()).into_owned()
}

/// A `Result` of strings seen as a `Result` of character sequences.
pub open spec fn text_of(r: Result<String, String>) -> Result<Seq<char>, Seq<char>> {
    match r {
        Ok(s) => Ok(s@),
        Err(e) => Err(e@),
    }
}

/// The success text of a detached launch.
pub open spec fn started_message() -> Seq<char> {
    "Command started successfully"@
}

/// What precedes the system's description when a detached launch fails.
pub open spec fn start_failure_prefix() -> Seq<char> {
    "Failed to start command: "@
}

/// What precedes the system's description when a waited-for run cannot start.
pub open spec fn run_failure_prefix() -> Seq<char> {
    "Failed to execute command: "@
}

/// The result of a detached execution, given whether the process was created
/// (or the system's description of why not).
pub open spec fn detached_result(spawned: Result<(), String>) -> Result<Seq<char>, Seq<char>> {
    match spawned {
        Ok(_) => Ok(started_message()),
        Err(why) => Err(start_failure_prefix() + why@),
    }
}

/// The result of a waited-for execution, given what the run left behind (or
/// the system's description of why it could not start): the standard output,
/// decoded, whatever the exit status.
pub open spec fn captured_result(run: Result<RunOutput, String>) -> Result<Seq<char>, Seq<char>> {
    match run {
        Ok(out) => Ok(lossy_text(out.stdout@)),
        Err(why) => Err(run_failure_prefix() + why@),
    }
}

impl CommandRequest {
    /// The interpreter invocation that carries out this request on `family`.
    pub fn invocation(&self, family: OsFamily) -> (r: Invocation)
        ensures
            r.runs(family, self.command@),
    {
        shell_invocation(family, self.command.as_str())
    }
}

/// Turns the outcome of starting a detached process into the caller's result.
pub fn detached_outcome(spawned: Result<(), String>) -> (r: Result<String, String>)
    ensures
        text_of(r) == detached_result(spawned),
{
    match spawned {
        Ok(_) => Ok(String::from_str("Command started successfully")),
        Err(why) => Err(String::from_str("Failed to start command: ").concat(why.as_str())),
    }
}

/// Turns the outcome of a waited-for run into the caller's result.
pub fn captured_outcome(run: Result<RunOutput, String>) -> (r: Result<String, String>)
    ensures
        text_of(r) == captured_result(run),
{
    match run {
        Ok(out) => Ok(decode_lossy(&out.stdout)),
        Err(why) => Err(String::from_str("Failed to execute command: ").concat(why.as_str())),
    }
}

/// A waited-for run that started yields its decoded standard output, whatever
/// the exit status.
pub proof fn captured_result_is_stdout(out: RunOutput)
    ensures
        captured_result(Ok(out)) == Ok::<Seq<char>, Seq<char>>(lossy_text(out.stdout@)),
{
}

/// A detached launch that the system accepted is a success, whatever the
/// command goes on to do.
pub proof fn launched_is_success()
    ensures
        detached_result(Ok(())) == Ok::<Seq<char>, Seq<char>>(started_message()),
{
}

/// When the interpreter cannot be started, both modes fail, and the failure
/// carries a non-empty description, even where the system gave none.
pub proof fn launch_failure_is_described(why: String)
    ensures
        detached_result(Err(why)) is Err,
        detached_result(Err(why))->Err_0.len() > 0,
        captured_result(Err(why)) is Err,
        captured_result(Err(why))->Err_0.len() > 0,
{
    reveal_strlit("Failed to start command: ");
    reveal_strlit("Failed to execute command: ");
}

/// A run that exits with a non-zero status, or is ended by a signal, still
/// succeeds with its decoded standard output.
pub proof fn exit_status_is_not_surfaced(out: RunOutput)
    requires
        out.status != Some(0i32),
    ensures
        captured_result(Ok(out)) == Ok::<Seq<char>, Seq<char>>(lossy_text(out.stdout@)),
{
}

} // verus!
