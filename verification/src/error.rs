//! Turning a finished command into a message and a verdict.
use vstd::prelude::*;
use crate::text::{from_utf8_lossy, lossy_utf8, trim_end, trim_start, trimmed_end, trimmed_start};

verus! {

/// The message of a finished command: when both streams hold something, the
/// error stream without its trailing whitespace, a newline, and the output
/// stream without its leading whitespace; otherwise the stream that holds
/// something; when neither does, the exit status's text.
pub open spec fn spec_command_message(stderr: Seq<u8>, stdout: Seq<u8>, status: Seq<char>) -> Seq<
    char,
> {
    if stderr.len() > 0 && stdout.len() > 0 {
        trimmed_end(lossy_utf8(stderr)) + seq!['\n'] + trimmed_start(lossy_utf8(stdout))
    } else if stderr.len() > 0 {
        lossy_utf8(stderr)
    } else if stdout.len() > 0 {
        lossy_utf8(stdout)
    } else {
        status
    }
}

/// The result of a finished command, from its error stream, its output stream,
/// the text of its exit status and whether it exited successfully: the
/// message, as `Ok` on success and as `Err` otherwise.
pub fn command_output_result(stderr: &[u8], stdout: &[u8], status: &str, success: bool) -> (r:
    Result<String, String>)
    ensures
        success ==> r == Ok::<String, String>(r->Ok_0),
        !success ==> r == Err::<String, String>(r->Err_0),
        r matches Ok(m) ==> m@ == spec_command_message(stderr@, stdout@, status@),
        r matches Err(m) ==> m@ == spec_command_message(stderr@, stdout@, status@),
{
    let msg = if stderr.len() > 0 && stdout.len() > 0 {
        let err = from_utf8_lossy(stderr);
        let out = from_utf8_lossy(stdout);
        let mut msg = String::from_str(trim_end(err.as_str()));
        msg.append("\n");
        msg.append(trim_start(out.as_str()));
        proof {
            reveal_strlit("\n");
        }
        msg
    } else if stderr.len() > 0 {
        from_utf8_lossy(stderr)
    } else if stdout.len() > 0 {
        from_utf8_lossy(stdout)
    } else {
        String::from_str(status)
    };
    if success {
        Ok(msg)
    } else {
        Err(msg)
    }
}

} // verus!
