//! What the launcher makes of the output of the commands it runs.
use vstd::prelude::*;
use crate::messages;
use crate::text;
use crate::text::{first_line_trimmed, port_of_url, trim_text};

verus! {

/// What `String::from_utf8_lossy` makes of a sequence of bytes.
pub uninterp spec fn lossy_utf8(bytes: Seq<u8>) -> Seq<char>;

/// `String::from_utf8_lossy`: the bytes read as UTF-8, with each invalid
/// sequence replaced by U+FFFD. Stated here: the result is the named
/// function of the bytes, and valid UTF-8 is decoded exactly. The
/// replacement of invalid sequences is left unsaid.
#[verifier::external_body]
fn decode_lossy(bytes: &[u8]) -> (s: String)
    ensures
        s@ == lossy_utf8(bytes@),
        vstd::utf8::valid_utf8(bytes@) ==> s@ == vstd::utf8::decode_utf8(bytes@),
{
    String::from_utf8_lossy(bytes).into_owned()
}

/// How a command that the launcher ran ended.
pub enum CommandOutcome {
    /// The command could not be started; the text of the error.
    NotStarted(String),
    /// The command ran: whether it succeeded, the text of its exit status,
    /// and what it wrote to its standard output and error.
    Exited { success: bool, status: String, stdout: Vec<u8>, stderr: Vec<u8> },
}

/// The version that a command reports, or why there is none: the first
/// line of its trimmed output when it succeeds with some output; its
/// trimmed error output (or, if that is empty, its exit status) when it
/// fails.
pub open spec fn version_result(cmd: Seq<char>, outcome: CommandOutcome) -> Result<
    Seq<char>,
    Seq<char>,
> {
    match outcome {
        CommandOutcome::NotStarted(e) => Err(messages::cannot_run_detail(cmd, e@)),
        CommandOutcome::Exited { success, status, stdout, stderr } => if !success {
            let detail = text::trim(lossy_utf8(stderr@));
            if detail.len() == 0 {
                Err(messages::command_status_detail(cmd, status@))
            } else {
                Err(detail)
            }
        } else {
            let value = text::trim(lossy_utf8(stdout@));
            if value.len() == 0 {
                Err(messages::no_version_detail(cmd))
            } else {
                Ok(text::trim(text::first_line(value)))
            }
        },
    }
}

/// The text of a result.
pub open spec fn result_text(r: Result<String, String>) -> Result<Seq<char>, Seq<char>> {
    match r {
        Ok(v) => Ok(v@),
        Err(e) => Err(e@),
    }
}

/// The version that `command_line` reports, from how it ended.
pub fn run_version(command_line: &str, outcome: CommandOutcome) -> (r: Result<String, String>)
    ensures
        result_text(r) == version_result(command_line@, outcome),
{
    match outcome {
        CommandOutcome::NotStarted(e) => Err(messages::cannot_run_text(command_line, e.as_str())),
        CommandOutcome::Exited { success, status, stdout, stderr } => {
            if !success {
                let err_text = decode_lossy(stderr.as_slice());
                let detail = trim_text(err_text.as_str());
                if detail.unicode_len() == 0 {
                    Err(messages::command_status_text(command_line, status.as_str()))
                } else {
                    Err(detail)
                }
            } else {
                let out_text = decode_lossy(stdout.as_slice());
                let value = trim_text(out_text.as_str());
                if value.unicode_len() == 0 {
                    Err(messages::no_version_text(command_line))
                } else {
                    Ok(first_line_trimmed(value.as_str()))
                }
            }
        },
    }
}

/// The port that the launcher waits on for the server at `url`, or why
/// there is none.
pub open spec fn server_port_result(url: Seq<char>) -> Result<u16, Seq<char>> {
    match text::url_port(url) {
        Some(p) => Ok(p),
        None => Err(messages::bad_address_detail(url)),
    }
}

/// The port of the server at `url` that the launcher waits on to accept
/// connections.
pub fn server_port(url: &str) -> (r: Result<u16, String>)
    ensures
        match r {
            Ok(p) => server_port_result(url@) == Ok::<u16, Seq<char>>(p),
            Err(e) => server_port_result(url@) == Err::<u16, Seq<char>>(e@),
        },
{
    match port_of_url(url) {
        Some(p) => Ok(p),
        None => Err(messages::bad_address_text(url)),
    }
}

} // verus!
