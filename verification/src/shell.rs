//! Shell command lines and terminal sessions: splitting a command line into
//! program and arguments with Unix shell quoting rules, and the defaults of a
//! terminal session request.

use vstd::prelude::*;
use crate::sandbox::ExecCommand;
use crate::text::{concat_str, owned, str_eq};
use vstd::utf8::encode_utf8;

verus! {

/// The words that `shell_words::split` makes of a command line (quote
/// removal, backslash escapes, `#` comments, no expansions), or `None` when
/// it rejects the line for an unmatched quote.
pub uninterp spec fn shell_split(line: Seq<char>) -> Option<Seq<Seq<char>>>;

/// A command line was rejected: a quote is not closed.
#[derive(Debug, Clone, Copy, PartialEq, Eq, Structural)]
pub struct ShellParseError;

impl ShellParseError {
    /// The message of the error (`missing closing quote`).
    pub fn message(&self) -> (res: String)
        ensures
            res@ == "missing closing quote"@,
    {
        owned("missing closing quote")
    }
}

/// Splits a command line with `shell_words::split`. Trusted: the words are
/// `shell_split` of the line, and an error comes exactly when `shell_split`
/// rejects it.
#[verifier::external_body]
pub(crate) fn split_command_line(line: &str) -> (res: Result<Vec<String>, ShellParseError>)
    ensures
        match res {
            Ok(words) => shell_split(line@) == Some(words@.map_values(|w: String| w@)),
            Err(_) => shell_split(line@) is None,
        },
{
    match shell_words::split(line) {
        Ok(words) => Ok(words),
        Err(_) => Err(ShellParseError),
    }
}

/// Why a command line gives no command.
#[derive(Debug, Clone, Copy, PartialEq, Eq, Structural)]
pub enum CommandLineError {
    /// A quote is not closed.
    Unparsable,
    /// The line holds no words.
    Empty,
}

/// A command running the first word with the rest as arguments, with no
/// environment, in the given directory and with the given timeout.
pub fn command_from_words(words: Vec<String>, working_dir: Option<String>, timeout_ms: Option<u64>) -> (res: ExecCommand)
    requires
        words@.len() > 0,
    ensures
        res.program == words@[0],
        res.args@ == words@.skip(1),
        res.env@.len() == 0,
        res.working_dir == working_dir,
        res.timeout_ms == timeout_ms,
{
    let mut rest = words;
    let program = rest.remove(0);
    assert(rest@ =~= words@.skip(1));
    ExecCommand { program, args: rest, env: Vec::new(), working_dir, timeout_ms }
}

/// The command a command line asks for: its first word run with the other
/// words as arguments, in the sandbox's own directory, with the given
/// timeout. Fails when the line is unparsable or holds no word.
pub fn command_from_line(line: &str, timeout_ms: Option<u64>) -> (res: Result<ExecCommand, CommandLineError>)
    ensures
        shell_split(line@) is None ==> res == Err::<ExecCommand, CommandLineError>(CommandLineError::Unparsable),
        shell_split(line@) matches Some(w) ==> (w.len() == 0 ==> res == Err::<ExecCommand, CommandLineError>(CommandLineError::Empty)),
        shell_split(line@) matches Some(w) ==> (w.len() > 0 ==> (res matches Ok(cmd) && cmd.program@ == w[0]
            && cmd.args@.map_values(|a: String| a@) == w.skip(1) && cmd.env@.len() == 0
            && cmd.working_dir is None && cmd.timeout_ms == timeout_ms)),
{
    match split_command_line(line) {
        Err(_) => Err(CommandLineError::Unparsable),
        Ok(words) => {
            if words.len() == 0 {
                assert(words@.map_values(|w: String| w@).len() == 0);
                Err(CommandLineError::Empty)
            } else {
                let ghost ws = words@;
                let cmd = command_from_words(words, None, timeout_ms);
                assert(cmd.args@.map_values(|a: String| a@) =~= ws.map_values(|w: String| w@).skip(1));
                Ok(cmd)
            }
        },
    }
}

/// A request to open a terminal session.
#[derive(Debug, Clone)]
pub struct CreateSessionRequest {
    pub shell: Option<String>,
    pub cols: Option<u16>,
    pub rows: Option<u16>,
}

impl CreateSessionRequest {
    /// The terminal size asked for, 80 columns by 24 rows by default.
    pub fn size(&self) -> (res: (u16, u16))
        ensures
            res.0 == (match self.cols { Some(c) => c, None => 80 }),
            res.1 == (match self.rows { Some(r) => r, None => 24 }),
    {
        let cols = match self.cols {
            Some(c) => c,
            None => 80,
        };
        let rows = match self.rows {
            Some(r) => r,
            None => 24,
        };
        (cols, rows)
    }
}

/// The WebSocket path of a terminal session.
pub fn session_ws_path(session_id: &str) -> (res: String)
    ensures
        res@ == "/v1/shell/session/"@ + session_id@ + "/ws"@,
{
    let a = concat_str("/v1/shell/session/", session_id);
    concat_str(a.as_str(), "/ws")
}

/// The shell a terminal session runs: the one asked for, else `/bin/zsh` on
/// macOS and `/bin/bash` elsewhere.
pub fn session_shell(requested: Option<String>, target_os: &str) -> (res: String)
    ensures
        res@ == (match requested {
            Some(s) => s@,
            None => if target_os@ == "macos"@ { "/bin/zsh"@ } else { "/bin/bash"@ },
        }),
{
    match requested {
        Some(s) => s,
        None => if str_eq(target_os, "macos") { owned("/bin/zsh") } else { owned("/bin/bash") },
    }
}

/// The terminal type a session's shell is told it runs in.
pub fn session_term() -> (res: (&'static str, &'static str))
    ensures
        res.0@ == "TERM"@,
        res.1@ == "xterm-256color"@,
{
    ("TERM", "xterm-256color")
}

/// A message read from a terminal session's WebSocket.
#[derive(Debug)]
pub enum TerminalMessage {
    Binary(Vec<u8>),
    Text(String),
    Close,
    /// Reading the socket failed.
    Failed,
    /// Any other frame (ping, pong).
    Other,
}

/// What the terminal does with a message from its WebSocket.
#[derive(Debug, PartialEq, Eq)]
pub enum TerminalStep {
    /// Write these bytes to the session's input.
    Write(Vec<u8>),
    /// Stop reading input.
    Stop,
    /// Read the next message.
    Ignore,
}

/// The step a terminal takes for a WebSocket message: binary and text
/// frames are both written to the session (text as its UTF-8 bytes); a close
/// frame or a read failure ends the session's input; other frames are
/// skipped.
pub fn terminal_input_step(msg: TerminalMessage) -> (res: TerminalStep)
    ensures
        match msg {
            TerminalMessage::Binary(d) => res == TerminalStep::Write(d),
            TerminalMessage::Text(t) => res matches TerminalStep::Write(b) && b@ == encode_utf8(t@),
            TerminalMessage::Close => res == TerminalStep::Stop,
            TerminalMessage::Failed => res == TerminalStep::Stop,
            TerminalMessage::Other => res == TerminalStep::Ignore,
        },
{
    match msg {
        TerminalMessage::Binary(d) => TerminalStep::Write(d),
        TerminalMessage::Text(t) => {
            let bytes = t.as_str().as_bytes();
            let mut v: Vec<u8> = Vec::new();
            let mut i: usize = 0;
            while i < bytes.len()
                invariant
                    i <= bytes@.len(),
                    v@ == bytes@.take(i as int),
                decreases bytes@.len() - i,
            {
                assert(bytes@.take(i + 1) =~= bytes@.take(i as int).push(bytes@[i as int]));
                v.push(bytes[i]);
                i = i + 1;
            }
            assert(bytes@.take(bytes@.len() as int) =~= bytes@);
            TerminalStep::Write(v)
        },
        TerminalMessage::Close => TerminalStep::Stop,
        TerminalMessage::Failed => TerminalStep::Stop,
        TerminalMessage::Other => TerminalStep::Ignore,
    }
}

/// The text sent to a terminal WebSocket whose session cannot be found.
pub fn terminal_error_text(error: &str) -> (res: String)
    ensures
        res@ == "ERROR: "@ + error@,
{
    concat_str("ERROR: ", error)
}

/// The error for an unknown terminal session.
pub fn session_not_found(session_id: &str) -> (res: String)
    ensures
        res@ == "Session not found: "@ + session_id@,
{
    concat_str("Session not found: ", session_id)
}

} // verus!
