//! The E2B-compatible sandbox lifecycle API: sandbox settings for a create
//! request, state names, error texts, and command lines run in a sandbox.

use vstd::prelude::*;
use crate::ids::{parse_uuid, uuid_parse};
use crate::sandbox::{SandboxConfig, SandboxState};
use crate::shell::CommandLineError;
use crate::text::{concat_str, owned};

verus! {

/// Memory of a sandbox whose create request gives none (MB).
pub const DEFAULT_MEMORY_MB: u64 = 512;

/// The template reported when a create request names none.
pub fn template_or_default(template_id: Option<String>) -> (res: String)
    ensures
        res@ == (match template_id { Some(t) => t@, None => "base"@ }),
{
    match template_id {
        Some(t) => t,
        None => owned("base"),
    }
}

/// The configuration of a sandbox created through the lifecycle API:
/// defaults, the requested memory (512 MB if none) and its own workspace.
pub fn create_config(memory_mb: Option<u64>, workspace: String) -> (res: SandboxConfig)
    ensures
        res.memory_limit_mb == Some(match memory_mb { Some(m) => m, None => DEFAULT_MEMORY_MB }),
        res.cpu_limit_percent == Some(50u8),
        res.disk_limit_mb == Some(1024u64),
        res.network_enabled,
        res.workspace_dir == Some(workspace),
{
    let mut c = SandboxConfig::default();
    c.memory_limit_mb = Some(
        match memory_mb {
            Some(m) => m,
            None => DEFAULT_MEMORY_MB,
        },
    );
    c.workspace_dir = Some(workspace);
    c
}

/// The lifecycle state reported for a sandbox state.
pub fn state_name(state: SandboxState) -> (res: &'static str)
    ensures
        res@ == (match state {
            SandboxState::Running => "running"@,
            SandboxState::Paused => "paused"@,
            _ => "stopped"@,
        }),
{
    match state {
        SandboxState::Running => "running",
        SandboxState::Paused => "paused",
        _ => "stopped",
    }
}

/// The sandbox a path segment names, if it is a UUID.
pub fn parse_id(id: &str) -> (res: Option<u128>)
    ensures
        res == uuid_parse(id@),
{
    parse_uuid(id)
}

/// The message for an unknown sandbox.
pub fn not_found_message(id: &str) -> (res: String)
    ensures
        res@ == "sandbox not found: "@ + id@,
{
    concat_str("sandbox not found: ", id)
}

/// The message for a path segment that is not a sandbox identifier.
pub fn bad_id_message(id: &str) -> (res: String)
    ensures
        res@ == "invalid sandbox id: "@ + id@,
{
    concat_str("invalid sandbox id: ", id)
}

/// The message for a command line that gives no command, as the lifecycle
/// API words it.
pub fn command_line_message(e: CommandLineError) -> (res: String)
    ensures
        res@ == (match e {
            CommandLineError::Empty => "empty command"@,
            CommandLineError::Unparsable => "parse error: missing closing quote"@,
        }),
{
    match e {
        CommandLineError::Empty => owned("empty command"),
        CommandLineError::Unparsable => owned("parse error: missing closing quote"),
    }
}

/// The message for a command line that gives no command, as the shell API
/// words it.
pub fn shell_command_line_message(e: CommandLineError) -> (res: String)
    ensures
        res@ == (match e {
            CommandLineError::Empty => "Empty command"@,
            CommandLineError::Unparsable => "Failed to parse command: missing closing quote"@,
        }),
{
    match e {
        CommandLineError::Empty => owned("Empty command"),
        CommandLineError::Unparsable => owned("Failed to parse command: missing closing quote"),
    }
}

} // verus!
