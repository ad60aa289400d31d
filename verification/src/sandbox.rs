//! Sandboxes: their configuration, state, commands and results, and the
//! errors of the sandbox runtime.

use vstd::prelude::*;
use crate::ids::{uuid_string, uuid_text};
use crate::text::concat_str;

verus! {

/// Errors of the sandbox runtime.
#[derive(Debug)]
pub enum RuntimeError {
    CreationFailed(String),
    ExecutionFailed(String),
    NotFound(u128),
    DestroyFailed(String),
    SnapshotFailed(String),
    RestoreFailed(String),
}

/// The display text of a runtime error.
pub open spec fn runtime_error_text(e: RuntimeError) -> Seq<char> {
    match e {
        RuntimeError::CreationFailed(s) => "sandbox creation failed: "@ + s@,
        RuntimeError::ExecutionFailed(s) => "execution failed: "@ + s@,
        RuntimeError::NotFound(id) => "sandbox not found: "@ + uuid_text(id),
        RuntimeError::DestroyFailed(s) => "destroy failed: "@ + s@,
        RuntimeError::SnapshotFailed(s) => "snapshot failed: "@ + s@,
        RuntimeError::RestoreFailed(s) => "restore failed: "@ + s@,
    }
}

impl RuntimeError {
    /// The human-readable message of this error.
    pub fn message(&self) -> (res: String)
        ensures
            res@ == runtime_error_text(*self),
    {
        match self {
            RuntimeError::CreationFailed(s) => concat_str("sandbox creation failed: ", s.as_str()),
            RuntimeError::ExecutionFailed(s) => concat_str("execution failed: ", s.as_str()),
            RuntimeError::NotFound(id) => {
                let t = uuid_string(*id);
                concat_str("sandbox not found: ", t.as_str())
            },
            RuntimeError::DestroyFailed(s) => concat_str("destroy failed: ", s.as_str()),
            RuntimeError::SnapshotFailed(s) => concat_str("snapshot failed: ", s.as_str()),
            RuntimeError::RestoreFailed(s) => concat_str("restore failed: ", s.as_str()),
        }
    }
}

/// A copy of an optional string.
pub fn copy_opt_string(o: &Option<String>) -> (res: Option<String>)
    ensures
        res == *o,
{
    match o {
        Some(s) => Some(s.clone()),
        None => None,
    }
}

/// Resource limits and workspace of a sandbox.
#[derive(Debug)]
pub struct SandboxConfig {
    pub memory_limit_mb: Option<u64>,
    pub cpu_limit_percent: Option<u8>,
    pub disk_limit_mb: Option<u64>,
    pub network_enabled: bool,
    pub workspace_dir: Option<String>,
}

impl Clone for SandboxConfig {
    fn clone(&self) -> (res: Self)
        ensures
            res == *self,
    {
        SandboxConfig {
            memory_limit_mb: self.memory_limit_mb,
            cpu_limit_percent: self.cpu_limit_percent,
            disk_limit_mb: self.disk_limit_mb,
            network_enabled: self.network_enabled,
            workspace_dir: copy_opt_string(&self.workspace_dir),
        }
    }
}

impl Default for SandboxConfig {
    /// 512 MB of memory, 50% of a CPU, 1024 MB of disk, network on, no
    /// workspace directory.
    fn default() -> (res: Self)
        ensures
            res.memory_limit_mb == Some(512u64),
            res.cpu_limit_percent == Some(50u8),
            res.disk_limit_mb == Some(1024u64),
            res.network_enabled,
            res.workspace_dir is None,
    {
        SandboxConfig {
            memory_limit_mb: Some(512),
            cpu_limit_percent: Some(50),
            disk_limit_mb: Some(1024),
            network_enabled: true,
            workspace_dir: None,
        }
    }
}

/// The lifecycle state of a sandbox.
#[derive(Debug, Clone, Copy, PartialEq, Eq, Structural)]
pub enum SandboxState {
    Creating,
    Running,
    Paused,
    Stopped,
    Failed,
}

/// A sandbox tracked by the runtime.
#[derive(Debug)]
pub struct Sandbox {
    pub id: u128,
    pub config: SandboxConfig,
    pub state: SandboxState,
    pub created_at: String,
}

impl Clone for Sandbox {
    fn clone(&self) -> (res: Self)
        ensures
            res == *self,
    {
        Sandbox {
            id: self.id,
            config: self.config.clone(),
            state: self.state,
            created_at: self.created_at.clone(),
        }
    }
}

/// A command to run in a sandbox.
#[derive(Debug, Clone)]
pub struct ExecCommand {
    pub program: String,
    pub args: Vec<String>,
    /// Environment variables, each name once.
    pub env: Vec<(String, String)>,
    pub working_dir: Option<String>,
    pub timeout_ms: Option<u64>,
}

/// The outcome of a command.
#[derive(Debug, Clone)]
pub struct ExecResult {
    pub exit_code: i32,
    pub stdout: String,
    pub stderr: String,
    pub duration_ms: u64,
}

/// A stored copy of a sandbox's workspace.
#[derive(Debug, Clone)]
pub struct Snapshot {
    pub id: u128,
    pub sandbox_id: u128,
    pub created_at: String,
    /// Metadata entries, each key once.
    pub metadata: Vec<(String, String)>,
}

} // verus!
