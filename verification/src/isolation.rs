//! The isolation policy of a sandboxed command: resource limits derived from
//! the sandbox configuration, and the Landlock filesystem rules (system
//! directories read/execute only; the workspace, `/tmp` and a few devices
//! read/write). Installing the policy in a child process is the caller's job.

use vstd::prelude::*;
use crate::sandbox::{copy_opt_string, SandboxConfig};
use crate::text::owned;

verus! {

/// Bytes in a mebibyte.
pub const MIB: u64 = 1048576;

/// Landlock access right: execute a file.
pub const ACCESS_FS_EXECUTE: u64 = 1;
/// Landlock access right: write to a file.
pub const ACCESS_FS_WRITE_FILE: u64 = 2;
/// Landlock access right: read a file.
pub const ACCESS_FS_READ_FILE: u64 = 4;
/// Landlock access right: list a directory.
pub const ACCESS_FS_READ_DIR: u64 = 8;
/// Landlock access right: remove a directory.
pub const ACCESS_FS_REMOVE_DIR: u64 = 16;
/// Landlock access right: remove a file.
pub const ACCESS_FS_REMOVE_FILE: u64 = 32;
/// Landlock access right: create a character device.
pub const ACCESS_FS_MAKE_CHAR: u64 = 64;
/// Landlock access right: create a directory.
pub const ACCESS_FS_MAKE_DIR: u64 = 128;
/// Landlock access right: create a regular file.
pub const ACCESS_FS_MAKE_REG: u64 = 256;
/// Landlock access right: create a socket.
pub const ACCESS_FS_MAKE_SOCK: u64 = 512;
/// Landlock access right: create a named pipe.
pub const ACCESS_FS_MAKE_FIFO: u64 = 1024;
/// Landlock access right: create a block device.
pub const ACCESS_FS_MAKE_BLOCK: u64 = 2048;
/// Landlock access right: create a symbolic link.
pub const ACCESS_FS_MAKE_SYM: u64 = 4096;
/// Every right of Landlock ABI v1: the ruleset handles all of them, so any
/// right not granted to a path is denied.
pub const ACCESS_FS_ALL: u64 = 8191;
/// Read, list and execute; no mutation.
pub const ACCESS_FS_RO: u64 = 13;
/// The open-file limit every sandboxed command gets.
pub const OPEN_FILES_LIMIT: u64 = 1024;

/// The rights that change the filesystem.
pub open spec fn mutating_rights() -> u64 {
    ACCESS_FS_WRITE_FILE | ACCESS_FS_REMOVE_DIR | ACCESS_FS_REMOVE_FILE | ACCESS_FS_MAKE_CHAR
        | ACCESS_FS_MAKE_DIR | ACCESS_FS_MAKE_REG | ACCESS_FS_MAKE_SOCK | ACCESS_FS_MAKE_FIFO
        | ACCESS_FS_MAKE_BLOCK | ACCESS_FS_MAKE_SYM
}

/// The read-only grant holds no right that changes the filesystem, the full
/// grant holds every right, and the read-only grant is part of the full one.
pub proof fn lemma_access_masks()
    ensures
        ACCESS_FS_RO & mutating_rights() == 0,
        ACCESS_FS_RO == ACCESS_FS_READ_FILE | ACCESS_FS_READ_DIR | ACCESS_FS_EXECUTE,
        ACCESS_FS_ALL == ACCESS_FS_EXECUTE | ACCESS_FS_READ_FILE | ACCESS_FS_READ_DIR | mutating_rights(),
        ACCESS_FS_RO & ACCESS_FS_ALL == ACCESS_FS_RO,
{
    assert(13u64 & (2u64 | 16u64 | 32u64 | 64u64 | 128u64 | 256u64 | 512u64 | 1024u64 | 2048u64 | 4096u64) == 0u64) by (bit_vector);
    assert(13u64 == 4u64 | 8u64 | 1u64) by (bit_vector);
    assert(8191u64 == 1u64 | 4u64 | 8u64 | (2u64 | 16u64 | 32u64 | 64u64 | 128u64 | 256u64 | 512u64 | 1024u64 | 2048u64 | 4096u64)) by (bit_vector);
    assert(13u64 & 8191u64 == 13u64) by (bit_vector);
}

/// `mb` mebibytes in bytes, saturating at `u64::MAX`.
pub open spec fn mib_to_bytes(mb: u64) -> u64 {
    if mb * MIB > u64::MAX { u64::MAX } else { (mb * MIB) as u64 }
}

/// The CPU-seconds ceiling for a timeout of `ms` milliseconds: the timeout
/// rounded up to whole seconds, plus one grace second.
pub open spec fn cpu_seconds(ms: u64) -> u64 {
    (ms / 1000 + (if ms % 1000 > 0 { 1int } else { 0int }) + 1) as u64
}

/// A resource limit that a sandboxed command gets.
#[derive(Debug, Clone, Copy, PartialEq, Eq, Structural)]
pub enum RlimitResource {
    /// Virtual address space (`RLIMIT_AS`), bytes.
    AddressSpace,
    /// CPU time (`RLIMIT_CPU`), seconds.
    CpuTime,
    /// Largest file the command may create (`RLIMIT_FSIZE`), bytes.
    FileSize,
    /// Open file descriptors (`RLIMIT_NOFILE`).
    OpenFiles,
}

/// The resolved isolation policy of one sandboxed command.
#[derive(Clone)]
pub struct Isolation {
    mem_bytes: Option<u64>,
    cpu_secs: Option<u64>,
    fsize_bytes: Option<u64>,
    workspace: Option<String>,
}

/// The resource limits a policy installs, in order: address space, CPU
/// time and file size when set, then the open-file limit.
pub open spec fn rlimit_plan(mem: Option<u64>, cpu: Option<u64>, fsize: Option<u64>) -> Seq<(RlimitResource, u64)> {
    (match mem { Some(b) => seq![(RlimitResource::AddressSpace, b)], None => seq![] })
        + (match cpu { Some(s) => seq![(RlimitResource::CpuTime, s)], None => seq![] })
        + (match fsize { Some(b) => seq![(RlimitResource::FileSize, b)], None => seq![] })
        + seq![(RlimitResource::OpenFiles, OPEN_FILES_LIMIT)]
}

/// System directories every interpreter needs, granted read and execute.
pub open spec fn system_ro_dirs() -> Seq<Seq<char>> {
    seq!["/usr"@, "/bin"@, "/sbin"@, "/lib"@, "/lib64"@, "/etc"@, "/opt"@, "/proc"@, "/sys"@]
}

/// Shared paths granted every right: temporary files and a few devices.
pub open spec fn system_rw_paths() -> Seq<Seq<char>> {
    seq!["/tmp"@, "/dev/null"@, "/dev/zero"@, "/dev/full"@, "/dev/random"@, "/dev/urandom"@, "/dev/tty"@]
}

/// The Landlock rules of a policy, in order: the system directories
/// (read-only), the shared paths (all rights), then the workspace if any (all
/// rights).
pub open spec fn landlock_plan(workspace: Option<String>) -> Seq<(Seq<char>, u64)> {
    system_ro_dirs().map_values(|d: Seq<char>| (d, ACCESS_FS_RO))
        + system_rw_paths().map_values(|d: Seq<char>| (d, ACCESS_FS_ALL))
        + (match workspace { Some(w) => seq![(w@, ACCESS_FS_ALL)], None => seq![] })
}

fn push_rule(rules: &mut Vec<(String, u64)>, path: &str, access: u64)
    ensures
        final(rules)@.map_values(|r: (String, u64)| (r.0@, r.1))
            == old(rules)@.map_values(|r: (String, u64)| (r.0@, r.1)).push((path@, access)),
{
    rules.push((owned(path), access));
    assert(rules@.map_values(|r: (String, u64)| (r.0@, r.1))
        =~= old(rules)@.map_values(|r: (String, u64)| (r.0@, r.1)).push((path@, access)));
}

impl Isolation {
    /// Address-space ceiling in bytes.
    pub closed spec fn mem_limit(&self) -> Option<u64> {
        self.mem_bytes
    }

    /// CPU-seconds ceiling.
    pub closed spec fn cpu_limit(&self) -> Option<u64> {
        self.cpu_secs
    }

    /// Largest file in bytes.
    pub closed spec fn fsize_limit(&self) -> Option<u64> {
        self.fsize_bytes
    }

    /// The workspace the command may read and write.
    pub closed spec fn workspace_dir(&self) -> Option<String> {
        self.workspace
    }

    /// This policy is the one derived from `config` and `timeout_ms`.
    pub open spec fn derived_from(&self, config: SandboxConfig, timeout_ms: Option<u64>) -> bool {
        &&& self.mem_limit() == (match config.memory_limit_mb {
            Some(mb) => Some(mib_to_bytes(mb)),
            None => None,
        })
        &&& self.cpu_limit() == (match timeout_ms {
            Some(ms) => Some(cpu_seconds(ms)),
            None => None,
        })
        &&& self.fsize_limit() == (match config.disk_limit_mb {
            Some(mb) => Some(mib_to_bytes(mb)),
            None => None,
        })
        &&& self.workspace_dir() == config.workspace_dir
    }

    /// Derives a policy from a sandbox configuration and the command's
    /// timeout: memory and disk limits in bytes (saturating), and a CPU-time
    /// ceiling of the timeout rounded up to whole seconds plus one.
    pub fn from_config(config: &SandboxConfig, timeout_ms: Option<u64>) -> (res: Isolation)
        ensures
            res.derived_from(*config, timeout_ms),
    {
        let mem_bytes = match config.memory_limit_mb {
            Some(mb) => Some(saturating_mib(mb)),
            None => None,
        };
        let cpu_secs = match timeout_ms {
            Some(ms) => {
                let whole = ms / 1000 + if ms % 1000 > 0 { 1 } else { 0 };
                Some(whole.saturating_add(1))
            },
            None => None,
        };
        let fsize_bytes = match config.disk_limit_mb {
            Some(mb) => Some(saturating_mib(mb)),
            None => None,
        };
        Isolation { mem_bytes, cpu_secs, fsize_bytes, workspace: copy_opt_string(&config.workspace_dir) }
    }

    /// Address-space ceiling in bytes.
    pub fn mem_bytes(&self) -> (res: Option<u64>)
        ensures
            res == self.mem_limit(),
    {
        self.mem_bytes
    }

    /// CPU-seconds ceiling.
    pub fn cpu_secs(&self) -> (res: Option<u64>)
        ensures
            res == self.cpu_limit(),
    {
        self.cpu_secs
    }

    /// Largest file in bytes.
    pub fn fsize_bytes(&self) -> (res: Option<u64>)
        ensures
            res == self.fsize_limit(),
    {
        self.fsize_bytes
    }

    /// The resource limits to install, in order.
    pub fn rlimits(&self) -> (res: Vec<(RlimitResource, u64)>)
        ensures
            res@ == rlimit_plan(self.mem_limit(), self.cpu_limit(), self.fsize_limit()),
    {
        let mut v: Vec<(RlimitResource, u64)> = Vec::new();
        if let Some(b) = self.mem_bytes {
            v.push((RlimitResource::AddressSpace, b));
        }
        if let Some(s) = self.cpu_secs {
            v.push((RlimitResource::CpuTime, s));
        }
        if let Some(b) = self.fsize_bytes {
            v.push((RlimitResource::FileSize, b));
        }
        v.push((RlimitResource::OpenFiles, OPEN_FILES_LIMIT));
        assert(v@ =~= rlimit_plan(self.mem_limit(), self.cpu_limit(), self.fsize_limit()));
        v
    }

    /// The Landlock rules to install, in order, as (path, granted rights).
    pub fn landlock_rules(&self) -> (res: Vec<(String, u64)>)
        ensures
            res@.map_values(|r: (String, u64)| (r.0@, r.1)) == landlock_plan(self.workspace_dir()),
    {
        let mut rules: Vec<(String, u64)> = Vec::new();
        push_rule(&mut rules, "/usr", ACCESS_FS_RO);
        push_rule(&mut rules, "/bin", ACCESS_FS_RO);
        push_rule(&mut rules, "/sbin", ACCESS_FS_RO);
        push_rule(&mut rules, "/lib", ACCESS_FS_RO);
        push_rule(&mut rules, "/lib64", ACCESS_FS_RO);
        push_rule(&mut rules, "/etc", ACCESS_FS_RO);
        push_rule(&mut rules, "/opt", ACCESS_FS_RO);
        push_rule(&mut rules, "/proc", ACCESS_FS_RO);
        push_rule(&mut rules, "/sys", ACCESS_FS_RO);
        push_rule(&mut rules, "/tmp", ACCESS_FS_ALL);
        push_rule(&mut rules, "/dev/null", ACCESS_FS_ALL);
        push_rule(&mut rules, "/dev/zero", ACCESS_FS_ALL);
        push_rule(&mut rules, "/dev/full", ACCESS_FS_ALL);
        push_rule(&mut rules, "/dev/random", ACCESS_FS_ALL);
        push_rule(&mut rules, "/dev/urandom", ACCESS_FS_ALL);
        push_rule(&mut rules, "/dev/tty", ACCESS_FS_ALL);
        if let Some(ws) = &self.workspace {
            push_rule(&mut rules, ws.as_str(), ACCESS_FS_ALL);
        }
        assert(rules@.map_values(|r: (String, u64)| (r.0@, r.1)) =~= landlock_plan(self.workspace_dir()));
        rules
    }
}

/// Only the workspace and the shared paths (`/tmp` and the devices) can be
/// changed by a sandboxed command: every Landlock rule that grants a right
/// to modify the filesystem names one of them, and the system directories
/// are granted read and execute only.
pub proof fn lemma_only_workspace_and_shared_paths_writable(workspace: Option<String>)
    ensures
        forall|k: int| 0 <= k < landlock_plan(workspace).len() && #[trigger] landlock_plan(workspace)[k].1
            & mutating_rights() != 0 ==> (system_rw_paths().contains(landlock_plan(workspace)[k].0)
                || (workspace matches Some(w) && landlock_plan(workspace)[k].0 == w@)),
        forall|k: int| 0 <= k < system_ro_dirs().len() ==> #[trigger] landlock_plan(workspace)[k] == (system_ro_dirs()[k], ACCESS_FS_RO),
{
    lemma_access_masks();
    let ro = system_ro_dirs().map_values(|d: Seq<char>| (d, ACCESS_FS_RO));
    let rw = system_rw_paths().map_values(|d: Seq<char>| (d, ACCESS_FS_ALL));
    let ws = match workspace { Some(w) => seq![(w@, ACCESS_FS_ALL)], None => Seq::<(Seq<char>, u64)>::empty() };
    let plan = landlock_plan(workspace);
    assert(plan == ro + rw + ws);
    assert forall|k: int| 0 <= k < plan.len() && #[trigger] plan[k].1 & mutating_rights() != 0 implies (system_rw_paths().contains(plan[k].0)
        || (workspace matches Some(w) && plan[k].0 == w@)) by {
        if k < ro.len() {
            assert(plan[k] == ro[k]);
            assert(plan[k].1 == ACCESS_FS_RO);
        } else if k < ro.len() + rw.len() {
            assert(plan[k] == rw[k - ro.len()]);
            assert(system_rw_paths()[k - ro.len()] == plan[k].0);
        } else {
            assert(plan[k] == ws[k - ro.len() - rw.len()]);
        }
    }
    assert forall|k: int| 0 <= k < system_ro_dirs().len() implies #[trigger] plan[k] == (system_ro_dirs()[k], ACCESS_FS_RO) by {
        assert(plan[k] == ro[k]);
    }
}

/// `p` is one of the paths every sandboxed command shares: `/tmp` and the
/// devices `/dev/null`, `/dev/zero`, `/dev/full`, `/dev/random`,
/// `/dev/urandom` and `/dev/tty`.
pub open spec fn is_shared_path(p: Seq<char>) -> bool {
    p == "/tmp"@ || p == "/dev/null"@ || p == "/dev/zero"@ || p == "/dev/full"@ || p == "/dev/random"@ || p == "/dev/urandom"@ || p == "/dev/tty"@
}

/// Every shared path is granted every right, so that a sandboxed command can
/// use temporary files and write to the devices (`ls > /dev/null`): the
/// policy has a rule granting it `ACCESS_FS_ALL`, and no rule grants it
/// less.
pub proof fn lemma_shared_paths_fully_granted(workspace: Option<String>, p: Seq<char>)
    requires
        is_shared_path(p),
    ensures
        landlock_plan(workspace).contains((p, ACCESS_FS_ALL)),
        forall|k: int| 0 <= k < landlock_plan(workspace).len() && (#[trigger] landlock_plan(workspace)[k]).0 == p
            ==> landlock_plan(workspace)[k].1 == ACCESS_FS_ALL,
{
    reveal_strlit("/tmp");
    reveal_strlit("/dev/null");
    reveal_strlit("/dev/zero");
    reveal_strlit("/dev/full");
    reveal_strlit("/dev/random");
    reveal_strlit("/dev/urandom");
    reveal_strlit("/dev/tty");
    reveal_strlit("/usr");
    reveal_strlit("/bin");
    reveal_strlit("/sbin");
    reveal_strlit("/lib");
    reveal_strlit("/lib64");
    reveal_strlit("/etc");
    reveal_strlit("/opt");
    reveal_strlit("/proc");
    reveal_strlit("/sys");
    let ro = system_ro_dirs().map_values(|d: Seq<char>| (d, ACCESS_FS_RO));
    let rw = system_rw_paths().map_values(|d: Seq<char>| (d, ACCESS_FS_ALL));
    let ws = match workspace { Some(w) => seq![(w@, ACCESS_FS_ALL)], None => Seq::<(Seq<char>, u64)>::empty() };
    let plan = landlock_plan(workspace);
    assert(plan == ro + rw + ws);
    // the shared paths begin with `/t` or `/d`, the system directories do not
    assert(p[1] == 't' || p[1] == 'd');
    let j: int = if p == "/tmp"@ { 0 } else if p == "/dev/null"@ { 1 } else if p == "/dev/zero"@ { 2 }
        else if p == "/dev/full"@ { 3 } else if p == "/dev/random"@ { 4 } else if p == "/dev/urandom"@ { 5 } else { 6 };
    assert(system_rw_paths()[j] == p);
    assert(plan[ro.len() + j] == (p, ACCESS_FS_ALL));
    assert forall|k: int| 0 <= k < plan.len() && (#[trigger] plan[k]).0 == p implies plan[k].1 == ACCESS_FS_ALL by {
        if k < ro.len() {
            assert(plan[k] == ro[k]);
            let d = system_ro_dirs()[k];
            assert(d[1] != 't' && d[1] != 'd');
        } else if k < ro.len() + rw.len() {
            assert(plan[k] == rw[k - ro.len()]);
        } else {
            assert(plan[k] == ws[k - ro.len() - rw.len()]);
        }
    }
}

fn saturating_mib(mb: u64) -> (res: u64)
    ensures
        res == mib_to_bytes(mb),
{
    match mb.checked_mul(MIB) {
        Some(b) => b,
        None => u64::MAX,
    }
}

/// The CPU-time ceiling outlasts the wall-clock timeout by at least a
/// second, so the timeout normally fires first.
pub proof fn lemma_cpu_ceiling_outlasts_timeout(ms: u64)
    ensures
        cpu_seconds(ms) as int * 1000 >= ms as int + 1000,
{
    let q = ms / 1000;
    let r = ms % 1000;
    assert(ms == q * 1000 + r);
    assert(cpu_seconds(ms) as int == q + (if r > 0 { 1int } else { 0int }) + 1);
    assert((q + (if r > 0 { 1int } else { 0int }) + 1) * 1000 >= q * 1000 + r + 1000) by (nonlinear_arith)
        requires
            0 <= r < 1000,
            q >= 0,
    ;
}

} // verus!
