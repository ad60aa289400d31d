//! The process runtime's bookkeeping: the registry of sandboxes, the store
//! of snapshots, where snapshot and restore trees live, and which workspace
//! a destroyed sandbox leaves behind for removal. Copying trees and running
//! processes is done by the caller between the steps defined here.

use vstd::prelude::*;
use std::collections::HashMap;
use vstd::std_specs::iter::IteratorSpec;
use crate::ids::{chrono_now, fresh_id, is_v4_id, uuid_string, uuid_text};
use crate::capture::{lossy_text, output_text};
use crate::isolation::Isolation;
use crate::path::{
    comps_start_with, join_paths, lemma_lexical_join_name, lexical, path_join, path_starts_with, paths_equal,
    same_path, strictly_below, is_strictly_below,
};
use crate::sandbox::{
    copy_opt_string, ExecCommand, ExecResult, RuntimeError, Sandbox, SandboxConfig, SandboxState, Snapshot,
};
use crate::text::{chars_to_string, concat_str, decimal, owned, push_str};

verus! {

broadcast use vstd::std_specs::hash::group_hash_axioms;

/// Where snapshot trees are stored, relative to the runtime's base directory.
pub open spec fn snapshot_subdir() -> Seq<char> {
    ".cage-bro/snapshots"@
}

/// Where restored workspaces are materialized, relative to the base directory.
pub open spec fn restore_subdir() -> Seq<char> {
    ".cage-bro/restored"@
}

/// A stored snapshot: the directory holding the captured tree and the
/// configuration of the sandbox it was taken from.
#[derive(Debug)]
pub struct SnapshotRecord {
    pub path: String,
    pub config: SandboxConfig,
}

impl Clone for SnapshotRecord {
    fn clone(&self) -> (res: Self)
        ensures
            res == *self,
    {
        SnapshotRecord { path: self.path.clone(), config: self.config.clone() }
    }
}

/// The directory that a new tree with identifier `id` gets under `sub` of
/// the base directory.
pub open spec fn tree_dir(base: Seq<char>, sub: Seq<char>, id: u128) -> Seq<char> {
    path_join(path_join(base, sub), uuid_text(id))
}

/// `r` is the configuration `c` with only the workspace repointed to
/// `workspace`: what a restored sandbox gets.
pub open spec fn repointed(r: SandboxConfig, c: SandboxConfig, workspace: Seq<char>) -> bool {
    &&& r.memory_limit_mb == c.memory_limit_mb
    &&& r.cpu_limit_percent == c.cpu_limit_percent
    &&& r.disk_limit_mb == c.disk_limit_mb
    &&& r.network_enabled == c.network_enabled
    &&& r.workspace_dir matches Some(w) && w@ == workspace
}

/// The workspace is set and lies (lexically) under the restore directory.
pub open spec fn under_restore_dir(base: Seq<char>, workspace: Option<String>) -> bool {
    match workspace {
        Some(ws) => comps_start_with(lexical(ws@), lexical(path_join(base, restore_subdir()))),
        None => false,
    }
}

/// Registry of sandboxes and snapshots, with the base directory under which
/// snapshot and restore trees live.
pub struct ProcessRuntime {
    sandboxes: HashMap<u128, Sandbox>,
    snapshots: HashMap<u128, SnapshotRecord>,
    base_dir: String,
}

impl ProcessRuntime {
    /// The tracked sandboxes by identifier.
    pub closed spec fn sandbox_map(&self) -> Map<u128, Sandbox> {
        self.sandboxes@
    }

    /// The stored snapshots by identifier.
    pub closed spec fn snapshot_map(&self) -> Map<u128, SnapshotRecord> {
        self.snapshots@
    }

    /// The base directory.
    pub closed spec fn base(&self) -> Seq<char> {
        self.base_dir@
    }

    /// Every sandbox is filed under its own identifier.
    pub open spec fn wf(&self) -> bool {
        forall|k: u128| #[trigger] self.sandbox_map().contains_key(k) ==> self.sandbox_map()[k].id == k
    }

    /// An empty runtime whose trees live under `base_dir`.
    pub fn with_base_dir(base_dir: String) -> (rt: ProcessRuntime)
        ensures
            rt.wf(),
            rt.sandbox_map() == Map::<u128, Sandbox>::empty(),
            rt.snapshot_map() == Map::<u128, SnapshotRecord>::empty(),
            rt.base() == base_dir@,
    {
        ProcessRuntime { sandboxes: HashMap::new(), snapshots: HashMap::new(), base_dir }
    }

    /// The base directory.
    pub fn base_dir(&self) -> (res: &str)
        ensures
            res@ == self.base(),
    {
        self.base_dir.as_str()
    }

    /// Registers a new running sandbox with a fresh identifier.
    pub fn create(&mut self, config: SandboxConfig) -> (res: Sandbox)
        requires
            old(self).wf(),
        ensures
            final(self).wf(),
            res.config == config,
            res.state == SandboxState::Running,
            is_v4_id(res.id),
            exists|secs: u64| res.created_at@ == decimal(secs as nat),
            final(self).sandbox_map() == old(self).sandbox_map().insert(res.id, res),
            final(self).snapshot_map() == old(self).snapshot_map(),
            final(self).base() == old(self).base(),
    {
        let sandbox = Sandbox {
            id: fresh_id(),
            config,
            state: SandboxState::Running,
            created_at: chrono_now(),
        };
        let _ = self.sandboxes.insert(sandbox.id, sandbox.clone());
        sandbox
    }

    /// All tracked sandboxes, each once, in no particular order.
    pub fn list(&self) -> (res: Vec<Sandbox>)
        ensures
            res@.len() == self.sandbox_map().len(),
            res@.to_set() == self.sandbox_map().values(),
    {
        let mut res: Vec<Sandbox> = Vec::new();
        let ghost vals = vstd::std_specs::hash::spec_values_iter(&self.sandboxes).remaining();
        proof {
            vstd::std_specs::hash::axiom_spec_values_iter(&self.sandboxes);
        }
        for s in it: self.sandboxes.values()
            invariant
                it.seq() == vals,
                res@ == vals.take(it.index() as int).map_values(|r: &Sandbox| *r),
        {
            assert(vals.take(it.index() + 1) =~= vals.take(it.index() as int).push(vals[it.index() as int]));
            res.push(s.clone());
            assert(res@ =~= vals.take(it.index() + 1).map_values(|r: &Sandbox| *r));
        }
        assert(vals.take(vals.len() as int) =~= vals);
        assert(res@ =~= vals.unref());
        res
    }

    /// The tracked sandbox with identifier `id`, if any.
    pub fn get(&self, id: u128) -> (res: Option<Sandbox>)
        ensures
            res == (if self.sandbox_map().contains_key(id) {
                Some(self.sandbox_map()[id])
            } else {
                None
            }),
    {
        match self.sandboxes.get(&id) {
            Some(s) => Some(s.clone()),
            None => None,
        }
    }

    /// Stops tracking `sandbox`. Returns its workspace when the sandbox was
    /// tracked and the workspace lies (lexically) under the restore
    /// directory, i.e. is a restored tree the caller may now remove after
    /// confirming it on disk with `is_strictly_below`.
    pub fn destroy(&mut self, sandbox: &Sandbox) -> (res: Option<String>)
        requires
            old(self).wf(),
        ensures
            final(self).wf(),
            final(self).sandbox_map() == old(self).sandbox_map().remove(sandbox.id),
            final(self).snapshot_map() == old(self).snapshot_map(),
            final(self).base() == old(self).base(),
            res is Some <==> old(self).sandbox_map().contains_key(sandbox.id) && under_restore_dir(
                old(self).base(),
                sandbox.config.workspace_dir,
            ),
            res matches Some(ws) ==> sandbox.config.workspace_dir == Some(ws),
    {
        let removed = self.sandboxes.remove(&sandbox.id);
        if removed.is_none() {
            return None;
        }
        match &sandbox.config.workspace_dir {
            Some(ws) => {
                let restore_base = join_paths(self.base_dir.as_str(), ".cage-bro/restored");
                if path_starts_with(ws.as_str(), restore_base.as_str()) {
                    Some(ws.clone())
                } else {
                    None
                }
            },
            None => None,
        }
    }

    /// First step of a snapshot: the workspace to capture and the directory
    /// to capture it to (a fresh identifier under the snapshot directory).
    /// Fails when the sandbox has no workspace.
    pub fn begin_snapshot(&self, sandbox: &Sandbox) -> (res: Result<(u128, String, String), RuntimeError>)
        ensures
            res is Err <==> sandbox.config.workspace_dir is None,
            res matches Err(e) ==> (e matches RuntimeError::SnapshotFailed(m)
                && m@ == "sandbox has no workspace_dir to snapshot"@),
            res matches Ok(t) ==> (sandbox.config.workspace_dir == Some(t.1)
                && t.2@ == tree_dir(self.base(), snapshot_subdir(), t.0) && is_v4_id(t.0)),
    {
        match &sandbox.config.workspace_dir {
            None => Err(RuntimeError::SnapshotFailed(owned("sandbox has no workspace_dir to snapshot"))),
            Some(ws) => {
                let id = fresh_id();
                let dir = join_paths(self.base_dir.as_str(), ".cage-bro/snapshots");
                let name = uuid_string(id);
                let dest = join_paths(dir.as_str(), name.as_str());
                Ok((id, ws.clone(), dest))
            },
        }
    }

    /// Last step of a snapshot, once the tree is copied: records the
    /// snapshot with the sandbox's configuration and returns its description
    /// (metadata `source` = the captured workspace).
    pub fn finish_snapshot(&mut self, id: u128, sandbox: &Sandbox, source: String, dest: String) -> (res: Snapshot)
        requires
            old(self).wf(),
        ensures
            final(self).wf(),
            final(self).sandbox_map() == old(self).sandbox_map(),
            final(self).base() == old(self).base(),
            final(self).snapshot_map() == old(self).snapshot_map().insert(
                id,
                SnapshotRecord { path: dest, config: sandbox.config },
            ),
            res.id == id,
            res.sandbox_id == sandbox.id,
            exists|secs: u64| res.created_at@ == decimal(secs as nat),
            res.metadata@.len() == 1,
            res.metadata@[0].0@ == "source"@,
            res.metadata@[0].1 == source,
    {
        let record = SnapshotRecord { path: dest, config: sandbox.config.clone() };
        let _ = self.snapshots.insert(id, record);
        let mut metadata: Vec<(String, String)> = Vec::new();
        metadata.push((owned("source"), source));
        Snapshot { id, sandbox_id: sandbox.id, created_at: chrono_now(), metadata }
    }

    /// First step of a restore: the stored record of `snapshot`, a fresh
    /// identifier, and the directory to materialize the tree in. Fails with
    /// `RestoreFailed("unknown snapshot: <id>")` for an unknown snapshot.
    pub fn begin_restore(&self, snapshot: &Snapshot) -> (res: Result<(SnapshotRecord, u128, String), RuntimeError>)
        ensures
            res is Ok <==> self.snapshot_map().contains_key(snapshot.id),
            res matches Err(e) ==> (e matches RuntimeError::RestoreFailed(m)
                && m@ == "unknown snapshot: "@ + uuid_text(snapshot.id)),
            res matches Ok(t) ==> (t.0 == self.snapshot_map()[snapshot.id]
                && t.2@ == tree_dir(self.base(), restore_subdir(), t.1) && is_v4_id(t.1)),
    {
        match self.snapshots.get(&snapshot.id) {
            None => {
                let t = uuid_string(snapshot.id);
                Err(RuntimeError::RestoreFailed(concat_str("unknown snapshot: ", t.as_str())))
            },
            Some(r) => {
                let record = r.clone();
                let id = fresh_id();
                let dir = join_paths(self.base_dir.as_str(), ".cage-bro/restored");
                let name = uuid_string(id);
                let dest = join_paths(dir.as_str(), name.as_str());
                Ok((record, id, dest))
            },
        }
    }

    /// Last step of a restore, once the tree is copied: registers a running
    /// sandbox with the snapshotted configuration repointed to the restored
    /// tree.
    pub fn finish_restore(&mut self, record: &SnapshotRecord, id: u128, dest: String) -> (res: Sandbox)
        requires
            old(self).wf(),
        ensures
            final(self).wf(),
            res.id == id,
            res.state == SandboxState::Running,
            repointed(res.config, record.config, dest@),
            exists|secs: u64| res.created_at@ == decimal(secs as nat),
            final(self).sandbox_map() == old(self).sandbox_map().insert(id, res),
            final(self).snapshot_map() == old(self).snapshot_map(),
            final(self).base() == old(self).base(),
    {
        let mut config = record.config.clone();
        config.workspace_dir = Some(dest);
        let sandbox = Sandbox { id, config, state: SandboxState::Running, created_at: chrono_now() };
        let _ = self.sandboxes.insert(id, sandbox.clone());
        sandbox
    }

    /// The isolation policy and working directory for running `cmd` in
    /// `sandbox`: the command's own directory, else the sandbox workspace.
    pub fn exec_plan(sandbox: &Sandbox, cmd: &ExecCommand) -> (res: (Isolation, Option<String>))
        ensures
            res.0.derived_from(sandbox.config, cmd.timeout_ms),
            res.1 == (if cmd.working_dir is Some { cmd.working_dir } else { sandbox.config.workspace_dir }),
    {
        let iso = Isolation::from_config(&sandbox.config, cmd.timeout_ms);
        let dir = match &cmd.working_dir {
            Some(d) => Some(d.clone()),
            None => copy_opt_string(&sandbox.config.workspace_dir),
        };
        (iso, dir)
    }
}

/// How a sandboxed child ended, as the runner saw it.
#[derive(Debug)]
pub enum ChildEnd {
    /// It exited; the exit code, none when a signal ended it.
    Exited(Option<i32>),
    /// The timeout, in milliseconds, expired and its process group was killed.
    TimedOut(u64),
    /// Waiting for it failed, with the error's text.
    WaitFailed(String),
}

/// The tree that destroying a sandbox removes, from the real (canonical)
/// forms of the workspace that `ProcessRuntime::destroy` named and of the
/// restore directory: the workspace when both are known and the workspace
/// lies strictly below the restore directory; nothing otherwise, so the
/// restore directory itself and anything outside it are never removed.
pub fn destroy_target(canonical_ws: Option<String>, canonical_base: Option<String>) -> (res: Option<String>)
    ensures
        match (canonical_ws, canonical_base) {
            (Some(w), Some(b)) => if strictly_below(w@, b@) { res == Some(w) } else { res is None },
            _ => res is None,
        },
{
    match (canonical_ws, canonical_base) {
        (Some(w), Some(b)) => {
            if is_strictly_below(w.as_str(), b.as_str()) { Some(w) } else { None }
        },
        _ => None,
    }
}

/// `std`'s `Debug` rendering of `Duration::from_millis(ms)`, such as `1s`
/// or `250ms`.
pub uninterp spec fn duration_debug_text(ms: u64) -> Seq<char>;

/// Renders `Duration::from_millis(ms)` with `Debug`. Trusted: the result is
/// `duration_debug_text` of `ms`.
#[verifier::external_body]
fn debug_duration_ms(ms: u64) -> (res: String)
    ensures
        res@ == duration_debug_text(ms),
{
    format!("{:?}", std::time::Duration::from_millis(ms))
}

/// The line appended to the error stream of a command that a timeout of `ms`
/// milliseconds ended.
pub open spec fn timeout_note_text(ms: u64) -> Seq<char> {
    "\n[cage-bro] process killed: exceeded timeout of Some("@ + duration_debug_text(ms) + ")"@
}

/// The note for a command that a timeout of `ms` milliseconds ended.
pub fn timeout_note(ms: u64) -> (res: String)
    ensures
        res@ == timeout_note_text(ms),
{
    let d = debug_duration_ms(ms);
    let mut v: Vec<char> = Vec::new();
    push_str(&mut v, "\n[cage-bro] process killed: exceeded timeout of Some(");
    push_str(&mut v, d.as_str());
    push_str(&mut v, ")");
    assert(v@ =~= timeout_note_text(ms));
    chars_to_string(v.as_slice())
}

/// The result of a command from how the child ended and its captured
/// output bytes: the exit code (-1 when a signal or the timeout ended it),
/// the output decoded (`lossy_text`) with the timeout note appended to the
/// error stream on a timeout; an error when waiting for the child failed.
pub fn exec_outcome(end: ChildEnd, stdout: &[u8], stderr: &[u8], duration_ms: u64) -> (res: Result<ExecResult, RuntimeError>)
    ensures
        match end {
            ChildEnd::Exited(code) => res matches Ok(r) && r.exit_code == (match code {
                Some(c) => c,
                None => -1i32,
            }) && r.stdout@ == lossy_text(stdout@) && r.stderr@ == lossy_text(stderr@) && r.duration_ms == duration_ms,
            ChildEnd::TimedOut(ms) => res matches Ok(r) && r.exit_code == -1 && r.stdout@ == lossy_text(stdout@)
                && r.stderr@ == lossy_text(stderr@) + timeout_note_text(ms) && r.duration_ms == duration_ms,
            ChildEnd::WaitFailed(m) => res matches Err(RuntimeError::ExecutionFailed(t))
                && t@ == "wait failed: "@ + m@,
        },
{
    match end {
        ChildEnd::Exited(code) => {
            let exit_code: i32 = match code {
                Some(c) => c,
                None => -1,
            };
            Ok(ExecResult { exit_code, stdout: output_text(stdout), stderr: output_text(stderr), duration_ms })
        },
        ChildEnd::TimedOut(ms) => {
            let err = output_text(stderr);
            let note = timeout_note(ms);
            let err = concat_str(err.as_str(), note.as_str());
            Ok(ExecResult { exit_code: -1, stdout: output_text(stdout), stderr: err, duration_ms })
        },
        ChildEnd::WaitFailed(m) => Err(RuntimeError::ExecutionFailed(concat_str("wait failed: ", m.as_str()))),
    }
}

/// What copying a workspace tree does with one directory entry.
#[derive(Debug, Clone, Copy, PartialEq, Eq, Structural)]
pub enum CopyAction {
    /// Leave it out: it is the destination itself, nested in the source.
    Skip,
    /// Copy the directory's contents recursively.
    Descend,
    /// Recreate the symbolic link, without following it.
    Link,
    /// Copy the file.
    Copy,
}

/// The action for the entry at `entry_path` while copying a tree into
/// `dst_root`: the destination itself is skipped (so a destination nested in
/// the source is not copied into itself), directories are descended into,
/// symbolic links are recreated and other files copied.
pub fn copy_action(entry_path: &str, dst_root: &str, is_dir: bool, is_symlink: bool) -> (res: CopyAction)
    ensures
        res == (if same_path(entry_path@, dst_root@) {
            CopyAction::Skip
        } else if is_dir {
            CopyAction::Descend
        } else if is_symlink {
            CopyAction::Link
        } else {
            CopyAction::Copy
        }),
{
    if paths_equal(entry_path, dst_root) {
        CopyAction::Skip
    } else if is_dir {
        CopyAction::Descend
    } else if is_symlink {
        CopyAction::Link
    } else {
        CopyAction::Copy
    }
}

/// A sandbox that was just created or restored is found by its identifier.
pub proof fn lemma_registered_sandbox_found(before: Map<u128, Sandbox>, after: Map<u128, Sandbox>, sb: Sandbox)
    requires
        after == before.insert(sb.id, sb),
    ensures
        after.contains_key(sb.id),
        after[sb.id] == sb,
        forall|k: u128| k != sb.id ==> (after.contains_key(k) == before.contains_key(k)),
{
}

/// A destroyed sandbox is no longer found; the others stay.
pub proof fn lemma_destroyed_sandbox_gone(before: Map<u128, Sandbox>, after: Map<u128, Sandbox>, id: u128)
    requires
        after == before.remove(id),
    ensures
        !after.contains_key(id),
        forall|k: u128| k != id ==> (after.contains_key(k) == before.contains_key(k)),
{
}

/// A sandbox restored from a snapshot keeps the resource limits and network
/// setting of the sandbox the snapshot was taken from (they are not reset to
/// the defaults); only its workspace is the restored tree. The steps are those
/// of `finish_snapshot`, `begin_restore` and `finish_restore`.
pub proof fn lemma_restore_keeps_configuration(
    snapshots_before: Map<u128, SnapshotRecord>,
    snapshots_after: Map<u128, SnapshotRecord>,
    snapshot_id: u128,
    source: Sandbox,
    tree: String,
    record: SnapshotRecord,
    restored: Sandbox,
    restored_tree: Seq<char>,
)
    requires
        snapshots_after == snapshots_before.insert(snapshot_id, SnapshotRecord { path: tree, config: source.config }),
        record == snapshots_after[snapshot_id],
        repointed(restored.config, record.config, restored_tree),
    ensures
        restored.config.memory_limit_mb == source.config.memory_limit_mb,
        restored.config.cpu_limit_percent == source.config.cpu_limit_percent,
        restored.config.disk_limit_mb == source.config.disk_limit_mb,
        restored.config.network_enabled == source.config.network_enabled,
        restored.config.workspace_dir matches Some(w) && w@ == restored_tree,
        record.path == tree,
{
}

/// A restored sandbox gets a workspace of its own: the directory named by
/// its fresh identifier strictly below the restore directory, which therefore
/// differs from the workspace of the sandbox the snapshot was taken from
/// unless that one itself lies below the restore directory. The steps are
/// those of `finish_snapshot` (the record keeps the source's configuration),
/// `begin_restore` (the tree's directory) and `finish_restore`.
pub proof fn lemma_restored_workspace_is_new(
    base: Seq<char>,
    id: u128,
    source: Sandbox,
    record: SnapshotRecord,
    restored: Sandbox,
)
    requires
        record.config == source.config,
        repointed(restored.config, record.config, tree_dir(base, restore_subdir(), id)),
        !(source.config.workspace_dir matches Some(w) && strictly_below(w@, path_join(base, restore_subdir()))),
    ensures
        restored.config.workspace_dir matches Some(w) && strictly_below(w@, path_join(base, restore_subdir())),
        restored.config.workspace_dir != source.config.workspace_dir,
{
    crate::ids::lemma_uuid_text_is_name(id);
    lemma_lexical_join_name(path_join(base, restore_subdir()), uuid_text(id));
}

} // verus!
