use cage_bro::e2b::parse_id;
use cage_bro::ids::chrono_now;
use cage_bro::runtime::{copy_action, destroy_target, exec_outcome, timeout_note, ChildEnd, CopyAction, ProcessRuntime};
use cage_bro::sandbox::{ExecCommand, RuntimeError, SandboxConfig, SandboxState, Snapshot};

fn config(ws: Option<&str>) -> SandboxConfig {
    let mut c = SandboxConfig::default();
    c.workspace_dir = ws.map(|s| s.to_string());
    c
}

fn uuid_text(id: u128) -> String {
    uuid::Uuid::from_u128(id).to_string()
}

#[test]
fn uuid_text_form() {
    assert_eq!(
        RuntimeError::NotFound(0).message(),
        "sandbox not found: 00000000-0000-0000-0000-000000000000"
    );
    assert_eq!(parse_id("550e8400-e29b-41d4-a716-446655440000"), Some(0x550e8400e29b41d4a716446655440000));
    assert_eq!(parse_id("not-a-uuid"), None);
    let mut rt = ProcessRuntime::with_base_dir("/var/cage".to_string());
    let id = rt.create(SandboxConfig::default()).id;
    assert_eq!((id >> 76) & 0xf, 4);
    assert_eq!((id >> 62) & 0x3, 2);
    assert_eq!(parse_id(&uuid_text(id)), Some(id));
}

#[test]
fn timestamps_are_decimal_seconds() {
    let t = chrono_now();
    assert!(!t.is_empty());
    assert!(t.chars().all(|c| c.is_ascii_digit()));
}

#[test]
fn default_sandbox_config() {
    let c = SandboxConfig::default();
    assert_eq!(c.memory_limit_mb, Some(512));
    assert_eq!(c.cpu_limit_percent, Some(50));
    assert_eq!(c.disk_limit_mb, Some(1024));
    assert!(c.network_enabled);
    assert_eq!(c.workspace_dir, None);
}

#[test]
fn runtime_error_messages() {
    assert_eq!(RuntimeError::CreationFailed("x".into()).message(), "sandbox creation failed: x");
    assert_eq!(RuntimeError::ExecutionFailed("x".into()).message(), "execution failed: x");
    assert_eq!(
        RuntimeError::NotFound(0x550e8400e29b41d4a716446655440000).message(),
        "sandbox not found: 550e8400-e29b-41d4-a716-446655440000"
    );
    assert_eq!(RuntimeError::DestroyFailed("x".into()).message(), "destroy failed: x");
    assert_eq!(RuntimeError::SnapshotFailed("x".into()).message(), "snapshot failed: x");
    assert_eq!(RuntimeError::RestoreFailed("x".into()).message(), "restore failed: x");
}

#[test]
fn create_get_list_destroy() {
    let mut rt = ProcessRuntime::with_base_dir("/var/cage".to_string());
    assert_eq!(rt.base_dir(), "/var/cage");
    assert!(rt.list().is_empty());
    let a = rt.create(config(Some("/w/a")));
    let b = rt.create(config(None));
    assert_eq!(a.state, SandboxState::Running);
    assert_ne!(a.id, b.id);
    assert_eq!(rt.get(a.id).unwrap().config.workspace_dir, Some("/w/a".to_string()));
    let mut ids: Vec<u128> = rt.list().iter().map(|s| s.id).collect();
    ids.sort();
    let mut want = vec![a.id, b.id];
    want.sort();
    assert_eq!(ids, want);
    assert_eq!(rt.destroy(&a), None);
    assert!(rt.get(a.id).is_none());
    assert!(rt.get(b.id).is_some());
    assert_eq!(rt.list().len(), 1);
    assert_eq!(rt.destroy(&a), None);
}

#[test]
fn snapshot_without_workspace_fails() {
    let mut rt = ProcessRuntime::with_base_dir("/var/cage".to_string());
    let s = rt.create(config(None));
    match rt.begin_snapshot(&s) {
        Err(e) => assert_eq!(e.message(), "snapshot failed: sandbox has no workspace_dir to snapshot"),
        Ok(_) => panic!("snapshot of a sandbox without workspace"),
    }
}

#[test]
fn snapshot_then_restore_keeps_config() {
    let mut rt = ProcessRuntime::with_base_dir("/var/cage".to_string());
    let mut c = config(Some("/w/a"));
    c.memory_limit_mb = Some(256);
    c.cpu_limit_percent = Some(25);
    c.network_enabled = false;
    let s = rt.create(c);
    let (sid, source, dest) = rt.begin_snapshot(&s).unwrap();
    assert_eq!(source, "/w/a");
    assert_eq!(dest, format!("/var/cage/.cage-bro/snapshots/{}", uuid_text(sid)));
    let snap = rt.finish_snapshot(sid, &s, source.clone(), dest.clone());
    assert_eq!(snap.id, sid);
    assert_eq!(snap.sandbox_id, s.id);
    assert_eq!(snap.metadata, vec![("source".to_string(), "/w/a".to_string())]);

    let (record, rid, rdest) = rt.begin_restore(&snap).unwrap();
    assert_eq!(record.path, dest);
    assert_eq!(rdest, format!("/var/cage/.cage-bro/restored/{}", uuid_text(rid)));
    let restored = rt.finish_restore(&record, rid, rdest.clone());
    assert_eq!(restored.id, rid);
    assert_eq!(restored.state, SandboxState::Running);
    assert_eq!(restored.config.memory_limit_mb, Some(256));
    assert_eq!(restored.config.cpu_limit_percent, Some(25));
    assert!(!restored.config.network_enabled);
    assert_eq!(restored.config.disk_limit_mb, Some(1024));
    assert_ne!(restored.config.workspace_dir, s.config.workspace_dir);
    assert_eq!(restored.config.workspace_dir, Some(rdest.clone()));
    assert_eq!(rt.get(rid).unwrap().config.workspace_dir, Some(rdest.clone()));

    // a restored tree is handed back for removal; the first sandbox's workspace is not
    assert_eq!(rt.destroy(&restored), Some(rdest));
    assert_eq!(rt.destroy(&s), None);
}

#[test]
fn restore_of_unknown_snapshot_fails() {
    let rt = ProcessRuntime::with_base_dir("/var/cage".to_string());
    let snap = Snapshot { id: 1, sandbox_id: 2, created_at: "0".into(), metadata: Vec::new() };
    match rt.begin_restore(&snap) {
        Err(e) => assert_eq!(e.message(), "restore failed: unknown snapshot: 00000000-0000-0000-0000-000000000001"),
        Ok(_) => panic!("unknown snapshot restored"),
    }
}

#[test]
fn destroy_keeps_untracked_restore_dirs() {
    let mut rt = ProcessRuntime::with_base_dir("/var/cage".to_string());
    let s = rt.create(config(Some("/var/cage/.cage-bro/restored/x")));
    assert_eq!(rt.destroy(&s), Some("/var/cage/.cage-bro/restored/x".to_string()));
    // not tracked any more: nothing to remove
    assert_eq!(rt.destroy(&s), None);
    let t = rt.create(config(Some("/var/cage/.cage-bro/restored-other/x")));
    assert_eq!(rt.destroy(&t), None);
}

#[test]
fn exec_plan_prefers_command_directory() {
    let mut rt = ProcessRuntime::with_base_dir("/var/cage".to_string());
    let s = rt.create(config(Some("/w/a")));
    let mut cmd = ExecCommand { program: "ls".into(), args: vec![], env: vec![], working_dir: None, timeout_ms: Some(5000) };
    let (iso, dir) = ProcessRuntime::exec_plan(&s, &cmd);
    assert_eq!(dir, Some("/w/a".to_string()));
    assert_eq!(iso.cpu_secs(), Some(6));
    assert_eq!(iso.mem_bytes(), Some(512 * 1048576));
    cmd.working_dir = Some("/w/a/sub".into());
    let (_, dir) = ProcessRuntime::exec_plan(&s, &cmd);
    assert_eq!(dir, Some("/w/a/sub".to_string()));
}

#[test]
fn exec_outcomes() {
    let r = exec_outcome(ChildEnd::Exited(Some(3)), b"out", b"err", 12).unwrap();
    assert_eq!((r.exit_code, r.stdout.as_str(), r.stderr.as_str(), r.duration_ms), (3, "out", "err", 12));
    let r = exec_outcome(ChildEnd::Exited(None), b"\xffok", b"", 0).unwrap();
    assert_eq!(r.exit_code, -1);
    assert_eq!(r.stdout, "\u{fffd}ok");
    let r = exec_outcome(ChildEnd::TimedOut(1000), b"partial", b"e", 1000).unwrap();
    assert_eq!(r.exit_code, -1);
    assert_eq!(r.stdout, "partial");
    assert_eq!(r.stderr, "e\n[cage-bro] process killed: exceeded timeout of Some(1s)");
    match exec_outcome(ChildEnd::WaitFailed("boom".into()), &[], &[], 0) {
        Err(e) => assert_eq!(e.message(), "execution failed: wait failed: boom"),
        Ok(_) => panic!("a failed wait gave a result"),
    }
}

#[test]
fn tree_copy_skips_only_its_own_destination() {
    let dst = "/w/.cage-bro/snapshots/s1";
    assert_eq!(copy_action("/w/.cage-bro/snapshots/s1", dst, true, false), CopyAction::Skip);
    assert_eq!(copy_action("/w//.cage-bro/snapshots/s1/", dst, true, false), CopyAction::Skip);
    assert_eq!(copy_action("/w/.cage-bro/snapshots", dst, true, false), CopyAction::Descend);
    assert_eq!(copy_action("/w/.cage-bro/snapshots/s10", dst, true, false), CopyAction::Descend);
    assert_eq!(copy_action("/w/keep.txt", dst, false, false), CopyAction::Copy);
    assert_eq!(copy_action("/w/link", dst, false, true), CopyAction::Link);
}

#[test]
fn timeout_notes_name_the_duration() {
    assert_eq!(timeout_note(1000), "\n[cage-bro] process killed: exceeded timeout of Some(1s)");
    assert_eq!(timeout_note(250), "\n[cage-bro] process killed: exceeded timeout of Some(250ms)");
    let r = exec_outcome(ChildEnd::TimedOut(1500), b"", b"", 1500).unwrap();
    assert_eq!(r.stderr, "\n[cage-bro] process killed: exceeded timeout of Some(1.5s)");
}

#[test]
fn only_trees_strictly_below_the_restore_directory_are_removed() {
    let base = Some("/d/.cage-bro/restored".to_string());
    assert_eq!(destroy_target(Some("/d/.cage-bro/restored/x".to_string()), base.clone()), Some("/d/.cage-bro/restored/x".to_string()));
    assert_eq!(destroy_target(Some("/d/.cage-bro/restored".to_string()), base.clone()), None);
    assert_eq!(destroy_target(Some("/d/work".to_string()), base.clone()), None);
    assert_eq!(destroy_target(None, base), None);
    assert_eq!(destroy_target(Some("/d/.cage-bro/restored/x".to_string()), None), None);
}
