use cage_bro::capture::{capture_chunk, MAX_CAPTURE_BYTES};
use cage_bro::isolation::{Isolation, RlimitResource, ACCESS_FS_ALL, ACCESS_FS_RO, OPEN_FILES_LIMIT};
use cage_bro::sandbox::SandboxConfig;

fn config(mem: Option<u64>, disk: Option<u64>, ws: Option<&str>) -> SandboxConfig {
    SandboxConfig {
        memory_limit_mb: mem,
        cpu_limit_percent: Some(50),
        disk_limit_mb: disk,
        network_enabled: true,
        workspace_dir: ws.map(|s| s.to_string()),
    }
}

#[test]
fn limits_from_config() {
    let iso = Isolation::from_config(&config(Some(512), Some(1024), Some("/w")), Some(30000));
    assert_eq!(iso.mem_bytes(), Some(512 * 1024 * 1024));
    assert_eq!(iso.fsize_bytes(), Some(1024 * 1024 * 1024));
    assert_eq!(iso.cpu_secs(), Some(31));
}

#[test]
fn cpu_ceiling_rounds_up() {
    let c = config(None, None, None);
    assert_eq!(Isolation::from_config(&c, Some(1)).cpu_secs(), Some(2));
    assert_eq!(Isolation::from_config(&c, Some(1000)).cpu_secs(), Some(2));
    assert_eq!(Isolation::from_config(&c, Some(1001)).cpu_secs(), Some(3));
    assert_eq!(Isolation::from_config(&c, Some(0)).cpu_secs(), Some(1));
    assert_eq!(Isolation::from_config(&c, None).cpu_secs(), None);
}

#[test]
fn huge_limits_saturate() {
    let iso = Isolation::from_config(&config(Some(u64::MAX), Some(1 << 50), None), None);
    assert_eq!(iso.mem_bytes(), Some(u64::MAX));
    assert_eq!(iso.fsize_bytes(), Some(u64::MAX));
}

#[test]
fn rlimits_in_order() {
    let iso = Isolation::from_config(&config(Some(1), None, None), Some(2500));
    assert_eq!(
        iso.rlimits(),
        vec![
            (RlimitResource::AddressSpace, 1048576),
            (RlimitResource::CpuTime, 4),
            (RlimitResource::OpenFiles, OPEN_FILES_LIMIT),
        ]
    );
    let bare = Isolation::from_config(&config(None, None, None), None);
    assert_eq!(bare.rlimits(), vec![(RlimitResource::OpenFiles, 1024)]);
}

#[test]
fn landlock_rules_grant_workspace_last() {
    let iso = Isolation::from_config(&config(None, None, Some("/srv/ws")), None);
    let rules = iso.landlock_rules();
    assert_eq!(rules.len(), 17);
    assert_eq!(rules[0], ("/usr".to_string(), ACCESS_FS_RO));
    assert_eq!(rules[8], ("/sys".to_string(), ACCESS_FS_RO));
    assert_eq!(rules[9], ("/tmp".to_string(), ACCESS_FS_ALL));
    assert_eq!(rules[16], ("/srv/ws".to_string(), ACCESS_FS_ALL));
    let none = Isolation::from_config(&config(None, None, None), None).landlock_rules();
    assert_eq!(none.len(), 16);
    assert_eq!(none[15], ("/dev/tty".to_string(), ACCESS_FS_ALL));
}

#[test]
fn access_masks() {
    assert_eq!(ACCESS_FS_RO, 13);
    assert_eq!(ACCESS_FS_ALL, 8191);
    assert_eq!(ACCESS_FS_RO & ACCESS_FS_ALL, ACCESS_FS_RO);
}

#[test]
fn capture_stops_at_cap() {
    let mut buf = Vec::new();
    assert!(capture_chunk(&mut buf, b"hello", 8));
    assert_eq!(buf, b"hello");
    assert!(!capture_chunk(&mut buf, b" world", 8));
    assert_eq!(buf, b"hello wo");
    assert!(!capture_chunk(&mut buf, b"more", 8));
    assert_eq!(buf, b"hello wo");
}

#[test]
fn capture_exact_fit_reports_full() {
    let mut buf = Vec::new();
    assert!(!capture_chunk(&mut buf, b"abcd", 4));
    assert_eq!(buf, b"abcd");
    assert_eq!(MAX_CAPTURE_BYTES, 10 * 1024 * 1024);
}
