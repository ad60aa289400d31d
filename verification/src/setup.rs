//! Installing the headless browser: where its release is downloaded from,
//! how the archive is unpacked, and which binary is run.

use vstd::prelude::*;
use crate::disk::{probe_exists, ExistsProbe};
use crate::path::{join_paths, path_join};
use crate::text::{owned, push_str, chars_to_string, str_eq};

verus! {

/// The browser release that is installed.
pub fn obscura_version() -> (res: &'static str)
    ensures
        res@ == "v0.1.5"@,
{
    "v0.1.5"
}

/// The archive extension for an operating system: `.zip` on Windows,
/// `.tar.gz` elsewhere.
pub open spec fn archive_ext(os: Seq<char>) -> Seq<char> {
    if os == "windows"@ { ".zip"@ } else { ".tar.gz"@ }
}

/// The download URL of a browser release for a platform.
pub fn release_url(version: &str, os: &str, arch: &str) -> (res: String)
    ensures
        res@ == "https://github.com/h4ckf0r0day/obscura/releases/download/"@ + version@ + "/obscura-"@ + arch@
            + "-"@ + os@ + archive_ext(os@),
{
    let mut v: Vec<char> = Vec::new();
    push_str(&mut v, "https://github.com/h4ckf0r0day/obscura/releases/download/");
    push_str(&mut v, version);
    push_str(&mut v, "/obscura-");
    push_str(&mut v, arch);
    push_str(&mut v, "-");
    push_str(&mut v, os);
    if str_eq(os, "windows") {
        push_str(&mut v, ".zip");
    } else {
        push_str(&mut v, ".tar.gz");
    }
    assert(v@ =~= "https://github.com/h4ckf0r0day/obscura/releases/download/"@ + version@ + "/obscura-"@ + arch@
        + "-"@ + os@ + archive_ext(os@));
    chars_to_string(v.as_slice())
}

/// The archive extension for an operating system.
pub fn archive_extension(os: &str) -> (res: &'static str)
    ensures
        res@ == archive_ext(os@),
{
    if str_eq(os, "windows") { ".zip" } else { ".tar.gz" }
}

/// The browser binary's file name on an operating system.
pub open spec fn binary_file(os: Seq<char>) -> Seq<char> {
    if os == "windows"@ { "obscura.exe"@ } else { "obscura"@ }
}

/// The browser binary's file name for an operating system.
pub fn binary_name(os: &str) -> (res: &'static str)
    ensures
        res@ == binary_file(os@),
{
    if str_eq(os, "windows") { "obscura.exe" } else { "obscura" }
}

/// The `tar` arguments that unpack `archive` into `dest`: plain extraction
/// on Windows, gzip extraction elsewhere.
pub fn extract_args(archive: &str, dest: &str, os: &str) -> (res: Vec<String>)
    ensures
        res@.len() == 4,
        res@[0]@ == (if os@ == "windows"@ { "xf"@ } else { "xzf"@ }),
        res@[1]@ == archive@,
        res@[2]@ == "-C"@,
        res@[3]@ == dest@,
{
    let mut v: Vec<String> = Vec::new();
    if str_eq(os, "windows") {
        v.push(owned("xf"));
    } else {
        v.push(owned("xzf"));
    }
    v.push(owned(archive));
    v.push(owned("-C"));
    v.push(owned(dest));
    v
}

/// The browser binary to run: the locally installed one when it exists,
/// else `obscura` from the search path.
pub fn choose_binary(local: String, local_exists: bool) -> (res: String)
    ensures
        local_exists ==> res == local,
        !local_exists ==> res@ == "obscura"@,
{
    if local_exists { local } else { owned("obscura") }
}

/// Where a locally installed browser binary lives: `bin/` under the data
/// directory.
pub open spec fn local_binary(data_dir: Seq<char>, os: Seq<char>) -> Seq<char> {
    path_join(path_join(data_dir, "bin"@), binary_file(os))
}

/// The browser binary to run: the one installed under `data_dir/bin` when
/// the disk says that file exists, else `obscura` from the search path.
pub fn obscura_bin(data_dir: &str, os: &str) -> (res: String)
    ensures
        exists|ep: ExistsProbe| ep.asked() == local_binary(data_dir@, os@)
            && res@ == (if #[trigger] ep.present() { local_binary(data_dir@, os@) } else { "obscura"@ }),
{
    let bin = join_paths(data_dir, "bin");
    let local = join_paths(bin.as_str(), binary_name(os));
    let ghost l = local@;
    let ep = probe_exists(local.clone());
    let present = ep.answer();
    let res = choose_binary(local, present);
    assert(ep.asked() == l && res@ == (if ep.present() { l } else { "obscura"@ }));
    res
}

/// The platform names of release archives for a target operating system
/// and architecture (as `std::env::consts` spells them): `macos` and `linux`
/// keep their names and any other system is `windows`; `aarch64` keeps its
/// name and any other architecture is `x86_64`.
pub fn detect_platform(target_os: &str, target_arch: &str) -> (res: (&'static str, &'static str))
    ensures
        res.0@ == (if target_os@ == "macos"@ {
            "macos"@
        } else if target_os@ == "linux"@ {
            "linux"@
        } else {
            "windows"@
        }),
        res.1@ == (if target_arch@ == "aarch64"@ { "aarch64"@ } else { "x86_64"@ }),
{
    let os = if str_eq(target_os, "macos") {
        "macos"
    } else if str_eq(target_os, "linux") {
        "linux"
    } else {
        "windows"
    };
    let arch = if str_eq(target_arch, "aarch64") { "aarch64" } else { "x86_64" };
    (os, arch)
}

} // verus!
