//! Code execution: languages, results and errors, and the Jupyter kernel
//! bookkeeping that does not need a running kernel (which interpreter starts
//! a kernel, its connection settings, how a kernel's reply becomes a result).

use vstd::prelude::*;
use crate::ids::{uuid_string, uuid_text};
use crate::text::{chars_to_string, concat_str, decimal, owned, push_decimal, push_str, str_chars, str_eq};

verus! {

/// Errors of code execution.
#[derive(Debug, Clone)]
pub enum CodeError {
    ExecutionFailed(String),
    Timeout(u64),
    RuntimeNotFound(String),
    KernelError(String),
}

/// The display text of a code error.
pub open spec fn code_error_text(e: CodeError) -> Seq<char> {
    match e {
        CodeError::ExecutionFailed(s) => "execution failed: "@ + s@,
        CodeError::Timeout(ms) => "timeout after "@ + decimal(ms as nat) + "ms"@,
        CodeError::RuntimeNotFound(s) => "runtime not found: "@ + s@,
        CodeError::KernelError(s) => "kernel error: "@ + s@,
    }
}

impl CodeError {
    /// The human-readable message of this error.
    pub fn message(&self) -> (res: String)
        ensures
            res@ == code_error_text(*self),
    {
        match self {
            CodeError::ExecutionFailed(s) => concat_str("execution failed: ", s.as_str()),
            CodeError::Timeout(ms) => {
                let mut v: Vec<char> = Vec::new();
                push_str(&mut v, "timeout after ");
                push_decimal(&mut v, *ms);
                push_str(&mut v, "ms");
                assert(v@ =~= "timeout after "@ + decimal(*ms as nat) + "ms"@);
                chars_to_string(v.as_slice())
            },
            CodeError::RuntimeNotFound(s) => concat_str("runtime not found: ", s.as_str()),
            CodeError::KernelError(s) => concat_str("kernel error: ", s.as_str()),
        }
    }
}

/// A programming language.
#[derive(Debug, Clone, Copy, PartialEq, Eq, Structural)]
pub enum Language {
    Python,
    Node,
    Ruby,
    Shell,
}

impl Language {
    /// The language's name as its variant is spelled.
    pub fn name(&self) -> (res: &'static str)
        ensures
            res@ == (match *self {
                Language::Python => "Python"@,
                Language::Node => "Node"@,
                Language::Ruby => "Ruby"@,
                Language::Shell => "Shell"@,
            }),
    {
        match self {
            Language::Python => "Python",
            Language::Node => "Node",
            Language::Ruby => "Ruby",
            Language::Shell => "Shell",
        }
    }
}

/// A request to run code without state.
#[derive(Debug, Clone)]
pub struct CodeRequest {
    pub language: Language,
    pub code: String,
    pub timeout_ms: Option<u64>,
}

/// A file produced by code.
#[derive(Debug, Clone)]
pub struct Artifact {
    pub name: String,
    pub mime_type: String,
    pub data: Vec<u8>,
}

/// The outcome of running code.
#[derive(Debug, Clone)]
pub struct CodeResult {
    pub stdout: String,
    pub stderr: String,
    pub exit_code: i32,
    pub duration_ms: u64,
    pub artifacts: Vec<Artifact>,
}

/// The state of a kernel.
#[derive(Debug, Clone, Copy, PartialEq, Eq, Structural)]
pub enum KernelStatus {
    Starting,
    Ready,
    Busy,
    Dead,
}

impl KernelStatus {
    /// The status's name as its variant is spelled.
    pub fn name(&self) -> (res: &'static str)
        ensures
            res@ == (match *self {
                KernelStatus::Starting => "Starting"@,
                KernelStatus::Ready => "Ready"@,
                KernelStatus::Busy => "Busy"@,
                KernelStatus::Dead => "Dead"@,
            }),
    {
        match self {
            KernelStatus::Starting => "Starting",
            KernelStatus::Ready => "Ready",
            KernelStatus::Busy => "Busy",
            KernelStatus::Dead => "Dead",
        }
    }
}

/// A running kernel.
#[derive(Debug, Clone)]
pub struct KernelInfo {
    pub id: String,
    pub language: Language,
    pub status: KernelStatus,
}

/// The interpreter that runs a kernel for `language`: `python3` for
/// `python`; any other language has no runtime.
pub fn kernel_program(language: &str) -> (res: Result<&'static str, CodeError>)
    ensures
        language@ == "python"@ ==> (res matches Ok(p) && p@ == "python3"@),
        language@ != "python"@ ==> (res matches Err(CodeError::RuntimeNotFound(l)) && l@ == language@),
{
    if str_eq(language, "python") {
        Ok("python3")
    } else {
        Err(CodeError::RuntimeNotFound(owned(language)))
    }
}

/// The description of a kernel just started for `id`.
pub fn started_kernel(id: String) -> (res: KernelInfo)
    ensures
        res.id == id,
        res.language == Language::Python,
        res.status == KernelStatus::Ready,
{
    KernelInfo { id, language: Language::Python, status: KernelStatus::Ready }
}

/// `s` without any `c`.
pub open spec fn without_char(s: Seq<char>, c: char) -> Seq<char>
    decreases s.len(),
{
    if s.len() == 0 {
        seq![]
    } else if s.last() == c {
        without_char(s.drop_last(), c)
    } else {
        without_char(s.drop_last(), c).push(s.last())
    }
}

/// The signing key of a kernel connection: the UUID text of `id` without
/// hyphens.
pub fn kernel_key(id: u128) -> (res: String)
    ensures
        res@ == without_char(uuid_text(id), '-'),
{
    let t = uuid_string(id);
    let cs = str_chars(t.as_str());
    let mut out: Vec<char> = Vec::new();
    let mut i: usize = 0;
    assert(cs@.take(0) =~= Seq::<char>::empty());
    while i < cs.len()
        invariant
            i <= cs@.len(),
            out@ == without_char(cs@.take(i as int), '-'),
        decreases cs@.len() - i,
    {
        assert(cs@.take(i + 1).drop_last() =~= cs@.take(i as int));
        if cs[i] != '-' {
            out.push(cs[i]);
        }
        i = i + 1;
    }
    assert(cs@.take(cs@.len() as int) =~= cs@);
    chars_to_string(out.as_slice())
}

/// The settings a kernel is started with: loopback TCP, HMAC-SHA256
/// signatures, a key and five ports.
#[derive(Debug, Clone)]
pub struct KernelConnection {
    pub ip: String,
    pub transport: String,
    pub signature_scheme: String,
    pub key: String,
    pub shell_port: u16,
    pub iopub_port: u16,
    pub stdin_port: u16,
    pub control_port: u16,
    pub hb_port: u16,
}

impl KernelConnection {
    /// Connection settings with `key` and the ports in the order shell,
    /// iopub, stdin, control, heartbeat.
    pub fn new(key: String, ports: &Vec<u16>) -> (res: KernelConnection)
        requires
            ports@.len() >= 5,
        ensures
            res.ip@ == "127.0.0.1"@,
            res.transport@ == "tcp"@,
            res.signature_scheme@ == "hmac-sha256"@,
            res.key == key,
            res.shell_port == ports@[0],
            res.iopub_port == ports@[1],
            res.stdin_port == ports@[2],
            res.control_port == ports@[3],
            res.hb_port == ports@[4],
    {
        KernelConnection {
            ip: owned("127.0.0.1"),
            transport: owned("tcp"),
            signature_scheme: owned("hmac-sha256"),
            key,
            shell_port: ports[0],
            iopub_port: ports[1],
            stdin_port: ports[2],
            control_port: ports[3],
            hb_port: ports[4],
        }
    }
}

/// The file name of a kernel's connection settings.
pub fn connection_file_name(kernel_id: &str) -> (res: String)
    ensures
        res@ == "kernel-"@ + kernel_id@ + ".json"@,
{
    let a = concat_str("kernel-", kernel_id);
    concat_str(a.as_str(), ".json")
}

/// The error for an unknown kernel.
pub fn kernel_not_found(kernel_id: &str) -> (res: CodeError)
    ensures
        res matches CodeError::KernelError(m) && m@ == "Kernel not found: "@ + kernel_id@,
{
    CodeError::KernelError(concat_str("Kernel not found: ", kernel_id))
}

/// The error for a kernel helper that exited with a failure.
pub fn kernel_execute_failed(stderr: &str) -> (res: CodeError)
    ensures
        res matches CodeError::KernelError(m) && m@ == "Execute failed: "@ + stderr@,
{
    CodeError::KernelError(concat_str("Execute failed: ", stderr))
}

/// The result of a kernel execution from the fields of the kernel's reply:
/// missing streams are empty, a missing exit code is 1, and the exit code is
/// truncated to 32 bits; no artifacts.
pub fn kernel_result(stdout: Option<String>, stderr: Option<String>, exit_code: Option<i64>, duration_ms: u64) -> (res: CodeResult)
    ensures
        res.stdout@ == (match stdout { Some(s) => s@, None => Seq::<char>::empty() }),
        res.stderr@ == (match stderr { Some(s) => s@, None => Seq::<char>::empty() }),
        res.exit_code == (match exit_code { Some(c) => c as i32, None => 1i32 }),
        res.duration_ms == duration_ms,
        res.artifacts@.len() == 0,
{
    let out = match stdout {
        Some(s) => s,
        None => String::new(),
    };
    let err = match stderr {
        Some(s) => s,
        None => String::new(),
    };
    let code: i32 = match exit_code {
        Some(c) => c as i32,
        None => 1,
    };
    CodeResult { stdout: out, stderr: err, exit_code: code, duration_ms, artifacts: Vec::new() }
}

/// Whether `c` has the Unicode `White_Space` property, which is what
/// `char::is_whitespace` tests.
pub open spec fn is_white(c: char) -> bool {
    let n = c as u32;
    (0x9 <= n && n <= 0xD) || n == 0x20 || n == 0x85 || n == 0xA0 || n == 0x1680
        || (0x2000 <= n && n <= 0x200A) || n == 0x2028 || n == 0x2029 || n == 0x202F
        || n == 0x205F || n == 0x3000
}

/// `s` without its leading white space.
pub open spec fn trim_front(s: Seq<char>) -> Seq<char>
    decreases s.len(),
{
    if s.len() > 0 && is_white(s[0]) { trim_front(s.drop_first()) } else { s }
}

/// `s` without its trailing white space.
pub open spec fn trim_back(s: Seq<char>) -> Seq<char>
    decreases s.len(),
{
    if s.len() > 0 && is_white(s.last()) { trim_back(s.drop_last()) } else { s }
}

/// `s` without leading and trailing white space, as `str::trim` gives it.
pub open spec fn trim_whitespace(s: Seq<char>) -> Seq<char> {
    trim_back(trim_front(s))
}

fn white(c: char) -> (res: bool)
    ensures
        res == is_white(c),
{
    let n = c as u32;
    (0x9 <= n && n <= 0xD) || n == 0x20 || n == 0x85 || n == 0xA0 || n == 0x1680
        || (0x2000 <= n && n <= 0x200A) || n == 0x2028 || n == 0x2029 || n == 0x202F
        || n == 0x205F || n == 0x3000
}

/// `s` without leading and trailing white space.
pub fn trim_text(s: &str) -> (res: String)
    ensures
        res@ == trim_whitespace(s@),
{
    let v = str_chars(s);
    let n = v.len();
    let mut i: usize = 0;
    assert(v@.subrange(0, n as int) =~= v@);
    while i < n && white(v[i])
        invariant
            n == v@.len(),
            v@ == s@,
            i <= n,
            trim_front(v@) == trim_front(v@.subrange(i as int, n as int)),
        decreases n - i,
    {
        assert(v@.subrange(i as int, n as int).drop_first() =~= v@.subrange(i + 1, n as int));
        i = i + 1;
    }
    assert(trim_front(v@) == v@.subrange(i as int, n as int));
    let mut j: usize = n;
    while j > i && white(v[j - 1])
        invariant
            n == v@.len(),
            i <= j <= n,
            trim_back(v@.subrange(i as int, n as int)) == trim_back(v@.subrange(i as int, j as int)),
        decreases j,
    {
        assert(v@.subrange(i as int, j as int).drop_last() =~= v@.subrange(i as int, j - 1));
        j = j - 1;
    }
    assert(trim_back(v@.subrange(i as int, j as int)) == v@.subrange(i as int, j as int));
    let mut out: Vec<char> = Vec::new();
    let mut k: usize = i;
    while k < j
        invariant
            n == v@.len(),
            i <= k <= j <= n,
            out@ == v@.subrange(i as int, k as int),
        decreases j - k,
    {
        out.push(v[k]);
        assert(out@ =~= v@.subrange(i as int, k + 1));
        k = k + 1;
    }
    chars_to_string(out.as_slice())
}

/// What the kernel helper's output text gives when `serde_json::from_str`
/// parses it as a JSON value: its `stdout` and `stderr` strings and its
/// `exit_code` integer (each absent when missing or of another type), or the
/// parser's error text.
pub uninterp spec fn kernel_reply_fields(text: Seq<char>) -> Result<(Option<Seq<char>>, Option<Seq<char>>, Option<i64>), Seq<char>>;

/// The plain values of a parsed kernel reply.
pub open spec fn reply_fields_view(r: Result<(Option<String>, Option<String>, Option<i64>), String>) -> Result<(Option<Seq<char>>, Option<Seq<char>>, Option<i64>), Seq<char>> {
    match r {
        Ok(t) => Ok((
            match t.0 { Some(s) => Some(s@), None => None },
            match t.1 { Some(s) => Some(s@), None => None },
            t.2,
        )),
        Err(e) => Err(e@),
    }
}

/// Parses the kernel helper's output with `serde_json::from_str` into a JSON
/// value and picks `stdout`, `stderr` (`as_str`) and `exit_code`
/// (`as_i64`); a parse error becomes its display text. Trusted: the result is
/// `kernel_reply_fields` of the text.
#[verifier::external_body]
fn parse_kernel_reply(text: &str) -> (res: Result<(Option<String>, Option<String>, Option<i64>), String>)
    ensures
        reply_fields_view(res) == kernel_reply_fields(text@),
{
    match serde_json::from_str::<serde_json::Value>(text) {
        Ok(v) => Ok((v["stdout"].as_str().map(|s| s.to_string()), v["stderr"].as_str().map(|s| s.to_string()), v["exit_code"].as_i64())),
        Err(e) => Err(e.to_string()),
    }
}

/// The text of an optional stream, empty when absent.
pub open spec fn stream_text(s: Option<Seq<char>>) -> Seq<char> {
    match s {
        Some(t) => t,
        None => Seq::<char>::empty(),
    }
}

/// The result of a kernel execution from the helper's standard output: the
/// output, trimmed, is parsed as JSON and its fields become the result as
/// `kernel_result` states; output that does not parse is the kernel error
/// `Parse failed: <error>. Output: <output>`.
pub fn kernel_reply(stdout: &str, duration_ms: u64) -> (res: Result<CodeResult, CodeError>)
    ensures
        match kernel_reply_fields(trim_whitespace(stdout@)) {
            Ok(f) => res matches Ok(r) && r.stdout@ == stream_text(f.0) && r.stderr@ == stream_text(f.1)
                && r.exit_code == (match f.2 { Some(c) => c as i32, None => 1i32 })
                && r.duration_ms == duration_ms && r.artifacts@.len() == 0,
            Err(m) => res matches Err(CodeError::KernelError(t)) && t@ == "Parse failed: "@ + m + ". Output: "@ + stdout@,
        },
{
    let trimmed = trim_text(stdout);
    match parse_kernel_reply(trimmed.as_str()) {
        Ok(fields) => {
            let (out, err, code) = fields;
            Ok(kernel_result(out, err, code, duration_ms))
        },
        Err(m) => {
            let mut v: Vec<char> = Vec::new();
            push_str(&mut v, "Parse failed: ");
            push_str(&mut v, m.as_str());
            push_str(&mut v, ". Output: ");
            push_str(&mut v, stdout);
            assert(v@ =~= "Parse failed: "@ + m@ + ". Output: "@ + stdout@);
            Err(CodeError::KernelError(chars_to_string(v.as_slice())))
        },
    }
}

} // verus!
