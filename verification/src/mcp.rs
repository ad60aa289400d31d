//! The MCP server's JSON-RPC layer: which requests get an answer and which
//! method they call, the catalogue of tools, which action a tool call asks
//! for (and which argument is missing), and the text of each tool's reply.

use vstd::prelude::*;
use crate::filesystem::{FileInfo, FileSearchResult};
use crate::filesystem::FileSearchRequest;
use crate::ids::{is_v4_id, uuid_text};
use crate::sandbox::{ExecCommand, SandboxConfig};
use crate::text::{
    chars_to_string, concat_str, decimal, join_strings, join_with, owned, push_decimal,
    push_signed_decimal, push_str, signed_decimal, str_eq,
};

verus! {

/// JSON-RPC error code: the request is not valid JSON.
pub const PARSE_ERROR: i64 = -32700;
/// JSON-RPC error code: no such method.
pub const METHOD_NOT_FOUND: i64 = -32601;
/// JSON-RPC error code: the parameters are missing or wrong.
pub const INVALID_PARAMS: i64 = -32602;

/// The MCP protocol version the server speaks.
pub fn protocol_version() -> (res: &'static str)
    ensures
        res@ == "2024-11-05"@,
{
    "2024-11-05"
}

/// A JSON-RPC error object.
#[derive(Debug, Clone)]
pub struct JsonRpcError {
    pub code: i64,
    pub message: String,
}

/// `e` is the error with `code` and message `msg`.
pub open spec fn is_rpc_error(e: JsonRpcError, code: i64, msg: Seq<char>) -> bool {
    e.code == code && e.message@ == msg
}

/// The error for a request line that is not valid JSON.
pub fn parse_error(detail: &str) -> (res: JsonRpcError)
    ensures
        is_rpc_error(res, PARSE_ERROR, "Parse error: "@ + detail@),
{
    JsonRpcError { code: PARSE_ERROR, message: concat_str("Parse error: ", detail) }
}

/// The error for invalid parameters, with a message.
pub fn err(msg: &str) -> (res: JsonRpcError)
    ensures
        is_rpc_error(res, INVALID_PARAMS, msg@),
{
    JsonRpcError { code: INVALID_PARAMS, message: owned(msg) }
}

/// The methods the server answers.
#[derive(Debug, Clone, Copy, PartialEq, Eq, Structural)]
pub enum RpcMethod {
    Initialize,
    ToolsList,
    ToolsCall,
    Ping,
}

/// How the server treats a request: a notification (no `id`) gets no
/// answer; otherwise the method named, or a method-not-found error.
pub open spec fn route_outcome(has_id: bool, method: Seq<char>, res: Option<Result<RpcMethod, JsonRpcError>>) -> bool {
    if !has_id {
        res is None
    } else if method == "initialize"@ {
        res == Some(Ok::<RpcMethod, JsonRpcError>(RpcMethod::Initialize))
    } else if method == "tools/list"@ {
        res == Some(Ok::<RpcMethod, JsonRpcError>(RpcMethod::ToolsList))
    } else if method == "tools/call"@ {
        res == Some(Ok::<RpcMethod, JsonRpcError>(RpcMethod::ToolsCall))
    } else if method == "ping"@ {
        res == Some(Ok::<RpcMethod, JsonRpcError>(RpcMethod::Ping))
    } else {
        res matches Some(Err(e)) && is_rpc_error(e, METHOD_NOT_FOUND, "Method not found: "@ + method)
    }
}

/// Decides how a request is answered, from whether it has an `id` and its
/// method name.
pub fn route_request(has_id: bool, method: &str) -> (res: Option<Result<RpcMethod, JsonRpcError>>)
    ensures
        route_outcome(has_id, method@, res),
{
    if !has_id {
        return None;
    }
    if str_eq(method, "initialize") {
        Some(Ok(RpcMethod::Initialize))
    } else if str_eq(method, "tools/list") {
        Some(Ok(RpcMethod::ToolsList))
    } else if str_eq(method, "tools/call") {
        Some(Ok(RpcMethod::ToolsCall))
    } else if str_eq(method, "ping") {
        Some(Ok(RpcMethod::Ping))
    } else {
        Some(Err(JsonRpcError { code: METHOD_NOT_FOUND, message: concat_str("Method not found: ", method) }))
    }
}

/// The tool a `tools/call` request names: fails with `Missing params` when
/// the request has no parameters and `Missing tool name` when `name` is not a
/// string.
pub fn tool_call_name(has_params: bool, name: Option<&str>) -> (res: Result<String, JsonRpcError>)
    ensures
        !has_params ==> (res matches Err(e) && is_rpc_error(e, INVALID_PARAMS, "Missing params"@)),
        has_params && name is None ==> (res matches Err(e) && is_rpc_error(e, INVALID_PARAMS, "Missing tool name"@)),
        has_params && name is Some ==> (res matches Ok(n) && n@ == name->0@),
{
    if !has_params {
        return Err(err("Missing params"));
    }
    match name {
        None => Err(err("Missing tool name")),
        Some(n) => Ok(owned(n)),
    }
}

/// The string value of `key` among a tool call's string arguments (the first
/// entry with that key).
pub open spec fn lookup(args: Seq<(Seq<char>, Seq<char>)>, key: Seq<char>) -> Option<Seq<char>>
    decreases args.len(),
{
    if args.len() == 0 {
        None
    } else if args[0].0 == key {
        Some(args[0].1)
    } else {
        lookup(args.drop_first(), key)
    }
}

/// The plain values of a tool call's string arguments.
pub open spec fn args_view(args: Seq<(String, String)>) -> Seq<(Seq<char>, Seq<char>)> {
    args.map_values(|a: (String, String)| (a.0@, a.1@))
}

/// The string argument `key` of a tool call, if present.
pub fn get_arg(args: &Vec<(String, String)>, key: &str) -> (res: Option<String>)
    ensures
        match res {
            Some(v) => lookup(args_view(args@), key@) == Some(v@),
            None => lookup(args_view(args@), key@) is None,
        },
{
    let mut i: usize = 0;
    assert(args_view(args@).skip(0) =~= args_view(args@));
    while i < args.len()
        invariant
            i <= args@.len(),
            lookup(args_view(args@), key@) == lookup(args_view(args@).skip(i as int), key@),
        decreases args@.len() - i,
    {
        let ghost rest = args_view(args@).skip(i as int);
        assert(rest[0] == (args@[i as int].0@, args@[i as int].1@));
        if str_eq(args[i].0.as_str(), key) {
            return Some(args[i].1.clone());
        }
        assert(rest.drop_first() =~= args_view(args@).skip(i + 1));
        i = i + 1;
    }
    assert(args_view(args@).skip(i as int).len() == 0);
    None
}

/// A parameter of a tool: its name and description (all parameters are
/// strings).
#[derive(Debug, Clone)]
pub struct ToolParam {
    pub name: String,
    pub description: String,
}

/// A tool the server offers: name, description, parameters and the names of
/// the required ones.
#[derive(Debug, Clone)]
pub struct ToolSpec {
    pub name: String,
    pub description: String,
    pub params: Vec<ToolParam>,
    pub required: Vec<String>,
}

/// The plain values of a tool description.
pub type ToolView = (Seq<char>, Seq<char>, Seq<(Seq<char>, Seq<char>)>, Seq<Seq<char>>);

/// The plain values of a tool description.
pub open spec fn tool_view(t: ToolSpec) -> ToolView {
    (
        t.name@,
        t.description@,
        t.params@.map_values(|p: ToolParam| (p.name@, p.description@)),
        t.required@.map_values(|r: String| r@),
    )
}

/// The catalogue of tools, in the order they are listed.
pub open spec fn tool_catalogue() -> Seq<ToolView> {
    seq![
        ("shell_exec"@, "Execute a shell command"@, seq![("command"@, "Shell command to execute"@)], seq!["command"@]),
        ("file_read"@, "Read a file"@, seq![("path"@, "File path"@)], seq!["path"@]),
        ("file_write"@, "Write a file"@, seq![("path"@, "File path"@), ("content"@, "File content"@)], seq!["path"@, "content"@]),
        ("file_edit"@, "Edit a file with string replacement"@, seq![("path"@, "File path"@), ("old_text"@, "Text to replace"@), ("new_text"@, "Replacement text"@)], seq!["path"@, "old_text"@, "new_text"@]),
        ("file_list"@, "List directory contents"@, seq![("path"@, "Directory path"@)], seq!["path"@]),
        ("file_search"@, "Search files for text"@, seq![("query"@, "Search query"@), ("path"@, "Directory to search in"@)], seq!["query"@]),
        ("python_exec"@, "Execute Python code"@, seq![("code"@, "Python code to execute"@)], seq!["code"@]),
        ("node_exec"@, "Execute Node.js code"@, seq![("code"@, "Node.js code to execute"@)], seq!["code"@]),
        ("browser_navigate"@, "Navigate browser to URL"@, seq![("url"@, "URL to navigate to"@)], seq!["url"@]),
        ("browser_screenshot"@, "Take a browser screenshot"@, seq![], seq![]),
        ("browser_click"@, "Click an element by CSS selector"@, seq![("selector"@, "CSS selector"@)], seq!["selector"@]),
        ("browser_type"@, "Type text into an element"@, seq![("selector"@, "CSS selector"@), ("text"@, "Text to type"@)], seq!["selector"@, "text"@]),
        ("browser_evaluate"@, "Evaluate JavaScript in browser"@, seq![("expression"@, "JavaScript expression"@)], seq!["expression"@]),
        ("browser_snapshot"@, "Get current page content"@, seq![], seq![]),
        ("sandbox_info"@, "Get sandbox information"@, seq![], seq![]),
    ]
}

fn param(name: &str, description: &str) -> (res: ToolParam)
    ensures
        res.name@ == name@,
        res.description@ == description@,
{
    ToolParam { name: owned(name), description: owned(description) }
}

fn tool0(name: &str, description: &str) -> (res: ToolSpec)
    ensures
        tool_view(res) == (name@, description@, Seq::<(Seq<char>, Seq<char>)>::empty(), Seq::<Seq<char>>::empty()),
{
    let t = ToolSpec { name: owned(name), description: owned(description), params: Vec::new(), required: Vec::new() };
    assert(tool_view(t).2 =~= Seq::<(Seq<char>, Seq<char>)>::empty());
    assert(tool_view(t).3 =~= Seq::<Seq<char>>::empty());
    t
}

fn tool1(name: &str, description: &str, p: &str, pd: &str) -> (res: ToolSpec)
    ensures
        tool_view(res) == (name@, description@, seq![(p@, pd@)], seq![p@]),
{
    let mut params: Vec<ToolParam> = Vec::new();
    params.push(param(p, pd));
    let mut required: Vec<String> = Vec::new();
    required.push(owned(p));
    let t = ToolSpec { name: owned(name), description: owned(description), params, required };
    assert(tool_view(t).2 =~= seq![(p@, pd@)]);
    assert(tool_view(t).3 =~= seq![p@]);
    t
}

fn tool2(name: &str, description: &str, p: &str, pd: &str, q: &str, qd: &str, both_required: bool) -> (res: ToolSpec)
    ensures
        tool_view(res) == (name@, description@, seq![(p@, pd@), (q@, qd@)], if both_required {
            seq![p@, q@]
        } else {
            seq![p@]
        }),
{
    let mut params: Vec<ToolParam> = Vec::new();
    params.push(param(p, pd));
    params.push(param(q, qd));
    let mut required: Vec<String> = Vec::new();
    required.push(owned(p));
    if both_required {
        required.push(owned(q));
    }
    let t = ToolSpec { name: owned(name), description: owned(description), params, required };
    assert(tool_view(t).2 =~= seq![(p@, pd@), (q@, qd@)]);
    assert(tool_view(t).3 =~= (if both_required { seq![p@, q@] } else { seq![p@] }));
    t
}

fn tool3(name: &str, description: &str, p: &str, pd: &str, q: &str, qd: &str, r: &str, rd: &str) -> (res: ToolSpec)
    ensures
        tool_view(res) == (name@, description@, seq![(p@, pd@), (q@, qd@), (r@, rd@)], seq![p@, q@, r@]),
{
    let mut params: Vec<ToolParam> = Vec::new();
    params.push(param(p, pd));
    params.push(param(q, qd));
    params.push(param(r, rd));
    let mut required: Vec<String> = Vec::new();
    required.push(owned(p));
    required.push(owned(q));
    required.push(owned(r));
    let t = ToolSpec { name: owned(name), description: owned(description), params, required };
    assert(tool_view(t).2 =~= seq![(p@, pd@), (q@, qd@), (r@, rd@)]);
    assert(tool_view(t).3 =~= seq![p@, q@, r@]);
    t
}

/// The registry of the server's tools.
#[derive(Debug, Clone, Copy)]
pub struct ToolRegistry;

/// What a tool call asks the server to do, with its arguments.
#[derive(Debug, Clone)]
pub enum ToolAction {
    ShellExec { command: String },
    FileRead { path: String },
    FileWrite { path: String, content: String },
    FileEdit { path: String, old_text: String, new_text: String },
    FileList { path: String },
    FileSearch { query: String, path: Option<String> },
    PythonExec { code: String },
    NodeExec { code: String },
    BrowserNavigate { url: String },
    BrowserScreenshot,
    BrowserClick { selector: String },
    BrowserType { selector: String, text: String },
    BrowserEvaluate { expression: String },
    BrowserSnapshot,
    SandboxInfo,
}

/// `res` is the invalid-parameters error with message `msg`.
pub open spec fn invalid(res: Result<ToolAction, JsonRpcError>, msg: Seq<char>) -> bool {
    res matches Err(e) && is_rpc_error(e, INVALID_PARAMS, msg)
}

/// Which action a call of tool `name` with string arguments `args` asks for,
/// checking the required arguments in order.
pub open spec fn plan_outcome(name: Seq<char>, args: Seq<(Seq<char>, Seq<char>)>, res: Result<ToolAction, JsonRpcError>) -> bool {
    if name == "shell_exec"@ {
        match lookup(args, "command"@) {
            Some(c) => res matches Ok(ToolAction::ShellExec { command }) && command@ == c,
            None => invalid(res, "Missing command"@),
        }
    } else if name == "file_read"@ {
        match lookup(args, "path"@) {
            Some(p) => res matches Ok(ToolAction::FileRead { path }) && path@ == p,
            None => invalid(res, "Missing path"@),
        }
    } else if name == "file_write"@ {
        match (lookup(args, "path"@), lookup(args, "content"@)) {
            (None, _) => invalid(res, "Missing path"@),
            (Some(_), None) => invalid(res, "Missing content"@),
            (Some(p), Some(c)) => res matches Ok(ToolAction::FileWrite { path, content }) && path@ == p && content@ == c,
        }
    } else if name == "file_edit"@ {
        match (lookup(args, "path"@), lookup(args, "old_text"@), lookup(args, "new_text"@)) {
            (None, _, _) => invalid(res, "Missing path"@),
            (Some(_), None, _) => invalid(res, "Missing old_text"@),
            (Some(_), Some(_), None) => invalid(res, "Missing new_text"@),
            (Some(p), Some(o), Some(n)) => res matches Ok(ToolAction::FileEdit { path, old_text, new_text })
                && path@ == p && old_text@ == o && new_text@ == n,
        }
    } else if name == "file_list"@ {
        match lookup(args, "path"@) {
            Some(p) => res matches Ok(ToolAction::FileList { path }) && path@ == p,
            None => invalid(res, "Missing path"@),
        }
    } else if name == "file_search"@ {
        match lookup(args, "query"@) {
            Some(q) => res matches Ok(ToolAction::FileSearch { query, path }) && query@ == q && (match lookup(args, "path"@) {
                Some(p) => path matches Some(x) && x@ == p,
                None => path is None,
            }),
            None => invalid(res, "Missing query"@),
        }
    } else if name == "python_exec"@ {
        match lookup(args, "code"@) {
            Some(c) => res matches Ok(ToolAction::PythonExec { code }) && code@ == c,
            None => invalid(res, "Missing code"@),
        }
    } else if name == "node_exec"@ {
        match lookup(args, "code"@) {
            Some(c) => res matches Ok(ToolAction::NodeExec { code }) && code@ == c,
            None => invalid(res, "Missing code"@),
        }
    } else if name == "browser_navigate"@ {
        match lookup(args, "url"@) {
            Some(u) => res matches Ok(ToolAction::BrowserNavigate { url }) && url@ == u,
            None => invalid(res, "Missing url"@),
        }
    } else if name == "browser_screenshot"@ {
        res matches Ok(ToolAction::BrowserScreenshot)
    } else if name == "browser_click"@ {
        match lookup(args, "selector"@) {
            Some(s) => res matches Ok(ToolAction::BrowserClick { selector }) && selector@ == s,
            None => invalid(res, "Missing selector"@),
        }
    } else if name == "browser_type"@ {
        match (lookup(args, "selector"@), lookup(args, "text"@)) {
            (None, _) => invalid(res, "Missing selector"@),
            (Some(_), None) => invalid(res, "Missing text"@),
            (Some(s), Some(t)) => res matches Ok(ToolAction::BrowserType { selector, text }) && selector@ == s && text@ == t,
        }
    } else if name == "browser_evaluate"@ {
        match lookup(args, "expression"@) {
            Some(e) => res matches Ok(ToolAction::BrowserEvaluate { expression }) && expression@ == e,
            None => invalid(res, "Missing expression"@),
        }
    } else if name == "browser_snapshot"@ {
        res matches Ok(ToolAction::BrowserSnapshot)
    } else if name == "sandbox_info"@ {
        res matches Ok(ToolAction::SandboxInfo)
    } else {
        invalid(res, "Unknown tool: "@ + name)
    }
}

impl ToolRegistry {
    /// The registry. It holds no state: the tools it offers are the fixed
    /// catalogue that `list` gives.
    pub fn new() -> (res: ToolRegistry)
        ensures
            res == ToolRegistry,
    {
        ToolRegistry
    }

    /// Which action a call of tool `name` with string arguments `args` asks
    /// for; a missing required argument or an unknown tool is an
    /// invalid-parameters error.
    pub fn plan_call(&self, name: &str, args: &Vec<(String, String)>) -> (res: Result<ToolAction, JsonRpcError>)
        ensures
            plan_outcome(name@, args_view(args@), res),
    {
        if str_eq(name, "shell_exec") {
            match get_arg(args, "command") {
                Some(command) => Ok(ToolAction::ShellExec { command }),
                None => Err(err("Missing command")),
            }
        } else if str_eq(name, "file_read") {
            match get_arg(args, "path") {
                Some(path) => Ok(ToolAction::FileRead { path }),
                None => Err(err("Missing path")),
            }
        } else if str_eq(name, "file_write") {
            let path = match get_arg(args, "path") {
                Some(p) => p,
                None => return Err(err("Missing path")),
            };
            match get_arg(args, "content") {
                Some(content) => Ok(ToolAction::FileWrite { path, content }),
                None => Err(err("Missing content")),
            }
        } else if str_eq(name, "file_edit") {
            let path = match get_arg(args, "path") {
                Some(p) => p,
                None => return Err(err("Missing path")),
            };
            let old_text = match get_arg(args, "old_text") {
                Some(o) => o,
                None => return Err(err("Missing old_text")),
            };
            match get_arg(args, "new_text") {
                Some(new_text) => Ok(ToolAction::FileEdit { path, old_text, new_text }),
                None => Err(err("Missing new_text")),
            }
        } else if str_eq(name, "file_list") {
            match get_arg(args, "path") {
                Some(path) => Ok(ToolAction::FileList { path }),
                None => Err(err("Missing path")),
            }
        } else if str_eq(name, "file_search") {
            match get_arg(args, "query") {
                Some(query) => Ok(ToolAction::FileSearch { query, path: get_arg(args, "path") }),
                None => Err(err("Missing query")),
            }
        } else if str_eq(name, "python_exec") {
            match get_arg(args, "code") {
                Some(code) => Ok(ToolAction::PythonExec { code }),
                None => Err(err("Missing code")),
            }
        } else if str_eq(name, "node_exec") {
            match get_arg(args, "code") {
                Some(code) => Ok(ToolAction::NodeExec { code }),
                None => Err(err("Missing code")),
            }
        } else if str_eq(name, "browser_navigate") {
            match get_arg(args, "url") {
                Some(url) => Ok(ToolAction::BrowserNavigate { url }),
                None => Err(err("Missing url")),
            }
        } else if str_eq(name, "browser_screenshot") {
            Ok(ToolAction::BrowserScreenshot)
        } else if str_eq(name, "browser_click") {
            match get_arg(args, "selector") {
                Some(selector) => Ok(ToolAction::BrowserClick { selector }),
                None => Err(err("Missing selector")),
            }
        } else if str_eq(name, "browser_type") {
            let selector = match get_arg(args, "selector") {
                Some(s) => s,
                None => return Err(err("Missing selector")),
            };
            match get_arg(args, "text") {
                Some(text) => Ok(ToolAction::BrowserType { selector, text }),
                None => Err(err("Missing text")),
            }
        } else if str_eq(name, "browser_evaluate") {
            match get_arg(args, "expression") {
                Some(expression) => Ok(ToolAction::BrowserEvaluate { expression }),
                None => Err(err("Missing expression")),
            }
        } else if str_eq(name, "browser_snapshot") {
            Ok(ToolAction::BrowserSnapshot)
        } else if str_eq(name, "sandbox_info") {
            Ok(ToolAction::SandboxInfo)
        } else {
            Err(JsonRpcError { code: INVALID_PARAMS, message: concat_str("Unknown tool: ", name) })
        }
    }

    /// The tools offered, in order.
    pub fn list(&self) -> (res: Vec<ToolSpec>)
        ensures
            res@.map_values(|t: ToolSpec| tool_view(t)) == tool_catalogue(),
    {
        let mut v: Vec<ToolSpec> = Vec::new();
        v.push(tool1("shell_exec", "Execute a shell command", "command", "Shell command to execute"));
        v.push(tool1("file_read", "Read a file", "path", "File path"));
        v.push(tool2("file_write", "Write a file", "path", "File path", "content", "File content", true));
        v.push(tool3("file_edit", "Edit a file with string replacement", "path", "File path", "old_text", "Text to replace", "new_text", "Replacement text"));
        v.push(tool1("file_list", "List directory contents", "path", "Directory path"));
        v.push(tool2("file_search", "Search files for text", "query", "Search query", "path", "Directory to search in", false));
        v.push(tool1("python_exec", "Execute Python code", "code", "Python code to execute"));
        v.push(tool1("node_exec", "Execute Node.js code", "code", "Node.js code to execute"));
        v.push(tool1("browser_navigate", "Navigate browser to URL", "url", "URL to navigate to"));
        v.push(tool0("browser_screenshot", "Take a browser screenshot"));
        v.push(tool1("browser_click", "Click an element by CSS selector", "selector", "CSS selector"));
        v.push(tool2("browser_type", "Type text into an element", "selector", "CSS selector", "text", "Text to type", true));
        v.push(tool1("browser_evaluate", "Evaluate JavaScript in browser", "expression", "JavaScript expression"));
        v.push(tool0("browser_snapshot", "Get current page content"));
        v.push(tool0("sandbox_info", "Get sandbox information"));
        assert(v@.map_values(|t: ToolSpec| tool_view(t)) =~= tool_catalogue());
        v
    }
}

/// The reply text of a command run: exit code, then the two streams.
pub open spec fn exec_report_text(exit_code: i32, stdout: Seq<char>, stderr: Seq<char>) -> Seq<char> {
    "exit_code: "@ + signed_decimal(exit_code as int) + "\nstdout:\n"@ + stdout + "\nstderr:\n"@ + stderr
}

/// The reply text of a command run.
pub fn exec_report(exit_code: i32, stdout: &str, stderr: &str) -> (res: String)
    ensures
        res@ == exec_report_text(exit_code, stdout@, stderr@),
{
    let mut v: Vec<char> = Vec::new();
    push_str(&mut v, "exit_code: ");
    push_signed_decimal(&mut v, exit_code as i64);
    push_str(&mut v, "\nstdout:\n");
    push_str(&mut v, stdout);
    push_str(&mut v, "\nstderr:\n");
    push_str(&mut v, stderr);
    assert(v@ =~= exec_report_text(exit_code, stdout@, stderr@));
    chars_to_string(v.as_slice())
}

/// The reply text of a failed tool call.
pub fn error_report(message: &str) -> (res: String)
    ensures
        res@ == "Error: "@ + message@,
{
    concat_str("Error: ", message)
}

/// The text reply of a tool call and whether it reports a failure.
#[derive(Debug, Clone)]
pub struct ToolReply {
    pub text: String,
    pub is_error: bool,
}

/// The reply of a tool whose operation ran: its reply text when it
/// succeeded; when it failed, `Error: <message>` marked as an error (a
/// failed operation is a successful call with an error reply, not a
/// JSON-RPC error).
pub fn tool_reply(outcome: Result<String, String>) -> (res: ToolReply)
    ensures
        match outcome {
            Ok(t) => res.text == t && !res.is_error,
            Err(m) => res.text@ == "Error: "@ + m@ && res.is_error,
        },
{
    match outcome {
        Ok(text) => ToolReply { text, is_error: false },
        Err(m) => ToolReply { text: error_report(m.as_str()), is_error: true },
    }
}

/// The answer to a tool call whose action was planned: when preparing the
/// call failed (its sandbox, its temporary script, its command line), the
/// invalid-parameters error with that message; otherwise the reply of the
/// operation, which is an error reply, not a JSON-RPC error, when the
/// operation itself failed.
pub fn call_result(setup: Result<(), String>, op: Result<String, String>) -> (res: Result<ToolReply, JsonRpcError>)
    ensures
        match setup {
            Err(m) => res matches Err(e) && is_rpc_error(e, INVALID_PARAMS, m@),
            Ok(_) => match op {
                Ok(t) => res matches Ok(r) && r.text == t && !r.is_error,
                Err(m) => res matches Ok(r) && r.text@ == "Error: "@ + m@ && r.is_error,
            },
        },
{
    match setup {
        Err(m) => Err(err(m.as_str())),
        Ok(()) => Ok(tool_reply(op)),
    }
}

/// A JSON-RPC response: version `2.0`, the request's id, and exactly one of
/// a result and an error.
#[derive(Debug, Clone)]
pub struct RpcResponse<T, R> {
    pub jsonrpc: String,
    pub id: T,
    pub result: Option<R>,
    pub error: Option<JsonRpcError>,
}

/// The response to a request with id `id`: the result when the request was
/// handled, the error otherwise.
pub fn respond<T, R>(id: T, outcome: Result<R, JsonRpcError>) -> (res: RpcResponse<T, R>)
    ensures
        res.jsonrpc@ == "2.0"@,
        res.id == id,
        res.result is Some <==> res.error is None,
        match outcome {
            Ok(v) => res.result == Some(v),
            Err(e) => res.error == Some(e),
        },
{
    match outcome {
        Ok(v) => RpcResponse { jsonrpc: owned("2.0"), id, result: Some(v), error: None },
        Err(e) => RpcResponse { jsonrpc: owned("2.0"), id, result: None, error: Some(e) },
    }
}

/// One line of a directory listing reply: `[DIR] ` for a directory, the
/// name, two spaces, the size in bytes.
pub open spec fn list_line(e: FileInfo) -> Seq<char> {
    (if e.is_dir { "[DIR] "@ } else { seq![] }) + e.name@ + "  "@ + decimal(e.size as nat) + " bytes"@
}

/// The reply text of a directory listing: one line per entry.
pub fn list_report(entries: &Vec<FileInfo>) -> (res: String)
    ensures
        res@ == join_with(entries@.map_values(|e: FileInfo| list_line(e)), "\n"@),
{
    let mut lines: Vec<String> = Vec::new();
    let mut i: usize = 0;
    while i < entries.len()
        invariant
            i <= entries@.len(),
            lines@.map_values(|s: String| s@) == entries@.take(i as int).map_values(|e: FileInfo| list_line(e)),
        decreases entries@.len() - i,
    {
        let e = &entries[i];
        let mut v: Vec<char> = Vec::new();
        if e.is_dir {
            push_str(&mut v, "[DIR] ");
        }
        push_str(&mut v, e.name.as_str());
        push_str(&mut v, "  ");
        push_decimal(&mut v, e.size);
        push_str(&mut v, " bytes");
        assert(v@ =~= list_line(*e));
        let line = chars_to_string(v.as_slice());
        let ghost before = lines@;
        lines.push(line);
        assert(lines@ == before.push(line));
        assert(lines@.map_values(|s: String| s@) =~= before.map_values(|s: String| s@).push(line@));
        assert(entries@.take(i + 1) =~= entries@.take(i as int).push(*e));
        assert(lines@.map_values(|s: String| s@) =~= entries@.take(i + 1).map_values(|e: FileInfo| list_line(e)));
        i = i + 1;
    }
    assert(entries@.take(entries@.len() as int) =~= entries@);
    join_strings(&lines, "\n")
}

/// One line of a search reply: path, line number and line text.
pub open spec fn search_line(r: FileSearchResult) -> Seq<char> {
    r.path@ + ":"@ + decimal(r.line_number as nat) + ": "@ + r.line_content@
}

/// The reply text of a search: one line per hit, or `No results found`.
pub fn search_report(results: &Vec<FileSearchResult>) -> (res: String)
    ensures
        results@.len() == 0 ==> res@ == "No results found"@,
        results@.len() > 0 ==> res@ == join_with(results@.map_values(|r: FileSearchResult| search_line(r)), "\n"@),
{
    if results.len() == 0 {
        return owned("No results found");
    }
    let mut lines: Vec<String> = Vec::new();
    let mut i: usize = 0;
    while i < results.len()
        invariant
            i <= results@.len(),
            lines@.map_values(|s: String| s@) == results@.take(i as int).map_values(|r: FileSearchResult| search_line(r)),
        decreases results@.len() - i,
    {
        let r = &results[i];
        let mut v: Vec<char> = Vec::new();
        push_str(&mut v, r.path.as_str());
        push_str(&mut v, ":");
        push_decimal(&mut v, r.line_number as u64);
        push_str(&mut v, ": ");
        push_str(&mut v, r.line_content.as_str());
        assert(v@ =~= search_line(*r));
        let line = chars_to_string(v.as_slice());
        let ghost before = lines@;
        lines.push(line);
        assert(lines@ == before.push(line));
        assert(lines@.map_values(|s: String| s@) =~= before.map_values(|s: String| s@).push(line@));
        assert(results@.take(i + 1) =~= results@.take(i as int).push(*r));
        assert(lines@.map_values(|s: String| s@) =~= results@.take(i + 1).map_values(|r: FileSearchResult| search_line(r)));
        i = i + 1;
    }
    assert(results@.take(results@.len() as int) =~= results@);
    join_strings(&lines, "\n")
}

/// The reply text of a navigation: the page title, a blank line, the text.
pub fn page_report(title: &str, text: &str) -> (res: String)
    ensures
        res@ == title@ + "\n\n"@ + text@,
{
    let a = concat_str(title, "\n\n");
    concat_str(a.as_str(), text)
}

/// The reply text of a page snapshot: URL, title, a blank line, the text.
pub fn snapshot_report(url: &str, title: &str, text: &str) -> (res: String)
    ensures
        res@ == "URL: "@ + url@ + "\nTitle: "@ + title@ + "\n\n"@ + text@,
{
    let mut v: Vec<char> = Vec::new();
    push_str(&mut v, "URL: ");
    push_str(&mut v, url);
    push_str(&mut v, "\nTitle: ");
    push_str(&mut v, title);
    push_str(&mut v, "\n\n");
    push_str(&mut v, text);
    assert(v@ =~= "URL: "@ + url@ + "\nTitle: "@ + title@ + "\n\n"@ + text@);
    chars_to_string(v.as_slice())
}

/// The reply text of `sandbox_info`: version, runtime, browser state.
pub fn info_report(version: &str, browser_running: bool) -> (res: String)
    ensures
        res@ == "cage-bro v"@ + version@ + "\nRuntime: process\nBrowser: "@ + (if browser_running {
            "running"@
        } else {
            "stopped"@
        }),
{
    let mut v: Vec<char> = Vec::new();
    push_str(&mut v, "cage-bro v");
    push_str(&mut v, version);
    push_str(&mut v, "\nRuntime: process\nBrowser: ");
    if browser_running {
        push_str(&mut v, "running");
    } else {
        push_str(&mut v, "stopped");
    }
    assert(v@ =~= "cage-bro v"@ + version@ + "\nRuntime: process\nBrowser: "@ + (if browser_running {
        "running"@
    } else {
        "stopped"@
    }));
    chars_to_string(v.as_slice())
}

/// The search a `file_search` tool call runs: any file, at most 20 lines.
pub fn tool_search_request(query: String, path: Option<String>) -> (res: FileSearchRequest)
    ensures
        res.query == query,
        res.path == path,
        res.file_pattern is None,
        res.max_results == Some(20usize),
{
    FileSearchRequest { query, path, file_pattern: None, max_results: Some(20) }
}

/// The timeout of a `python_exec` or `node_exec` tool call (30 s).
pub const TOOL_CODE_TIMEOUT_MS: u64 = 30000;

/// The sandbox configuration of a tool call: defaults, with the workspace.
pub fn workspace_sandbox_config(workspace: String) -> (res: SandboxConfig)
    ensures
        res.memory_limit_mb == Some(512u64),
        res.cpu_limit_percent == Some(50u8),
        res.disk_limit_mb == Some(1024u64),
        res.network_enabled,
        res.workspace_dir == Some(workspace),
{
    let mut c = SandboxConfig::default();
    c.workspace_dir = Some(workspace);
    c
}

/// The path of a new temporary script: a prefix, a fresh random UUID, an
/// extension.
pub fn temp_script_path(prefix: &str, ext: &str) -> (res: String)
    ensures
        exists|id: u128| is_v4_id(id) && res@ == prefix@ + uuid_text(id) + ext@,
{
    let id = crate::ids::fresh_id();
    let u = crate::ids::uuid_string(id);
    let a = concat_str(prefix, u.as_str());
    concat_str(a.as_str(), ext)
}

/// The command running `program` on a script file, with no environment.
pub fn script_command(program: &str, script: String, working_dir: Option<String>, timeout_ms: Option<u64>) -> (res: ExecCommand)
    ensures
        res.program@ == program@,
        res.args@.len() == 1,
        res.args@[0] == script,
        res.env@.len() == 0,
        res.working_dir == working_dir,
        res.timeout_ms == timeout_ms,
{
    let mut args: Vec<String> = Vec::new();
    args.push(script);
    ExecCommand { program: owned(program), args, env: Vec::new(), working_dir, timeout_ms }
}

/// Every argument named in `required` is among the string arguments.
pub open spec fn has_required(args: Seq<(Seq<char>, Seq<char>)>, required: Seq<Seq<char>>) -> bool {
    forall|k: int| 0 <= k < required.len() ==> #[trigger] lookup(args, required[k]) is Some
}

proof fn lemma_has_required_upto3(args: Seq<(Seq<char>, Seq<char>)>, a: Seq<char>, b: Seq<char>, c: Seq<char>)
    ensures
        has_required(args, seq![]),
        has_required(args, seq![a]) <==> lookup(args, a) is Some,
        has_required(args, seq![a, b]) <==> (lookup(args, a) is Some && lookup(args, b) is Some),
        has_required(args, seq![a, b, c]) <==> (lookup(args, a) is Some && lookup(args, b) is Some
            && lookup(args, c) is Some),
{
    let s1 = seq![a];
    let s2 = seq![a, b];
    let s3 = seq![a, b, c];
    assert(s1[0] == a);
    assert(s2[0] == a && s2[1] == b);
    assert(s3[0] == a && s3[1] == b && s3[2] == c);
    if lookup(args, a) is Some {
        assert forall|k: int| 0 <= k < s1.len() implies #[trigger] lookup(args, s1[k]) is Some by {}
    }
    if lookup(args, a) is Some && lookup(args, b) is Some {
        assert forall|k: int| 0 <= k < s2.len() implies #[trigger] lookup(args, s2[k]) is Some by {}
    }
    if lookup(args, a) is Some && lookup(args, b) is Some && lookup(args, c) is Some {
        assert forall|k: int| 0 <= k < s3.len() implies #[trigger] lookup(args, s3[k]) is Some by {}
    }
}

/// What `tools/list` advertises, `tools/call` accepts: a call of a listed
/// tool is planned exactly when every argument the listing marks as required
/// is given (otherwise it is refused as invalid parameters), and a tool that
/// is not listed is refused as unknown.
pub proof fn lemma_listed_tools_are_callable(name: Seq<char>, args: Seq<(Seq<char>, Seq<char>)>, res: Result<ToolAction, JsonRpcError>)
    requires
        plan_outcome(name, args, res),
    ensures
        forall|k: int| 0 <= k < tool_catalogue().len() && #[trigger] tool_catalogue()[k].0 == name ==> (
            (res is Ok <==> has_required(args, tool_catalogue()[k].3))
            && (res matches Err(e) ==> e.code == INVALID_PARAMS)),
        (forall|k: int| 0 <= k < tool_catalogue().len() ==> #[trigger] tool_catalogue()[k].0 != name) ==> (
            res matches Err(e) && is_rpc_error(e, INVALID_PARAMS, "Unknown tool: "@ + name)),
{
    reveal_strlit("shell_exec");
    reveal_strlit("file_read");
    reveal_strlit("file_write");
    reveal_strlit("file_edit");
    reveal_strlit("file_list");
    reveal_strlit("file_search");
    reveal_strlit("python_exec");
    reveal_strlit("node_exec");
    reveal_strlit("browser_navigate");
    reveal_strlit("browser_screenshot");
    reveal_strlit("browser_click");
    reveal_strlit("browser_type");
    reveal_strlit("browser_evaluate");
    reveal_strlit("browser_snapshot");
    reveal_strlit("sandbox_info");
    // listed names of equal length differ at a known position
    assert("file_read"@ != "file_edit"@) by {
        assert("file_read"@[5] != "file_edit"@[5]);
    }
    assert("file_read"@ != "file_list"@) by {
        assert("file_read"@[5] != "file_list"@[5]);
    }
    assert("file_read"@ != "node_exec"@) by {
        assert("file_read"@[0] != "node_exec"@[0]);
    }
    assert("file_edit"@ != "file_list"@) by {
        assert("file_edit"@[5] != "file_list"@[5]);
    }
    assert("file_edit"@ != "node_exec"@) by {
        assert("file_edit"@[0] != "node_exec"@[0]);
    }
    assert("file_list"@ != "node_exec"@) by {
        assert("file_list"@[0] != "node_exec"@[0]);
    }
    assert("shell_exec"@ != "file_write"@) by {
        assert("shell_exec"@[0] != "file_write"@[0]);
    }
    assert("file_search"@ != "python_exec"@) by {
        assert("file_search"@[0] != "python_exec"@[0]);
    }
    assert("browser_navigate"@ != "browser_snapshot"@) by {
        assert("browser_navigate"@[8] != "browser_snapshot"@[8]);
    }
    assert("browser_navigate"@ != "browser_evaluate"@) by {
        assert("browser_navigate"@[8] != "browser_evaluate"@[8]);
    }
    assert("browser_snapshot"@ != "browser_evaluate"@) by {
        assert("browser_snapshot"@[8] != "browser_evaluate"@[8]);
    }
    assert("browser_type"@ != "sandbox_info"@) by {
        assert("browser_type"@[0] != "sandbox_info"@[0]);
    }
    let cat = tool_catalogue();
    assert(cat[0].0 == "shell_exec"@ && cat[0].3 == seq!["command"@]);
    assert(cat[1].0 == "file_read"@ && cat[1].3 == seq!["path"@]);
    assert(cat[2].0 == "file_write"@ && cat[2].3 == seq!["path"@, "content"@]);
    assert(cat[3].0 == "file_edit"@ && cat[3].3 == seq!["path"@, "old_text"@, "new_text"@]);
    assert(cat[4].0 == "file_list"@ && cat[4].3 == seq!["path"@]);
    assert(cat[5].0 == "file_search"@ && cat[5].3 == seq!["query"@]);
    assert(cat[6].0 == "python_exec"@ && cat[6].3 == seq!["code"@]);
    assert(cat[7].0 == "node_exec"@ && cat[7].3 == seq!["code"@]);
    assert(cat[8].0 == "browser_navigate"@ && cat[8].3 == seq!["url"@]);
    assert(cat[9].0 == "browser_screenshot"@ && cat[9].3 == Seq::<Seq<char>>::empty());
    assert(cat[10].0 == "browser_click"@ && cat[10].3 == seq!["selector"@]);
    assert(cat[11].0 == "browser_type"@ && cat[11].3 == seq!["selector"@, "text"@]);
    assert(cat[12].0 == "browser_evaluate"@ && cat[12].3 == seq!["expression"@]);
    assert(cat[13].0 == "browser_snapshot"@ && cat[13].3 == Seq::<Seq<char>>::empty());
    assert(cat[14].0 == "sandbox_info"@ && cat[14].3 == Seq::<Seq<char>>::empty());
    lemma_has_required_upto3(args, "command"@, "path"@, "path"@);
    lemma_has_required_upto3(args, "path"@, "content"@, "path"@);
    lemma_has_required_upto3(args, "path"@, "old_text"@, "new_text"@);
    lemma_has_required_upto3(args, "query"@, "path"@, "path"@);
    lemma_has_required_upto3(args, "code"@, "path"@, "path"@);
    lemma_has_required_upto3(args, "url"@, "path"@, "path"@);
    lemma_has_required_upto3(args, "selector"@, "text"@, "path"@);
    lemma_has_required_upto3(args, "expression"@, "path"@, "path"@);
    assert forall|k: int| 0 <= k < cat.len() && #[trigger] cat[k].0 == name implies (
        (res is Ok <==> has_required(args, cat[k].3))
        && (res matches Err(e) ==> e.code == INVALID_PARAMS)) by {
        if k == 0 {
        } else if k == 1 {
        } else if k == 2 {
        } else if k == 3 {
        } else if k == 4 {
        } else if k == 5 {
        } else if k == 6 {
        } else if k == 7 {
        } else if k == 8 {
        } else if k == 9 {
        } else if k == 10 {
        } else if k == 11 {
        } else if k == 12 {
        } else if k == 13 {
        } else {
            assert(k == 14);
        }
    }
    if forall|k: int| 0 <= k < cat.len() ==> #[trigger] cat[k].0 != name {
        assert(cat[0].0 != name && cat[1].0 != name && cat[2].0 != name && cat[3].0 != name);
        assert(cat[4].0 != name && cat[5].0 != name && cat[6].0 != name && cat[7].0 != name);
        assert(cat[8].0 != name && cat[9].0 != name && cat[10].0 != name && cat[11].0 != name);
        assert(cat[12].0 != name && cat[13].0 != name && cat[14].0 != name);
    }
}

/// The listed tool names: their lengths, and the names of equal length
/// differ.
proof fn lemma_tool_name_texts()
    ensures
        "shell_exec"@.len() == 10,
        "file_read"@.len() == 9,
        "file_write"@.len() == 10,
        "file_edit"@.len() == 9,
        "file_list"@.len() == 9,
        "file_search"@.len() == 11,
        "python_exec"@.len() == 11,
        "node_exec"@.len() == 9,
        "browser_navigate"@.len() == 16,
        "browser_screenshot"@.len() == 18,
        "browser_click"@.len() == 13,
        "browser_type"@.len() == 12,
        "browser_evaluate"@.len() == 16,
        "browser_snapshot"@.len() == 16,
        "sandbox_info"@.len() == 12,
        "file_read"@ != "file_edit"@,
        "file_read"@ != "file_list"@,
        "file_read"@ != "node_exec"@,
        "file_edit"@ != "file_list"@,
        "file_edit"@ != "node_exec"@,
        "file_list"@ != "node_exec"@,
        "shell_exec"@ != "file_write"@,
        "file_search"@ != "python_exec"@,
        "browser_navigate"@ != "browser_snapshot"@,
        "browser_navigate"@ != "browser_evaluate"@,
        "browser_snapshot"@ != "browser_evaluate"@,
        "browser_type"@ != "sandbox_info"@,
{
    reveal_strlit("shell_exec");
    reveal_strlit("file_read");
    reveal_strlit("file_write");
    reveal_strlit("file_edit");
    reveal_strlit("file_list");
    reveal_strlit("file_search");
    reveal_strlit("python_exec");
    reveal_strlit("node_exec");
    reveal_strlit("browser_navigate");
    reveal_strlit("browser_screenshot");
    reveal_strlit("browser_click");
    reveal_strlit("browser_type");
    reveal_strlit("browser_evaluate");
    reveal_strlit("browser_snapshot");
    reveal_strlit("sandbox_info");
    assert("file_read"@[5] != "file_edit"@[5]);
    assert("file_read"@[5] != "file_list"@[5]);
    assert("file_read"@[0] != "node_exec"@[0]);
    assert("file_edit"@[5] != "file_list"@[5]);
    assert("file_edit"@[0] != "node_exec"@[0]);
    assert("file_list"@[0] != "node_exec"@[0]);
    assert("shell_exec"@[0] != "file_write"@[0]);
    assert("file_search"@[0] != "python_exec"@[0]);
    assert("browser_navigate"@[8] != "browser_snapshot"@[8]);
    assert("browser_navigate"@[8] != "browser_evaluate"@[8]);
    assert("browser_snapshot"@[8] != "browser_evaluate"@[8]);
    assert("browser_type"@[0] != "sandbox_info"@[0]);
}

/// The tool that performs an action.
pub open spec fn action_tool(a: ToolAction) -> Seq<char> {
    match a {
        ToolAction::ShellExec { .. } => "shell_exec"@,
        ToolAction::FileRead { .. } => "file_read"@,
        ToolAction::FileWrite { .. } => "file_write"@,
        ToolAction::FileEdit { .. } => "file_edit"@,
        ToolAction::FileList { .. } => "file_list"@,
        ToolAction::FileSearch { .. } => "file_search"@,
        ToolAction::PythonExec { .. } => "python_exec"@,
        ToolAction::NodeExec { .. } => "node_exec"@,
        ToolAction::BrowserNavigate { .. } => "browser_navigate"@,
        ToolAction::BrowserScreenshot => "browser_screenshot"@,
        ToolAction::BrowserClick { .. } => "browser_click"@,
        ToolAction::BrowserType { .. } => "browser_type"@,
        ToolAction::BrowserEvaluate { .. } => "browser_evaluate"@,
        ToolAction::BrowserSnapshot => "browser_snapshot"@,
        ToolAction::SandboxInfo => "sandbox_info"@,
    }
}

/// The arguments an action carries, as (parameter name, value) pairs named
/// as the tool's listing names its parameters.
pub open spec fn action_args(a: ToolAction) -> Seq<(Seq<char>, Seq<char>)> {
    match a {
        ToolAction::ShellExec { command } => seq![("command"@, command@)],
        ToolAction::FileRead { path } => seq![("path"@, path@)],
        ToolAction::FileWrite { path, content } => seq![("path"@, path@), ("content"@, content@)],
        ToolAction::FileEdit { path, old_text, new_text } =>
            seq![("path"@, path@), ("old_text"@, old_text@), ("new_text"@, new_text@)],
        ToolAction::FileList { path } => seq![("path"@, path@)],
        ToolAction::FileSearch { query, path } => seq![("query"@, query@)] + (match path {
            Some(p) => seq![("path"@, p@)],
            None => Seq::<(Seq<char>, Seq<char>)>::empty(),
        }),
        ToolAction::PythonExec { code } => seq![("code"@, code@)],
        ToolAction::NodeExec { code } => seq![("code"@, code@)],
        ToolAction::BrowserNavigate { url } => seq![("url"@, url@)],
        ToolAction::BrowserScreenshot => Seq::<(Seq<char>, Seq<char>)>::empty(),
        ToolAction::BrowserClick { selector } => seq![("selector"@, selector@)],
        ToolAction::BrowserType { selector, text } => seq![("selector"@, selector@), ("text"@, text@)],
        ToolAction::BrowserEvaluate { expression } => seq![("expression"@, expression@)],
        ToolAction::BrowserSnapshot => Seq::<(Seq<char>, Seq<char>)>::empty(),
        ToolAction::SandboxInfo => Seq::<(Seq<char>, Seq<char>)>::empty(),
    }
}

/// A planned call does what the called tool does, with the caller's
/// arguments: the action belongs to the tool that was named, each argument
/// it carries is the value the caller gave under that parameter's name, and
/// every listed parameter of the tool that the caller gave is carried.
pub proof fn lemma_planned_action_is_the_tools(name: Seq<char>, args: Seq<(Seq<char>, Seq<char>)>, a: ToolAction)
    requires
        plan_outcome(name, args, Ok(a)),
    ensures
        action_tool(a) == name,
        forall|j: int| 0 <= j < action_args(a).len() ==>
            lookup(args, (#[trigger] action_args(a)[j]).0) == Some(action_args(a)[j].1),
        forall|k: int, i: int| 0 <= k < tool_catalogue().len() && tool_catalogue()[k].0 == name
            && 0 <= i < tool_catalogue()[k].2.len() && lookup(args, (#[trigger] tool_catalogue()[k].2[i]).0) is Some
            ==> action_args(a).contains((tool_catalogue()[k].2[i].0, lookup(args, tool_catalogue()[k].2[i].0).unwrap())),
{
    lemma_tool_name_texts();
    let cat = tool_catalogue();
    let aa = action_args(a);
    assert(cat[0].0 == "shell_exec"@ && cat[1].0 == "file_read"@ && cat[2].0 == "file_write"@);
    assert(cat[3].0 == "file_edit"@ && cat[4].0 == "file_list"@ && cat[5].0 == "file_search"@);
    assert(cat[6].0 == "python_exec"@ && cat[7].0 == "node_exec"@ && cat[8].0 == "browser_navigate"@);
    assert(cat[9].0 == "browser_screenshot"@ && cat[10].0 == "browser_click"@ && cat[11].0 == "browser_type"@);
    assert(cat[12].0 == "browser_evaluate"@ && cat[13].0 == "browser_snapshot"@ && cat[14].0 == "sandbox_info"@);
    assert forall|j: int| 0 <= j < aa.len() implies lookup(args, (#[trigger] aa[j]).0) == Some(aa[j].1) by {
        match a {
            ToolAction::FileSearch { query, path } => {
                if j == 1 {
                    assert(path is Some);
                }
            },
            _ => {},
        }
    }
    assert forall|k: int, i: int| 0 <= k < cat.len() && cat[k].0 == name
        && 0 <= i < cat[k].2.len() && lookup(args, (#[trigger] cat[k].2[i]).0) is Some
        implies aa.contains((cat[k].2[i].0, lookup(args, cat[k].2[i].0).unwrap())) by {
        let pn = cat[k].2[i].0;
        let v = lookup(args, pn).unwrap();
        if k == 0 { assert(aa[0] == (pn, v)); }
        else if k == 1 { assert(aa[0] == (pn, v)); }
        else if k == 2 { assert(aa[i] == (pn, v)); }
        else if k == 3 { assert(aa[i] == (pn, v)); }
        else if k == 4 { assert(aa[0] == (pn, v)); }
        else if k == 5 { assert(aa[i] == (pn, v)); }
        else if k == 6 { assert(aa[0] == (pn, v)); }
        else if k == 7 { assert(aa[0] == (pn, v)); }
        else if k == 8 { assert(aa[0] == (pn, v)); }
        else if k == 9 { }
        else if k == 10 { assert(aa[0] == (pn, v)); }
        else if k == 11 { assert(aa[i] == (pn, v)); }
        else if k == 12 { assert(aa[0] == (pn, v)); }
        else { }
    }
}

} // verus!
