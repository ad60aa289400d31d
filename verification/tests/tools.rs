use cage_bro::filesystem::{FileInfo, FileSearchResult};
use cage_bro::mcp::{
    call_result, error_report, exec_report, get_arg, respond, info_report, err, list_report, page_report,
    parse_error, protocol_version, route_request, script_command, search_report, snapshot_report,
    temp_script_path, tool_call_name, tool_search_request, workspace_sandbox_config, RpcMethod,
    ToolAction, ToolRegistry, INVALID_PARAMS, METHOD_NOT_FOUND, PARSE_ERROR,
};

fn args(pairs: &[(&str, &str)]) -> Vec<(String, String)> {
    pairs.iter().map(|(k, v)| (k.to_string(), v.to_string())).collect()
}

#[test]
fn notifications_get_no_answer() {
    assert!(route_request(false, "initialize").is_none());
    assert!(route_request(false, "no/such").is_none());
}

#[test]
fn known_methods_are_routed() {
    assert!(matches!(route_request(true, "initialize"), Some(Ok(RpcMethod::Initialize))));
    assert!(matches!(route_request(true, "tools/list"), Some(Ok(RpcMethod::ToolsList))));
    assert!(matches!(route_request(true, "tools/call"), Some(Ok(RpcMethod::ToolsCall))));
    assert!(matches!(route_request(true, "ping"), Some(Ok(RpcMethod::Ping))));
}

#[test]
fn unknown_method_is_method_not_found() {
    match route_request(true, "resources/list") {
        Some(Err(e)) => {
            assert_eq!(e.code, METHOD_NOT_FOUND);
            assert_eq!(e.code, -32601);
            assert_eq!(e.message, "Method not found: resources/list");
        }
        other => panic!("{:?}", other),
    }
}

#[test]
fn rpc_error_constructors() {
    let e = parse_error("expected value at line 1 column 1");
    assert_eq!(e.code, PARSE_ERROR);
    assert_eq!(e.code, -32700);
    assert_eq!(e.message, "Parse error: expected value at line 1 column 1");
    let e = err("Missing command");
    assert_eq!(e.code, INVALID_PARAMS);
    assert_eq!(e.code, -32602);
    assert_eq!(e.message, "Missing command");
    assert_eq!(protocol_version(), "2024-11-05");
}

#[test]
fn tool_call_name_errors() {
    let e = tool_call_name(false, None).unwrap_err();
    assert_eq!((e.code, e.message.as_str()), (INVALID_PARAMS, "Missing params"));
    let e = tool_call_name(true, None).unwrap_err();
    assert_eq!((e.code, e.message.as_str()), (INVALID_PARAMS, "Missing tool name"));
    assert_eq!(tool_call_name(true, Some("shell_exec")).unwrap(), "shell_exec");
}

#[test]
fn get_arg_takes_first_entry() {
    let a = args(&[("path", "a.txt"), ("content", "x"), ("path", "b.txt")]);
    assert_eq!(get_arg(&a, "path"), Some("a.txt".to_string()));
    assert_eq!(get_arg(&a, "content"), Some("x".to_string()));
    assert_eq!(get_arg(&a, "query"), None);
    assert_eq!(get_arg(&Vec::new(), "path"), None);
}

#[test]
fn plan_shell_and_files() {
    let r = ToolRegistry::new();
    match r.plan_call("shell_exec", &args(&[("command", "echo hi")])).unwrap() {
        ToolAction::ShellExec { command } => assert_eq!(command, "echo hi"),
        other => panic!("{:?}", other),
    }
    match r.plan_call("file_write", &args(&[("content", "data"), ("path", "f.txt")])).unwrap() {
        ToolAction::FileWrite { path, content } => {
            assert_eq!(path, "f.txt");
            assert_eq!(content, "data");
        }
        other => panic!("{:?}", other),
    }
    match r
        .plan_call("file_edit", &args(&[("path", "f"), ("old_text", "a"), ("new_text", "b")]))
        .unwrap()
    {
        ToolAction::FileEdit { path, old_text, new_text } => {
            assert_eq!((path.as_str(), old_text.as_str(), new_text.as_str()), ("f", "a", "b"));
        }
        other => panic!("{:?}", other),
    }
    match r.plan_call("file_search", &args(&[("query", "needle")])).unwrap() {
        ToolAction::FileSearch { query, path } => {
            assert_eq!(query, "needle");
            assert_eq!(path, None);
        }
        other => panic!("{:?}", other),
    }
    match r.plan_call("file_search", &args(&[("query", "needle"), ("path", "src")])).unwrap() {
        ToolAction::FileSearch { path, .. } => assert_eq!(path, Some("src".to_string())),
        other => panic!("{:?}", other),
    }
}

#[test]
fn plan_argument_free_tools() {
    let r = ToolRegistry::new();
    assert!(matches!(r.plan_call("browser_screenshot", &Vec::new()), Ok(ToolAction::BrowserScreenshot)));
    assert!(matches!(r.plan_call("browser_snapshot", &Vec::new()), Ok(ToolAction::BrowserSnapshot)));
    assert!(matches!(r.plan_call("sandbox_info", &Vec::new()), Ok(ToolAction::SandboxInfo)));
}

#[test]
fn plan_reports_first_missing_argument() {
    let r = ToolRegistry::new();
    let cases: Vec<(&str, Vec<(String, String)>, &str)> = vec![
        ("shell_exec", args(&[]), "Missing command"),
        ("file_read", args(&[]), "Missing path"),
        ("file_write", args(&[("content", "c")]), "Missing path"),
        ("file_write", args(&[("path", "p")]), "Missing content"),
        ("file_edit", args(&[("path", "p"), ("new_text", "n")]), "Missing old_text"),
        ("file_edit", args(&[("path", "p"), ("old_text", "o")]), "Missing new_text"),
        ("file_list", args(&[]), "Missing path"),
        ("file_search", args(&[("path", "p")]), "Missing query"),
        ("python_exec", args(&[]), "Missing code"),
        ("node_exec", args(&[]), "Missing code"),
        ("browser_navigate", args(&[]), "Missing url"),
        ("browser_click", args(&[]), "Missing selector"),
        ("browser_type", args(&[("text", "t")]), "Missing selector"),
        ("browser_type", args(&[("selector", "s")]), "Missing text"),
        ("browser_evaluate", args(&[]), "Missing expression"),
        ("rm_rf", args(&[]), "Unknown tool: rm_rf"),
    ];
    for (name, a, msg) in cases {
        let e = r.plan_call(name, &a).unwrap_err();
        assert_eq!(e.code, INVALID_PARAMS, "{}", name);
        assert_eq!(e.message, msg, "{}", name);
    }
}

#[test]
fn catalogue_lists_fifteen_tools_in_order() {
    let tools = ToolRegistry::new().list();
    let names: Vec<&str> = tools.iter().map(|t| t.name.as_str()).collect();
    assert_eq!(
        names,
        vec![
            "shell_exec", "file_read", "file_write", "file_edit", "file_list", "file_search",
            "python_exec", "node_exec", "browser_navigate", "browser_screenshot", "browser_click",
            "browser_type", "browser_evaluate", "browser_snapshot", "sandbox_info",
        ]
    );
    let search = &tools[5];
    assert_eq!(search.required, vec!["query".to_string()]);
    assert_eq!(search.params.len(), 2);
    assert_eq!(search.params[1].name, "path");
    assert_eq!(search.params[1].description, "Directory to search in");
    let edit = &tools[3];
    assert_eq!(edit.description, "Edit a file with string replacement");
    assert_eq!(edit.required, vec!["path".to_string(), "old_text".to_string(), "new_text".to_string()]);
    assert!(tools[14].params.is_empty() && tools[14].required.is_empty());
}

#[test]
fn reply_texts() {
    assert_eq!(exec_report(0, "hi\n", ""), "exit_code: 0\nstdout:\nhi\n\nstderr:\n");
    assert_eq!(exec_report(-1, "", "Timeout"), "exit_code: -1\nstdout:\n\nstderr:\nTimeout");
    assert_eq!(error_report("boom"), "Error: boom");
    assert_eq!(page_report("Example", "body"), "Example\n\nbody");
    assert_eq!(snapshot_report("https://e.x", "T", "txt"), "URL: https://e.x\nTitle: T\n\ntxt");
    assert_eq!(info_report("0.1.0", false), "cage-bro v0.1.0\nRuntime: process\nBrowser: stopped");
    assert_eq!(info_report("0.1.0", true), "cage-bro v0.1.0\nRuntime: process\nBrowser: running");
}

#[test]
fn listing_reply() {
    let entries = vec![
        FileInfo { path: "/w/src".into(), name: "src".into(), is_dir: true, size: 4096, modified: "1".into() },
        FileInfo { path: "/w/a.txt".into(), name: "a.txt".into(), is_dir: false, size: 12, modified: "2".into() },
    ];
    assert_eq!(list_report(&entries), "[DIR] src  4096 bytes\na.txt  12 bytes");
    assert_eq!(list_report(&Vec::new()), "");
}

#[test]
fn search_reply() {
    assert_eq!(search_report(&Vec::new()), "No results found");
    let hits = vec![
        FileSearchResult { path: "/w/a.rs".into(), line_number: 3, line_content: "// needle x".into() },
        FileSearchResult { path: "/w/b.rs".into(), line_number: 10, line_content: "needle".into() },
    ];
    assert_eq!(search_report(&hits), "/w/a.rs:3: // needle x\n/w/b.rs:10: needle");
}

#[test]
fn tool_call_settings() {
    let req = tool_search_request("q".into(), Some("dir".into()));
    assert_eq!(req.query, "q");
    assert_eq!(req.path, Some("dir".to_string()));
    assert_eq!(req.file_pattern, None);
    assert_eq!(req.max_results, Some(20));
    let c = workspace_sandbox_config("/w".into());
    assert_eq!(c.memory_limit_mb, Some(512));
    assert_eq!(c.cpu_limit_percent, Some(50));
    assert_eq!(c.disk_limit_mb, Some(1024));
    assert!(c.network_enabled);
    assert_eq!(c.workspace_dir, Some("/w".to_string()));
    let script = temp_script_path("/tmp/cage-bro-", ".py");
    assert!(script.starts_with("/tmp/cage-bro-") && script.ends_with(".py"));
    let id = &script["/tmp/cage-bro-".len()..script.len() - 3];
    let parsed = uuid::Uuid::parse_str(id).unwrap();
    assert_eq!(parsed.get_version_num(), 4);
    assert_eq!(parsed.to_string(), id);
    assert_ne!(temp_script_path("/tmp/cage-bro-", ".py"), script);
    let cmd = script_command("python3", "/tmp/s.py".into(), Some("/w".into()), Some(30000));
    assert_eq!(cmd.program, "python3");
    assert_eq!(cmd.args, vec!["/tmp/s.py".to_string()]);
    assert!(cmd.env.is_empty());
    assert_eq!(cmd.working_dir, Some("/w".to_string()));
    assert_eq!(cmd.timeout_ms, Some(30000));
}

#[test]
fn tool_replies() {
    let ok = cage_bro::mcp::tool_reply(Ok("done".to_string()));
    assert_eq!((ok.text.as_str(), ok.is_error), ("done", false));
    let bad = cage_bro::mcp::tool_reply(Err("path outside sandbox: /etc".to_string()));
    assert_eq!((bad.text.as_str(), bad.is_error), ("Error: path outside sandbox: /etc", true));
}

#[test]
fn failed_operations_are_error_replies_and_failed_setup_is_an_rpc_error() {
    let r = call_result(Ok(()), Ok("done".to_string())).unwrap();
    assert_eq!((r.text.as_str(), r.is_error), ("done", false));
    let r = call_result(Ok(()), Err("File not found: x".to_string())).unwrap();
    assert_eq!((r.text.as_str(), r.is_error), ("Error: File not found: x", true));
    let e = call_result(Err("no sandbox".to_string()), Ok("done".to_string())).unwrap_err();
    assert_eq!((e.code, e.message.as_str()), (INVALID_PARAMS, "no sandbox"));
}

#[test]
fn responses_carry_the_id_and_exactly_one_of_result_and_error() {
    let r = respond(Some(7), Ok::<&str, _>("{}"));
    assert_eq!((r.jsonrpc.as_str(), r.id, r.result, r.error.is_none()), ("2.0", Some(7), Some("{}"), true));
    let r = respond(Some(8), Err::<&str, _>(err("bad")));
    assert_eq!((r.jsonrpc.as_str(), r.id, r.result.is_none()), ("2.0", Some(8), true));
    assert_eq!(r.error.unwrap().message, "bad");
}
