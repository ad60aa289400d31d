use cage_bro::browser::{
    browser_ws_url, click_expression, launch_args, launch_message, png_screenshot, retry_connect,
    type_expression, js_outcome, page_content, BrowserState, CONNECT_RETRIES, DEFAULT_PORT,
};
use cage_bro::code::{
    connection_file_name, kernel_execute_failed, kernel_key, kernel_not_found, kernel_program,
    kernel_reply, kernel_result, started_kernel, trim_text, CodeError, KernelConnection, KernelStatus, Language,
};
use cage_bro::config::Config;
use cage_bro::e2b::{
    bad_id_message, command_line_message, create_config, not_found_message, parse_id,
    shell_command_line_message, state_name, template_or_default,
};
use cage_bro::sandbox::SandboxState;
use cage_bro::setup::{
    archive_extension, binary_name, choose_binary, detect_platform, extract_args, obscura_bin,
    obscura_version, release_url,
};
use cage_bro::shell::{
    command_from_line, command_from_words, session_not_found, session_shell, session_term,
    session_ws_path, terminal_error_text, terminal_input_step, CommandLineError,
    CreateSessionRequest, ShellParseError, TerminalMessage, TerminalStep,
};
use cage_bro::cdp::{reply_outcome, CallBook};
use cage_bro::text::{join_strings, u64_to_decimal};

#[test]
fn command_lines_split_with_shell_quoting() {
    let cmd = command_from_line("echo 'hello world' \"a b\" c\\ d", Some(1000)).unwrap();
    assert_eq!(cmd.program, "echo");
    assert_eq!(cmd.args, vec!["hello world".to_string(), "a b".to_string(), "c d".to_string()]);
    assert!(cmd.env.is_empty());
    assert_eq!(cmd.working_dir, None);
    assert_eq!(cmd.timeout_ms, Some(1000));
    let ls = command_from_line("ls -la # comment", None).unwrap();
    assert_eq!((ls.program.as_str(), ls.args.clone()), ("ls", vec!["-la".to_string()]));
}

#[test]
fn command_line_errors() {
    assert!(matches!(command_from_line("echo 'open", None), Err(CommandLineError::Unparsable)));
    assert!(matches!(command_from_line("   ", None), Err(CommandLineError::Empty)));
    assert!(matches!(command_from_line("\"x", None), Err(CommandLineError::Unparsable)));
    assert_eq!(ShellParseError.message(), "missing closing quote");
    assert_eq!(command_line_message(CommandLineError::Empty), "empty command");
    assert_eq!(command_line_message(CommandLineError::Unparsable), "parse error: missing closing quote");
    assert_eq!(shell_command_line_message(CommandLineError::Empty), "Empty command");
    assert_eq!(
        shell_command_line_message(CommandLineError::Unparsable),
        "Failed to parse command: missing closing quote"
    );
}

#[test]
fn command_from_words_moves_first_word() {
    let cmd = command_from_words(vec!["git".into(), "status".into()], Some("/w".into()), None);
    assert_eq!(cmd.program, "git");
    assert_eq!(cmd.args, vec!["status".to_string()]);
    assert_eq!(cmd.working_dir, Some("/w".to_string()));
}

#[test]
fn session_defaults() {
    let r = CreateSessionRequest { shell: None, cols: None, rows: None };
    assert_eq!(r.size(), (80, 24));
    let r = CreateSessionRequest { shell: Some("zsh".into()), cols: Some(120), rows: None };
    assert_eq!(r.size(), (120, 24));
    assert_eq!(session_ws_path("abc"), "/v1/shell/session/abc/ws");
}

#[test]
fn code_errors_and_names() {
    assert_eq!(CodeError::ExecutionFailed("x".into()).message(), "execution failed: x");
    assert_eq!(CodeError::Timeout(30000).message(), "timeout after 30000ms");
    assert_eq!(CodeError::RuntimeNotFound("ruby".into()).message(), "runtime not found: ruby");
    assert_eq!(CodeError::KernelError("x".into()).message(), "kernel error: x");
    assert_eq!(Language::Python.name(), "Python");
    assert_eq!(Language::Shell.name(), "Shell");
    assert_eq!(KernelStatus::Ready.name(), "Ready");
    assert_eq!(KernelStatus::Dead.name(), "Dead");
}

#[test]
fn kernels() {
    assert_eq!(kernel_program("python").unwrap(), "python3");
    match kernel_program("ruby") {
        Err(CodeError::RuntimeNotFound(l)) => assert_eq!(l, "ruby"),
        other => panic!("{:?}", other),
    }
    let k = started_kernel("k1".into());
    assert_eq!(k.id, "k1");
    assert_eq!(k.language, Language::Python);
    assert_eq!(k.status, KernelStatus::Ready);
    assert_eq!(kernel_key(0x550e8400e29b41d4a716446655440000), "550e8400e29b41d4a716446655440000");
    let c = KernelConnection::new("key".into(), &vec![5001, 5002, 5003, 5004, 5005]);
    assert_eq!((c.ip.as_str(), c.transport.as_str(), c.signature_scheme.as_str()), ("127.0.0.1", "tcp", "hmac-sha256"));
    assert_eq!((c.shell_port, c.iopub_port, c.stdin_port, c.control_port, c.hb_port), (5001, 5002, 5003, 5004, 5005));
    assert_eq!(connection_file_name("k1"), "kernel-k1.json");
    assert_eq!(kernel_not_found("k9").message(), "kernel error: Kernel not found: k9");
    assert_eq!(kernel_execute_failed("trace").message(), "kernel error: Execute failed: trace");
}

#[test]
fn kernel_reply_fields() {
    let r = kernel_result(Some("out".into()), None, None, 7);
    assert_eq!((r.stdout.as_str(), r.stderr.as_str(), r.exit_code, r.duration_ms), ("out", "", 1, 7));
    assert!(r.artifacts.is_empty());
    let r = kernel_result(None, Some("err".into()), Some(0), 0);
    assert_eq!((r.stdout.as_str(), r.stderr.as_str(), r.exit_code), ("", "err", 0));
    let r = kernel_result(None, None, Some(1 << 32 | 3), 0);
    assert_eq!(r.exit_code, 3);
}

#[test]
fn browser_scripts_escape_quotes() {
    assert_eq!(
        click_expression("a[href='x']"),
        "(() => { const el = document.querySelector('a[href=\\'x\\']'); if (!el) throw new Error('Not found'); el.click(); return true; })()"
    );
    let t = type_expression("#q", "it's");
    assert!(t.starts_with("(() => { const el = document.querySelector('#q'); if (!el) throw new Error('Not found'); el.focus(); el.value = 'it\\'s';"));
    assert!(t.ends_with("el.dispatchEvent(new Event('change',{bubbles:true})); return true; })()"));
}

#[test]
fn browser_launch_settings() {
    assert_eq!(launch_args(9333, false), vec!["serve".to_string(), "--port".to_string(), "9333".to_string()]);
    assert_eq!(launch_args(80, true)[3], "--stealth");
    assert_eq!(browser_ws_url(9333), "ws://127.0.0.1:9333/devtools/browser");
    assert_eq!(launch_message(), "Browser launched successfully");
    let s = png_screenshot("AAAA".into());
    assert_eq!((s.format.as_str(), s.width, s.height), ("png", 1280, 720));
    assert_eq!(DEFAULT_PORT, 9333);
}

#[test]
fn browser_state_machine() {
    let mut b = BrowserState::new();
    assert_eq!(b.page_session().unwrap_err(), "Browser not launched");
    assert_eq!(b.begin_launch(None, true).unwrap(), 9333);
    assert!(b.stealth);
    b.running = true;
    b.connected = true;
    assert_eq!(b.begin_launch(Some(1), false).unwrap_err(), "Browser already running");
    assert_eq!(b.port, 9333);
    assert_eq!(b.page_session().unwrap_err(), "No session");
    b.session = Some("S1".into());
    assert_eq!(b.page_session().unwrap(), "S1");
}

#[test]
fn connect_retries_count_down() {
    let mut left = CONNECT_RETRIES;
    let mut attempts = 1;
    while retry_connect(&mut left) {
        attempts += 1;
    }
    assert_eq!(attempts, 16);
    assert_eq!(left, 0);
    assert!(!retry_connect(&mut left));
    assert_eq!(left, 0);
}

#[test]
fn lifecycle_api_helpers() {
    assert_eq!(template_or_default(None), "base");
    assert_eq!(template_or_default(Some("py".into())), "py");
    let c = create_config(None, "/e2b/x".into());
    assert_eq!(c.memory_limit_mb, Some(512));
    assert_eq!(c.workspace_dir, Some("/e2b/x".to_string()));
    assert_eq!(create_config(Some(2048), "/e".into()).memory_limit_mb, Some(2048));
    assert_eq!(state_name(SandboxState::Running), "running");
    assert_eq!(state_name(SandboxState::Paused), "paused");
    assert_eq!(state_name(SandboxState::Failed), "stopped");
    assert_eq!(parse_id("550e8400-e29b-41d4-a716-446655440000"), Some(0x550e8400e29b41d4a716446655440000));
    assert_eq!(parse_id("zzz"), None);
    assert_eq!(not_found_message("abc"), "sandbox not found: abc");
    assert_eq!(bad_id_message("abc"), "invalid sandbox id: abc");
}

#[test]
fn browser_install_helpers() {
    assert_eq!(obscura_version(), "v0.1.5");
    assert_eq!(
        release_url("v0.1.5", "linux", "x86_64"),
        "https://github.com/h4ckf0r0day/obscura/releases/download/v0.1.5/obscura-x86_64-linux.tar.gz"
    );
    assert_eq!(archive_extension("windows"), ".zip");
    assert_eq!(archive_extension("macos"), ".tar.gz");
    assert_eq!(binary_name("windows"), "obscura.exe");
    assert_eq!(binary_name("linux"), "obscura");
    assert_eq!(extract_args("a.tar.gz", "/d", "linux"), vec!["xzf".to_string(), "a.tar.gz".to_string(), "-C".to_string(), "/d".to_string()]);
    assert_eq!(choose_binary("/home/u/.cage-bro/bin/obscura".into(), false), "obscura");
    assert_eq!(choose_binary("/b/obscura".into(), true), "/b/obscura");
}

#[test]
fn text_helpers_and_config() {
    assert_eq!(u64_to_decimal(0), "0");
    assert_eq!(u64_to_decimal(18446744073709551615), "18446744073709551615");
    assert_eq!(join_strings(&vec!["a".into(), "b".into(), "c".into()], ", "), "a, b, c");
    assert_eq!(join_strings(&Vec::new(), ", "), "");
    let c = Config::default();
    assert_eq!((c.server.host.as_str(), c.server.port), ("0.0.0.0", 8080));
    assert_eq!((c.sandbox.runtime.as_str(), c.sandbox.memory_limit_mb, c.sandbox.cpu_limit_percent), ("process", 512, 50));
}

#[test]
fn platform_names() {
    assert_eq!(detect_platform("linux", "x86_64"), ("linux", "x86_64"));
    assert_eq!(detect_platform("macos", "aarch64"), ("macos", "aarch64"));
    assert_eq!(detect_platform("freebsd", "riscv64"), ("windows", "x86_64"));
    assert_eq!(detect_platform("windows", "x86"), ("windows", "x86_64"));
}

#[test]
fn missing_local_binary_falls_back_to_path() {
    assert_eq!(obscura_bin("/nonexistent-cage-data", "linux"), "obscura");
    assert_eq!(obscura_bin("/nonexistent-cage-data", "windows"), "obscura");
}

#[test]
fn terminal_sessions() {
    assert_eq!(session_shell(None, "macos"), "/bin/zsh");
    assert_eq!(session_shell(None, "linux"), "/bin/bash");
    assert_eq!(session_shell(Some("/bin/sh".into()), "macos"), "/bin/sh");
    assert_eq!(session_term(), ("TERM", "xterm-256color"));
    assert_eq!(terminal_input_step(TerminalMessage::Binary(vec![1, 2])), TerminalStep::Write(vec![1, 2]));
    assert_eq!(terminal_input_step(TerminalMessage::Text("lé\n".into())), TerminalStep::Write("lé\n".as_bytes().to_vec()));
    assert_eq!(terminal_input_step(TerminalMessage::Close), TerminalStep::Stop);
    assert_eq!(terminal_input_step(TerminalMessage::Failed), TerminalStep::Stop);
    assert_eq!(terminal_input_step(TerminalMessage::Other), TerminalStep::Ignore);
    assert_eq!(terminal_error_text("Session not found: x"), "ERROR: Session not found: x");
    assert_eq!(session_not_found("x"), "Session not found: x");
}

#[test]
fn devtools_calls_are_matched_by_id() {
    let mut book = CallBook::new();
    let a = book.begin();
    let b = book.begin();
    assert_eq!((a, b), (1, 2));
    assert!(!book.settle(None));
    assert!(book.settle(Some(2)));
    assert!(!book.settle(Some(2)));
    assert!(!book.settle(Some(99)));
    book.abandon(1);
    assert!(!book.settle(Some(1)));
    assert_eq!(book.begin(), 3);
    assert_eq!(reply_outcome(Some("No node".to_string()), Some(5)), Err("No node".to_string()));
    assert_eq!(reply_outcome::<i32>(None, Some(5)), Ok(Some(5)));
    assert_eq!(reply_outcome::<i32>(None, None), Ok(None));
}

#[test]
fn dashboard_assets() {
    assert_eq!(cage_bro::assets::asset_key("//assets/app.js"), "assets/app.js");
    assert_eq!(cage_bro::assets::asset_key(""), "");
    assert_eq!(cage_bro::assets::asset_content_type("/index.html"), "text/html");
    assert_eq!(cage_bro::assets::asset_content_type("/assets/app.js"), "text/javascript");
    assert_eq!(cage_bro::assets::asset_content_type("/blob"), "application/octet-stream");
}

#[test]
fn kernel_replies_are_parsed() {
    let r = kernel_reply("  {\"stdout\": \"4\\n\", \"stderr\": \"\", \"exit_code\": 0}\n", 5).unwrap();
    assert_eq!((r.stdout.as_str(), r.stderr.as_str(), r.exit_code, r.duration_ms), ("4\n", "", 0, 5));
    let r = kernel_reply("{\"stdout\": 3}", 0).unwrap();
    assert_eq!((r.stdout.as_str(), r.exit_code), ("", 1));
    match kernel_reply("Traceback", 0) {
        Err(e) => assert_eq!(e.message(), "kernel error: Parse failed: expected value at line 1 column 1. Output: Traceback"),
        Ok(_) => panic!("garbage parsed"),
    }
}

#[test]
fn page_content_from_the_evaluated_json() {
    let p = page_content(Some(r#"{"url":"https://example.com/","title":"Example","text":"Hello"}"#));
    assert_eq!((p.url.as_str(), p.title.as_str(), p.text.as_str()), ("https://example.com/", "Example", "Hello"));
    let p = page_content(Some(r#"{"title":"T","text":5}"#));
    assert_eq!((p.url.as_str(), p.title.as_str(), p.text.as_str()), ("", "T", ""));
    let p = page_content(Some("not json"));
    assert_eq!((p.url.as_str(), p.title.as_str(), p.text.as_str()), ("", "", ""));
    let p = page_content(None);
    assert_eq!((p.url.as_str(), p.title.as_str(), p.text.as_str()), ("", "", ""));
}

#[test]
fn script_exceptions_become_errors() {
    assert_eq!(js_outcome(None), Ok(()));
    assert_eq!(js_outcome(Some(None)), Err("JS error".to_string()));
    assert_eq!(js_outcome(Some(Some("Uncaught ReferenceError".to_string()))), Err("Uncaught ReferenceError".to_string()));
}

#[test]
fn trimming_drops_unicode_white_space_at_both_ends() {
    assert_eq!(trim_text("  \t{\"a\": 1}\n\r "), "{\"a\": 1}");
    assert_eq!(trim_text("\u{3000}\u{a0}x y\u{2029}"), "x y");
    assert_eq!(trim_text(" \n "), "");
    assert_eq!(trim_text("\u{200b}x"), "\u{200b}x");
}
