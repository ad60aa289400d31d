//! The headless browser's control logic: how the browser process is
//! started, the JavaScript sent to click and type, the retry policy while
//! its DevTools endpoint comes up, and which state each command needs.

use vstd::prelude::*;
use crate::code::stream_text;
use crate::text::{chars_to_string, decimal, owned, push_decimal, push_str, str_chars};

verus! {

/// The DevTools port used when none is given.
pub const DEFAULT_PORT: u16 = 9333;
/// Width reported for a screenshot.
pub const SCREENSHOT_WIDTH: u32 = 1280;
/// Height reported for a screenshot.
pub const SCREENSHOT_HEIGHT: u32 = 720;
/// How many more connection attempts follow a failed first one.
pub const CONNECT_RETRIES: u32 = 15;

/// The text content of a page.
#[derive(Debug, Clone)]
pub struct PageContent {
    pub url: String,
    pub title: String,
    pub text: String,
}

/// What a page-content text gives when `serde_json::from_str` parses it as a
/// JSON value: its `url`, `title` and `text` strings (each absent when
/// missing or of another type), or nothing when the text does not parse.
pub uninterp spec fn page_fields(text: Seq<char>) -> Option<(Option<Seq<char>>, Option<Seq<char>>, Option<Seq<char>>)>;

/// The plain values of parsed page fields.
pub open spec fn page_fields_view(r: Option<(Option<String>, Option<String>, Option<String>)>) -> Option<(Option<Seq<char>>, Option<Seq<char>>, Option<Seq<char>>)> {
    match r {
        Some(t) => Some((
            match t.0 { Some(s) => Some(s@), None => None },
            match t.1 { Some(s) => Some(s@), None => None },
            match t.2 { Some(s) => Some(s@), None => None },
        )),
        None => None,
    }
}

/// Parses a page-content text with `serde_json::from_str` into a JSON value
/// and picks `url`, `title` and `text` (`as_str`); `None` when it does not
/// parse. Trusted: the result is `page_fields` of the text.
#[verifier::external_body]
fn parse_page_fields(text: &str) -> (res: Option<(Option<String>, Option<String>, Option<String>)>)
    ensures
        page_fields_view(res) == page_fields(text@),
{
    match serde_json::from_str::<serde_json::Value>(text) {
        Ok(v) => Some((v["url"].as_str().map(|s| s.to_string()), v["title"].as_str().map(|s| s.to_string()), v["text"].as_str().map(|s| s.to_string()))),
        Err(_) => None,
    }
}

fn text_or_empty(s: Option<String>) -> (res: String)
    ensures
        res@ == stream_text(match s { Some(t) => Some(t@), None => None }),
{
    match s {
        Some(t) => t,
        None => String::new(),
    }
}

/// The page content from the JSON text that the page's evaluation returned
/// (`"{}"` when it returned no string): its `url`, `title` and `text`, each
/// empty when missing; all three empty when the text does not parse.
pub fn page_content(value: Option<&str>) -> (res: PageContent)
    ensures
        match page_fields(match value { Some(v) => v@, None => "{}"@ }) {
            Some(f) => res.url@ == stream_text(f.0) && res.title@ == stream_text(f.1) && res.text@ == stream_text(f.2),
            None => res.url@.len() == 0 && res.title@.len() == 0 && res.text@.len() == 0,
        },
{
    let text: &str = match value {
        Some(v) => v,
        None => "{}",
    };
    match parse_page_fields(text) {
        Some(fields) => {
            let (url, title, body) = fields;
            PageContent { url: text_or_empty(url), title: text_or_empty(title), text: text_or_empty(body) }
        },
        None => PageContent { url: String::new(), title: String::new(), text: String::new() },
    }
}

/// The outcome of a script evaluation from its exception details: `None`
/// when there were none; otherwise the error with the details' text, or
/// `JS error` when they hold no text.
pub fn js_outcome(exception: Option<Option<String>>) -> (res: Result<(), String>)
    ensures
        match exception {
            None => res is Ok,
            Some(None) => res matches Err(m) && m@ == "JS error"@,
            Some(Some(t)) => res matches Err(m) && m@ == t@,
        },
{
    match exception {
        None => Ok(()),
        Some(None) => Err(owned("JS error")),
        Some(Some(t)) => Err(t),
    }
}

/// A screenshot, base64-encoded.
#[derive(Debug, Clone)]
pub struct ScreenshotData {
    pub data: String,
    pub format: String,
    pub width: u32,
    pub height: u32,
}

/// A PNG screenshot with the given data and the reported size.
pub fn png_screenshot(data: String) -> (res: ScreenshotData)
    ensures
        res.data == data,
        res.format@ == "png"@,
        res.width == SCREENSHOT_WIDTH,
        res.height == SCREENSHOT_HEIGHT,
{
    ScreenshotData { data, format: owned("png"), width: SCREENSHOT_WIDTH, height: SCREENSHOT_HEIGHT }
}

/// `s` with each `'` preceded by a backslash.
pub open spec fn escape_quotes(s: Seq<char>) -> Seq<char>
    decreases s.len(),
{
    if s.len() == 0 {
        seq![]
    } else if s.last() == '\'' {
        escape_quotes(s.drop_last()) + seq!['\\', '\'']
    } else {
        escape_quotes(s.drop_last()).push(s.last())
    }
}

fn push_escaped(v: &mut Vec<char>, s: &str)
    ensures
        final(v)@ == old(v)@ + escape_quotes(s@),
{
    let cs = str_chars(s);
    let mut i: usize = 0;
    assert(cs@.take(0) =~= Seq::<char>::empty());
    assert(old(v)@ + escape_quotes(seq![]) =~= old(v)@);
    while i < cs.len()
        invariant
            i <= cs@.len(),
            v@ == old(v)@ + escape_quotes(cs@.take(i as int)),
        decreases cs@.len() - i,
    {
        assert(cs@.take(i + 1).drop_last() =~= cs@.take(i as int));
        let c = cs[i];
        if c == '\'' {
            v.push('\\');
            v.push('\'');
        } else {
            v.push(c);
        }
        assert(v@ =~= old(v)@ + escape_quotes(cs@.take(i + 1)));
        i = i + 1;
    }
    assert(cs@.take(cs@.len() as int) =~= cs@);
}

/// The script that clicks the element matching a CSS selector.
pub open spec fn click_script(selector: Seq<char>) -> Seq<char> {
    "(() => { const el = document.querySelector('"@ + escape_quotes(selector)
        + "'); if (!el) throw new Error('Not found'); el.click(); return true; })()"@
}

/// The script that clicks the element matching `selector` (single quotes in
/// the selector escaped).
pub fn click_expression(selector: &str) -> (res: String)
    ensures
        res@ == click_script(selector@),
{
    let mut v: Vec<char> = Vec::new();
    push_str(&mut v, "(() => { const el = document.querySelector('");
    push_escaped(&mut v, selector);
    push_str(&mut v, "'); if (!el) throw new Error('Not found'); el.click(); return true; })()");
    assert(v@ =~= click_script(selector@));
    chars_to_string(v.as_slice())
}

/// The script that types text into the element matching a CSS selector:
/// focus it, set its value, dispatch `input` and `change`.
pub open spec fn type_script(selector: Seq<char>, text: Seq<char>) -> Seq<char> {
    "(() => { const el = document.querySelector('"@ + escape_quotes(selector)
        + "'); if (!el) throw new Error('Not found'); el.focus(); el.value = '"@ + escape_quotes(text)
        + "'; el.dispatchEvent(new Event('input',{bubbles:true})); el.dispatchEvent(new Event('change',{bubbles:true})); return true; })()"@
}

/// The script that types `text` into the element matching `selector`
/// (single quotes in both escaped).
pub fn type_expression(selector: &str, text: &str) -> (res: String)
    ensures
        res@ == type_script(selector@, text@),
{
    let mut v: Vec<char> = Vec::new();
    push_str(&mut v, "(() => { const el = document.querySelector('");
    push_escaped(&mut v, selector);
    push_str(&mut v, "'); if (!el) throw new Error('Not found'); el.focus(); el.value = '");
    push_escaped(&mut v, text);
    push_str(
        &mut v,
        "'; el.dispatchEvent(new Event('input',{bubbles:true})); el.dispatchEvent(new Event('change',{bubbles:true})); return true; })()",
    );
    assert(v@ =~= type_script(selector@, text@));
    chars_to_string(v.as_slice())
}

/// The arguments the browser process is started with: serve on the port,
/// stealth mode when asked.
pub fn launch_args(port: u16, stealth: bool) -> (res: Vec<String>)
    ensures
        res@.len() == (if stealth { 4int } else { 3int }),
        res@[0]@ == "serve"@,
        res@[1]@ == "--port"@,
        res@[2]@ == decimal(port as nat),
        stealth ==> res@[3]@ == "--stealth"@,
{
    let mut v: Vec<String> = Vec::new();
    v.push(owned("serve"));
    v.push(owned("--port"));
    let mut d: Vec<char> = Vec::new();
    push_decimal(&mut d, port as u64);
    assert(d@ =~= decimal(port as nat));
    v.push(chars_to_string(d.as_slice()));
    if stealth {
        v.push(owned("--stealth"));
    }
    v
}

/// The DevTools WebSocket URL of the browser on `port`.
pub fn browser_ws_url(port: u16) -> (res: String)
    ensures
        res@ == "ws://127.0.0.1:"@ + decimal(port as nat) + "/devtools/browser"@,
{
    let mut v: Vec<char> = Vec::new();
    push_str(&mut v, "ws://127.0.0.1:");
    push_decimal(&mut v, port as u64);
    push_str(&mut v, "/devtools/browser");
    assert(v@ =~= "ws://127.0.0.1:"@ + decimal(port as nat) + "/devtools/browser"@);
    chars_to_string(v.as_slice())
}

/// The message of a successful launch.
pub fn launch_message() -> (res: String)
    ensures
        res@ == "Browser launched successfully"@,
{
    owned("Browser launched successfully")
}

/// What the browser manager holds: whether a browser process runs, whether
/// a DevTools connection and a page session exist, and the launch settings.
#[derive(Debug, Clone)]
pub struct BrowserState {
    pub running: bool,
    pub connected: bool,
    pub session: Option<String>,
    pub port: u16,
    pub stealth: bool,
}

impl BrowserState {
    /// No browser: port 9333, stealth off.
    pub fn new() -> (res: BrowserState)
        ensures
            !res.running,
            !res.connected,
            res.session is None,
            res.port == DEFAULT_PORT,
            !res.stealth,
    {
        BrowserState { running: false, connected: false, session: None, port: DEFAULT_PORT, stealth: false }
    }

    /// Starts a launch: refused while a browser runs; otherwise records the
    /// port (9333 by default) and stealth setting and returns the port.
    pub fn begin_launch(&mut self, port: Option<u16>, stealth: bool) -> (res: Result<u16, String>)
        ensures
            old(self).running ==> (res matches Err(m) && m@ == "Browser already running"@ && *final(self) == *old(self)),
            !old(self).running ==> (res matches Ok(p) && p == (match port { Some(q) => q, None => DEFAULT_PORT })
                && final(self).port == p && final(self).stealth == stealth
                && final(self).running == old(self).running && final(self).connected == old(self).connected
                && final(self).session == old(self).session),
    {
        if self.running {
            return Err(owned("Browser already running"));
        }
        let p = match port {
            Some(q) => q,
            None => DEFAULT_PORT,
        };
        self.port = p;
        self.stealth = stealth;
        Ok(p)
    }

    /// The text of the error a page command gets when the browser cannot
    /// serve it: no connection, or no page session.
    pub fn page_session(&self) -> (res: Result<String, String>)
        ensures
            !self.connected ==> (res matches Err(m) && m@ == "Browser not launched"@),
            self.connected && self.session is None ==> (res matches Err(m) && m@ == "No session"@),
            self.connected && self.session is Some ==> res == Ok::<String, String>(self.session->0),
    {
        if !self.connected {
            return Err(owned("Browser not launched"));
        }
        match &self.session {
            None => Err(owned("No session")),
            Some(s) => Ok(s.clone()),
        }
    }
}

/// Whether another DevTools connection attempt follows a failure, given the
/// attempts left; counts one down when it does.
pub fn retry_connect(left: &mut u32) -> (again: bool)
    ensures
        again == (*old(left) > 0),
        again ==> *final(left) == *old(left) - 1,
        !again ==> *final(left) == *old(left),
{
    if *left > 0 {
        *left = *left - 1;
        true
    } else {
        false
    }
}

} // verus!
