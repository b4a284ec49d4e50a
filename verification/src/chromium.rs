//! The Windows shell that drives a downloaded Chromium: pages post their
//! messages to a small local HTTP server, the main loop answers them, and
//! a backend task carries out page commands.
use vstd::prelude::*;
use vstd::string::*;
use std::collections::VecDeque;
use crate::json::{json_string_field, json_string_field_of};
use crate::command::{Effect, EffectView, IpcMsg, IpcMsgView, effects_view};
use crate::page::{ntp_html, ntp_html_spec, windows_bg_js_spec};
use crate::search::{lemma_prefix_shape, search_prefix_spec, search_url, search_url_prefix};
use crate::settings::{Settings, SettingsView};
use crate::tab::{Tab, TabView, tabs_view, title_for_url, url_host};
use crate::text::{
    lemma_trim_ends, lemma_trim_fixed, lemma_trim_idempotent, chars_of, concat2, contains_char, matches_at, starts_with, str_eq, string_of_range, trim,
    trim_spec,
};

verus! {

// ---------------------------------------------------------------------------
// Address bar and pages
// ---------------------------------------------------------------------------

/// What the address bar makes of `input`: nothing for blank input, a URL
/// that names its scheme as it is, a word with a dot and no space with
/// `https://`, anything else appended to the engine's search prefix as it
/// is. Surrounding white space is dropped first.
pub open spec fn normalized_spec(engine: Seq<char>, input: Seq<char>) -> Seq<char> {
    let t = trim_spec(input);
    if t.len() == 0 {
        Seq::empty()
    } else if "http://"@.is_prefix_of(t) || "https://"@.is_prefix_of(t) {
        t
    } else if t.contains('.') && !t.contains(' ') {
        "https://"@ + t
    } else {
        search_prefix_spec(engine) + t
    }
}

/// What the address bar makes of `input` (see `normalized_spec`).
pub fn normalize_url(input: &str, settings: &Settings) -> (r: String)
    ensures
        r@ == normalized_spec(settings.search_engine@, input@),
{
    let trimmed = trim(input);
    let t = trimmed.as_str();
    if t.unicode_len() == 0 {
        return String::new();
    }
    if starts_with(t, "http://") || starts_with(t, "https://") {
        return trimmed;
    }
    if contains_char(t, '.') && !contains_char(t, ' ') {
        return concat2("https://", t);
    }
    concat2(search_url_prefix(settings.search_engine.as_str()), t)
}

/// The new-tab page: the template filled in with the engine's search prefix,
/// the new-tab settings (`ntp_json`, their JSON form) and the background script.
pub fn build_ntp_html(settings: &Settings, template: &str, ntp_json: &str) -> (r: String)
    ensures
        r@ == ntp_html_spec(
            template@,
            search_prefix_spec(settings.search_engine@),
            ntp_json@,
            windows_bg_js_spec(settings.bg_color@, settings.bg_image@, settings.bg_video@),
        ),
{
    let bg_js = crate::windows::bg_inject_js(settings);
    let prefix = search_url_prefix(settings.search_engine.as_str());
    ntp_html(template, prefix, ntp_json, bg_js.as_str())
}

// ---------------------------------------------------------------------------
// State
// ---------------------------------------------------------------------------

/// The state that the main loop keeps: the tabs, which one is shown, the
/// settings, and whether a new-tab page is shown.
pub struct AppState {
    pub tabs: Vec<Tab>,
    pub active_idx: usize,
    pub settings: Settings,
    pub is_ntp: bool,
}

pub struct AppStateView {
    pub tabs: Seq<TabView>,
    pub active_idx: int,
    pub settings: SettingsView,
    pub is_ntp: bool,
}

impl View for AppState {
    type V = AppStateView;

    open spec fn view(&self) -> AppStateView {
        AppStateView {
            tabs: tabs_view(self.tabs@),
            active_idx: self.active_idx as int,
            settings: self.settings@,
            is_ntp: self.is_ntp,
        }
    }
}

impl AppStateView {
    /// The shown tab's URL and title replaced where that tab exists.
    pub open spec fn located(self, url: Seq<char>, title: Seq<char>, ntp: bool) -> AppStateView {
        AppStateView {
            tabs: if 0 <= self.active_idx < self.tabs.len() {
                self.tabs.update(self.active_idx, TabView { url, title, ..self.tabs[self.active_idx] })
            } else {
                self.tabs
            },
            is_ntp: ntp,
            ..self
        }
    }

    /// The shown tab's title replaced where that tab exists.
    pub open spec fn titled(self, title: Seq<char>) -> AppStateView {
        AppStateView {
            tabs: if 0 <= self.active_idx < self.tabs.len() {
                self.tabs.update(self.active_idx, TabView { title, ..self.tabs[self.active_idx] })
            } else {
                self.tabs
            },
            ..self
        }
    }

    /// The state after a page's message `m`, and the work to do.
    pub open spec fn ipc_step(self, m: IpcMsgView) -> (AppStateView, Seq<EffectView>) {
        if m.cmd == "navigate"@ {
            if m.url.len() > 0 {
                let url = normalized_spec(self.settings.search_engine, m.url);
                (self.located(url, title_for_url(url), false), seq![EffectView::LoadUrl(url)])
            } else {
                (self.located(Seq::empty(), "New Tab"@, true), seq![EffectView::LoadNtpPage])
            }
        } else if m.cmd == "set_title"@ {
            (self.titled(m.title), Seq::empty())
        } else if m.cmd == "save_settings"@ {
            (
                AppStateView { settings: self.settings.updated(m.update), ..self },
                seq![EffectView::PersistSettings],
            )
        } else if m.cmd == "open_settings"@ {
            (AppStateView { is_ntp: false, ..self }, seq![EffectView::LoadSettingsPage])
        } else if m.cmd == "ai_chat"@ {
            (
                self,
                seq![
                    EffectView::AskAi {
                        api_key: self.settings.ai_api_key,
                        model: self.settings.ai_model,
                        prompt: m.ai_prompt,
                    },
                ],
            )
        } else if m.cmd == "clear_data"@ {
            (self, seq![EffectView::ClearData])
        } else {
            (self, Seq::empty())
        }
    }
}

impl AppState {
    /// The state at start-up: one start tab, a new-tab page, the settings.
    pub fn new(settings: Settings) -> (r: AppState)
        ensures
            r@ == (AppStateView {
                tabs: seq![crate::tab::start_tab_spec()],
                active_idx: 0,
                settings: settings@,
                is_ntp: true,
            }),
    {
        let mut tabs: Vec<Tab> = Vec::new();
        tabs.push(crate::tab::start_tab());
        let r = AppState { tabs, active_idx: 0, settings, is_ntp: true };
        assert(tabs_view(r.tabs@) =~= seq![crate::tab::start_tab_spec()]);
        r
    }

    /// The search URL for `query` on the configured engine.
    pub fn search_url(&self, query: &str) -> (r: String)
        ensures
            r@ == search_prefix_spec(self.settings.search_engine@) + query@,
    {
        search_url(self.settings.search_engine.as_str(), query)
    }

    fn locate(&mut self, url: String, title: String, ntp: bool)
        ensures
            final(self)@ == old(self)@.located(url@, title@, ntp),
    {
        let ghost before = self@;
        self.is_ntp = ntp;
        let i = self.active_idx;
        if i < self.tabs.len() {
            self.tabs[i].url = url;
            self.tabs[i].title = title;
            assert(self@.tabs =~= before.located(url@, title@, ntp).tabs);
        }
    }

    fn set_title(&mut self, title: String)
        ensures
            final(self)@ == old(self)@.titled(title@),
    {
        let ghost before = self@;
        let i = self.active_idx;
        if i < self.tabs.len() {
            self.tabs[i].title = title;
            assert(self@.tabs =~= before.tabs.update(
                i as int,
                TabView { title: title@, ..before.tabs[i as int] },
            ));
        }
    }

    fn single(e: Effect) -> (r: Vec<Effect>)
        ensures
            effects_view(r@) == seq![e@],
    {
        let mut out: Vec<Effect> = Vec::new();
        out.push(e);
        assert(effects_view(out@) =~= seq![e@]);
        out
    }

    /// Handles a page's message: updates the state and lists the work for
    /// the shell (page loads become backend commands).
    pub fn handle_ipc(&mut self, msg: IpcMsg) -> (r: Vec<Effect>)
        ensures
            (final(self)@, effects_view(r@)) == old(self)@.ipc_step(msg@),
    {
        let cmd = msg.cmd.as_str();
        if str_eq(cmd, "navigate") {
            if msg.url.as_str().unicode_len() > 0 {
                let url = normalize_url(msg.url.as_str(), &self.settings);
                let title = url_host(url.as_str());
                let u2 = url.clone();
                self.locate(url, title, false);
                Self::single(Effect::LoadUrl(u2))
            } else {
                self.locate(String::new(), String::from_str("New Tab"), true);
                Self::single(Effect::LoadNtpPage)
            }
        } else if str_eq(cmd, "set_title") {
            self.set_title(msg.title);
            let out: Vec<Effect> = Vec::new();
            assert(effects_view(out@) =~= Seq::<EffectView>::empty());
            out
        } else if str_eq(cmd, "save_settings") {
            self.settings.apply_update(msg.update);
            Self::single(Effect::PersistSettings)
        } else if str_eq(cmd, "open_settings") {
            self.is_ntp = false;
            Self::single(Effect::LoadSettingsPage)
        } else if str_eq(cmd, "ai_chat") {
            Self::single(
                Effect::AskAi {
                    api_key: self.settings.ai_api_key.clone(),
                    model: self.settings.ai_model.clone(),
                    prompt: msg.ai_prompt,
                },
            )
        } else if str_eq(cmd, "clear_data") {
            Self::single(Effect::ClearData)
        } else {
            let out: Vec<Effect> = Vec::new();
            assert(effects_view(out@) =~= Seq::<EffectView>::empty());
            out
        }
    }
}

// ---------------------------------------------------------------------------
// IPC over local HTTP
// ---------------------------------------------------------------------------

/// The messages that arrived and were not yet handled, oldest first.
pub struct IpcQueue {
    pending: VecDeque<String>,
}

pub open spec fn strings_view(v: Seq<String>) -> Seq<Seq<char>> {
    v.map_values(|s: String| s@)
}

impl View for IpcQueue {
    type V = Seq<Seq<char>>;

    closed spec fn view(&self) -> Seq<Seq<char>> {
        strings_view(self.pending@)
    }
}

impl IpcQueue {
    /// An empty queue.
    pub fn new() -> (r: IpcQueue)
        ensures
            r@ == Seq::<Seq<char>>::empty(),
    {
        let r = IpcQueue { pending: VecDeque::new() };
        assert(r@ =~= Seq::<Seq<char>>::empty());
        r
    }

    /// Adds a message after the others.
    pub fn push(&mut self, msg: String)
        ensures
            final(self)@ == old(self)@.push(msg@),
    {
        let ghost before = self.pending@;
        self.pending.push_back(msg);
        assert(strings_view(self.pending@) =~= strings_view(before).push(msg@));
    }

    /// Takes every message out, oldest first.
    pub fn drain(&mut self) -> (r: Vec<String>)
        ensures
            strings_view(r@) == old(self)@,
            final(self)@ == Seq::<Seq<char>>::empty(),
    {
        let ghost all = self.pending@;
        let mut out: Vec<String> = Vec::new();
        loop
            invariant
                out@ + self.pending@ == all,
            ensures
                out@ == all,
                self.pending@.len() == 0,
            decreases self.pending@.len(),
        {
            let ghost rest = self.pending@;
            match self.pending.pop_front() {
                Some(m) => {
                    out.push(m);
                    assert(out@ + self.pending@ =~= all) by {
                        assert(rest =~= seq![m] + self.pending@);
                    }
                },
                None => {
                    assert(out@ + rest =~= out@);
                    break;
                },
            }
        }
        assert(self@ =~= Seq::<Seq<char>>::empty());
        out
    }
}

/// The first index at or after `i` where `p` occurs in `s`.
pub open spec fn find_from(s: Seq<char>, p: Seq<char>, i: int) -> Option<int>
    decreases s.len() - i,
{
    if i < 0 || i + p.len() > s.len() {
        None
    } else if p.is_prefix_of(s.skip(i)) {
        Some(i)
    } else {
        find_from(s, p, i + 1)
    }
}

proof fn lemma_find_from_found(s: Seq<char>, p: Seq<char>, j: int, i: int)
    requires
        find_from(s, p, j) == Some(i),
    ensures
        j <= i,
        i + p.len() <= s.len(),
        p.is_prefix_of(s.skip(i)),
    decreases s.len() - j,
{
    if j < 0 || j + p.len() > s.len() {
    } else if p.is_prefix_of(s.skip(j)) {
    } else {
        lemma_find_from_found(s, p, j + 1, i);
    }
}

/// The first index where `p` occurs in `s` (`str::find`).
pub fn find_str(s: &str, p: &str) -> (r: Option<usize>)
    ensures
        r matches Some(i) ==> find_from(s@, p@, 0) == Some(i as int),
        r is None ==> find_from(s@, p@, 0) is None,
{
    let v = chars_of(s);
    let pv = chars_of(p);
    if pv.len() > v.len() {
        return None;
    }
    let mut i: usize = 0;
    while i <= v.len() - pv.len()
        invariant
            v@ == s@,
            pv@ == p@,
            pv.len() <= v.len(),
            i <= v.len() - pv.len() + 1,
            find_from(s@, p@, 0) == find_from(s@, p@, i as int),
        decreases v.len() - i,
    {
        if matches_at(&v, i, &pv) {
            return Some(i);
        }
        i = i + 1;
    }
    None
}

/// How the IPC server answers one request.
pub struct HttpReply {
    /// The message to queue, where the request carries one.
    pub message: Option<String>,
    /// The response to write back, where there is one.
    pub response: Option<&'static str>,
}

pub open spec fn ok_response() -> Seq<char> {
    "HTTP/1.1 200 OK\r\nAccess-Control-Allow-Origin: *\r\nContent-Length: 2\r\n\r\n{}"@
}

pub open spec fn preflight_response() -> Seq<char> {
    "HTTP/1.1 204 OK\r\nAccess-Control-Allow-Origin: *\r\nAccess-Control-Allow-Methods: POST, OPTIONS\r\nAccess-Control-Allow-Headers: Content-Type\r\nContent-Length: 0\r\n\r\n"@
}

pub open spec fn not_found_response() -> Seq<char> {
    "HTTP/1.1 404 Not Found\r\nContent-Length: 0\r\n\r\n"@
}

/// The answer to a request: a `POST /ipc` with a header end queues its body
/// and gets `200`; one without a header end gets nothing at all; an
/// `OPTIONS` preflight gets `204`; anything else `404`.
pub fn ipc_http_reply(request: &str) -> (r: HttpReply)
    ensures
        "POST /ipc"@.is_prefix_of(request@) ==> match find_from(request@, "\r\n\r\n"@, 0) {
            Some(i) => (r.message matches Some(m) && m@ == request@.skip(i + 4)) && (r.response
                matches Some(x) && x@ == ok_response()),
            None => r.message is None && r.response is None,
        },
        !"POST /ipc"@.is_prefix_of(request@) ==> r.message is None && (if "OPTIONS"@.is_prefix_of(
            request@,
        ) {
            (r.response matches Some(x) && x@ == preflight_response())
        } else {
            (r.response matches Some(x) && x@ == not_found_response())
        }),
{
    if starts_with(request, "POST /ipc") {
        match find_str(request, "\r\n\r\n") {
            Some(i) => {
                proof {
                    reveal_strlit("\r\n\r\n");
                    lemma_find_from_found(request@, "\r\n\r\n"@, 0, i as int);
                }
                let v = chars_of(request);
                let body = string_of_range(&v, i + 4, v.len());
                assert(body@ =~= request@.skip(i + 4));
                HttpReply {
                    message: Some(body),
                    response: Some(
                        "HTTP/1.1 200 OK\r\nAccess-Control-Allow-Origin: *\r\nContent-Length: 2\r\n\r\n{}",
                    ),
                }
            },
            None => HttpReply { message: None, response: None },
        }
    } else if starts_with(request, "OPTIONS") {
        HttpReply {
            message: None,
            response: Some(
                "HTTP/1.1 204 OK\r\nAccess-Control-Allow-Origin: *\r\nAccess-Control-Allow-Methods: POST, OPTIONS\r\nAccess-Control-Allow-Headers: Content-Type\r\nContent-Length: 0\r\n\r\n",
            ),
        }
    } else {
        HttpReply { message: None, response: Some("HTTP/1.1 404 Not Found\r\nContent-Length: 0\r\n\r\n") }
    }
}

// ---------------------------------------------------------------------------
// Backend
// ---------------------------------------------------------------------------

/// One operation on the browser page.
pub enum PageOp {
    Goto(String),
    SetContent(String),
    Evaluate(String),
    CloseBrowser,
    Exit,
}

pub enum PageOpView {
    Goto(Seq<char>),
    SetContent(Seq<char>),
    Evaluate(Seq<char>),
    CloseBrowser,
    Exit,
}

impl View for PageOp {
    type V = PageOpView;

    open spec fn view(&self) -> PageOpView {
        match self {
            PageOp::Goto(s) => PageOpView::Goto(s@),
            PageOp::SetContent(s) => PageOpView::SetContent(s@),
            PageOp::Evaluate(s) => PageOpView::Evaluate(s@),
            PageOp::CloseBrowser => PageOpView::CloseBrowser,
            PageOp::Exit => PageOpView::Exit,
        }
    }
}

pub open spec fn ops_view(v: Seq<PageOp>) -> Seq<PageOpView> {
    v.map_values(|o: PageOp| o@)
}

/// The page operations for a backend command named `cmd` whose argument
/// (`url`, `html` or `js`, by command) is `arg`; `toolbar` is the toolbar
/// script run after each page load. Unknown commands, or a missing
/// argument, do nothing.
pub open spec fn backend_ops_spec(
    cmd: Option<Seq<char>>,
    arg: Option<Seq<char>>,
    toolbar: Seq<char>,
) -> Seq<PageOpView> {
    match cmd {
        Some(c) => if c == "navigate"@ {
            match arg {
                Some(u) => seq![PageOpView::Goto(u), PageOpView::Evaluate(toolbar)],
                None => Seq::empty(),
            }
        } else if c == "load_html"@ {
            match arg {
                Some(h) => seq![
                    PageOpView::Goto("about:blank"@),
                    PageOpView::SetContent(h),
                    PageOpView::Evaluate(toolbar),
                ],
                None => Seq::empty(),
            }
        } else if c == "execute_js"@ {
            match arg {
                Some(j) => seq![PageOpView::Evaluate(j)],
                None => Seq::empty(),
            }
        } else if c == "shutdown"@ {
            seq![PageOpView::CloseBrowser, PageOpView::Exit]
        } else {
            Seq::empty()
        },
        None => Seq::empty(),
    }
}

/// The argument key that a backend command reads: `url`, `html` or `js`.
pub fn backend_arg_key(cmd: &str) -> (r: Option<&'static str>)
    ensures
        if cmd@ == "navigate"@ {
            r matches Some(k) && k@ == "url"@
        } else if cmd@ == "load_html"@ {
            r matches Some(k) && k@ == "html"@
        } else if cmd@ == "execute_js"@ {
            r matches Some(k) && k@ == "js"@
        } else {
            r is None
        },
{
    if str_eq(cmd, "navigate") {
        Some("url")
    } else if str_eq(cmd, "load_html") {
        Some("html")
    } else if str_eq(cmd, "execute_js") {
        Some("js")
    } else {
        None
    }
}

pub open spec fn opt_view(o: Option<String>) -> Option<Seq<char>> {
    match o {
        Some(s) => Some(s@),
        None => None,
    }
}

/// The command name of a backend command's JSON and its argument (under
/// the key that `backend_arg_key` gives for the name).
pub open spec fn decoded_command_spec(json: Seq<char>) -> (Option<Seq<char>>, Option<Seq<char>>) {
    let name = json_string_field_of(json, "cmd"@);
    let key = match name {
        Some(n) => if n == "navigate"@ {
            Some("url"@)
        } else if n == "load_html"@ {
            Some("html"@)
        } else if n == "execute_js"@ {
            Some("js"@)
        } else {
            None
        },
        None => None,
    };
    (name, match key {
        Some(k) => json_string_field_of(json, k),
        None => None,
    })
}

/// Reads a backend command (see `decoded_command_spec`).
pub fn decode_command(json: &str) -> (r: (Option<String>, Option<String>))
    ensures
        (opt_view(r.0), opt_view(r.1)) == decoded_command_spec(json@),
{
    let name = json_string_field(json, "cmd");
    let key = match &name {
        Some(n) => backend_arg_key(n.as_str()),
        None => None,
    };
    let arg = match key {
        Some(k) => json_string_field(json, k),
        None => None,
    };
    (name, arg)
}

/// The page operations for one backend command (see `backend_ops_spec`).
pub fn backend_ops(cmd: Option<String>, arg: Option<String>, toolbar: &str) -> (r: Vec<PageOp>)
    ensures
        ops_view(r@) == backend_ops_spec(opt_view(cmd), opt_view(arg), toolbar@),
{
    let mut out: Vec<PageOp> = Vec::new();
    match cmd {
        Some(c) => {
            if str_eq(c.as_str(), "navigate") {
                if let Some(u) = arg {
                    out.push(PageOp::Goto(u));
                    out.push(PageOp::Evaluate(String::from_str(toolbar)));
                }
            } else if str_eq(c.as_str(), "load_html") {
                if let Some(h) = arg {
                    out.push(PageOp::Goto(String::from_str("about:blank")));
                    out.push(PageOp::SetContent(h));
                    out.push(PageOp::Evaluate(String::from_str(toolbar)));
                }
            } else if str_eq(c.as_str(), "execute_js") {
                if let Some(j) = arg {
                    out.push(PageOp::Evaluate(j));
                }
            } else if str_eq(c.as_str(), "shutdown") {
                out.push(PageOp::CloseBrowser);
                out.push(PageOp::Exit);
            }
        },
        None => {},
    }
    assert(ops_view(out@) =~= backend_ops_spec(opt_view(cmd), opt_view(arg), toolbar@));
    out
}

proof fn lemma_prefix_of_concat(p: Seq<char>, a: Seq<char>, b: Seq<char>)
    requires
        p.is_prefix_of(a),
    ensures
        p.is_prefix_of(a + b),
{
    assert(p =~= (a + b).subrange(0, p.len() as int));
}

/// For input that is not blank, the address bar loads an `http://` or
/// `https://` URL; blank input loads nothing.
pub proof fn lemma_normalized_is_web_url(engine: Seq<char>, input: Seq<char>)
    ensures
        trim_spec(input).len() == 0 ==> normalized_spec(engine, input).len() == 0,
        trim_spec(input).len() > 0 ==> ("http://"@.is_prefix_of(normalized_spec(engine, input))
            || "https://"@.is_prefix_of(normalized_spec(engine, input))),
{
    let t = trim_spec(input);
    if t.len() == 0 {
    } else if "http://"@.is_prefix_of(t) || "https://"@.is_prefix_of(t) {
    } else if t.contains('.') && !t.contains(' ') {
        lemma_prefix_of_concat("https://"@, "https://"@, t);
    } else {
        lemma_prefix_shape(engine);
        lemma_prefix_of_concat("https://"@, search_prefix_spec(engine), t);
    }
}

/// Normalizing what the address bar already normalized changes nothing.
pub proof fn lemma_normalize_idempotent(engine: Seq<char>, input: Seq<char>)
    ensures
        normalized_spec(engine, normalized_spec(engine, input)) == normalized_spec(engine, input),
{
    reveal_strlit("http://");
    reveal_strlit("https://");
    let t = trim_spec(input);
    let n = normalized_spec(engine, input);
    lemma_trim_ends(input);
    if t.len() == 0 {
        assert(n =~= Seq::<char>::empty());
        lemma_trim_fixed(n);
    } else if "http://"@.is_prefix_of(t) || "https://"@.is_prefix_of(t) {
        lemma_trim_idempotent(input);
    } else if t.contains('.') && !t.contains(' ') {
        assert(n[0] == 'h');
        assert(n.last() == t.last());
        lemma_trim_fixed(n);
        lemma_prefix_of_concat("https://"@, "https://"@, t);
    } else {
        let p = search_prefix_spec(engine);
        lemma_prefix_shape(engine);
        let q = t;
        assert(n.last() == t.last());
        assert(n[0] == p[0]);
        lemma_trim_fixed(n);
        lemma_prefix_of_concat("https://"@, p, q);
    }
}

/// A `save_settings` message applies the update it carries to the settings:
/// each field that it carries is read back as written (a non-empty one for
/// the search engine and the API key), each other field keeps its value, and
/// the settings are persisted first.
pub proof fn lemma_save_settings_applies_update(s: AppStateView, m: IpcMsgView)
    requires
        m.cmd == "save_settings"@,
    ensures
        s.ipc_step(m).0.settings == s.settings.updated(m.update),
        s.ipc_step(m).1.len() >= 1,
        s.ipc_step(m).1[0] == EffectView::PersistSettings,
        (m.update.search_engine is Some && m.update.search_engine->0.len() > 0)
            ==> s.ipc_step(m).0.settings.search_engine == m.update.search_engine->0,
        m.update.search_engine is None ==> s.ipc_step(m).0.settings.search_engine
            == s.settings.search_engine,
        m.update.bg_image is Some ==> s.ipc_step(m).0.settings.bg_image == m.update.bg_image->0,
        m.update.bg_image is None ==> s.ipc_step(m).0.settings.bg_image == s.settings.bg_image,
        m.update.homepage is Some ==> s.ipc_step(m).0.settings.homepage == m.update.homepage->0,
        m.update.ntp is Some ==> s.ipc_step(m).0.settings.ntp == m.update.ntp->0,
{
    reveal_strlit("save_settings");
    reveal_strlit("navigate");
    assert("save_settings"@[0] != "navigate"@[0]);
    reveal_strlit("set_title");
    assert("save_settings"@[1] != "set_title"@[1]);
    crate::settings::lemma_update_reads_back(s.settings, m.update);
}

} // verus!
