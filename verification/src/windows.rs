//! The Windows shell: one WebView2 view whose toolbar is a script injected
//! into every page, tabs switched and closed by id, and the messages that
//! the pages post.
use vstd::prelude::*;
use vstd::string::*;
use vstd::utf8::*;
use crate::command::{Effect, EffectView, IpcMsg, IpcMsgView, effects_view};
use crate::json::{tabs_json, tabs_json_spec};
use crate::page::{
    bg_color_js_spec, ntp_html, ntp_html_spec, push_color_js, quote_escape, quote_escape_spec,
    windows_bg_js_spec,
};
use crate::search::{lemma_prefix_shape, search_prefix_spec, search_url_prefix};
use crate::settings::{Settings, SettingsUpdate, SettingsUpdateView, SettingsView};
use crate::tab::{
    Tab, TabView, first_with_id, is_first_with_id, is_hyphenated_uuid, new_uuid_string,
    position_of_id, tabs_view, title_for_url, url_host,
};
use crate::text::{
    concat2, contains_char, is_white_space, lemma_trim_ends, lemma_trim_fixed,
    lemma_trim_idempotent, push_str, starts_with, str_eq, string_push, trim, trim_spec,
};

verus! {

broadcast use vstd::utf8::group_utf8_lib;

// ---------------------------------------------------------------------------
// Address bar
// ---------------------------------------------------------------------------

/// Bytes that a search query keeps as they are: ASCII letters, digits and
/// `-`, `_`, `.`, `~`.
pub open spec fn is_unreserved(b: u8) -> bool {
    (65 <= b && b <= 90) || (97 <= b && b <= 122) || (48 <= b && b <= 57) || b == 45 || b == 95
        || b == 46 || b == 126
}

/// The upper-case hex digit of `n` (below 16).
pub open spec fn hex_upper(n: u8) -> char {
    if n < 10 {
        (48 + n) as char
    } else {
        (55 + n) as char
    }
}

/// How one byte of a query is written: unreserved bytes as they are, a
/// space as `+`, any other byte as `%` and two upper-case hex digits.
pub open spec fn pct_byte(b: u8) -> Seq<char> {
    if is_unreserved(b) {
        seq![b as char]
    } else if b == 32 {
        seq!['+']
    } else {
        seq!['%', hex_upper(b / 16), hex_upper(b % 16)]
    }
}

/// The bytes of a query, each written as `pct_byte` says.
pub open spec fn pct_encode_spec(bytes: Seq<u8>) -> Seq<char>
    decreases bytes.len(),
{
    if bytes.len() == 0 {
        Seq::empty()
    } else {
        pct_encode_spec(bytes.drop_last()) + pct_byte(bytes.last())
    }
}

/// The value of a hex digit (`0`-`9`, `A`-`F`).
pub open spec fn hex_value(c: char) -> int {
    if '0' <= c && c <= '9' {
        c as int - 48
    } else {
        c as int - 55
    }
}

/// Form decoding of an encoded query, read from its end: `%` and two hex
/// digits give one byte, `+` a space, any other character its own code.
pub open spec fn form_decode(s: Seq<char>) -> Seq<u8>
    decreases s.len(),
{
    if s.len() == 0 {
        Seq::empty()
    } else if s.len() >= 3 && s[s.len() - 3] == '%' {
        form_decode(s.take(s.len() - 3)).push(
            (hex_value(s[s.len() - 2]) * 16 + hex_value(s[s.len() - 1])) as u8,
        )
    } else if s.last() == '+' {
        form_decode(s.drop_last()).push(32u8)
    } else {
        form_decode(s.drop_last()).push((s.last() as u32) as u8)
    }
}

fn hex_digit(n: u8) -> (c: char)
    requires
        n < 16,
    ensures
        c == hex_upper(n),
{
    if n < 10 {
        (48 + n) as char
    } else {
        (55 + n) as char
    }
}

/// The UTF-8 bytes of `s` percent-encoded for a query (see `pct_byte`).
pub fn pct_encode(s: &str) -> (r: String)
    ensures
        r@ == pct_encode_spec(encode_utf8(s@)),
{
    let bytes = s.as_bytes();
    let mut r = String::new();
    let mut i: usize = 0;
    assert(bytes@.take(0) =~= Seq::<u8>::empty());
    while i < bytes.len()
        invariant
            i <= bytes@.len(),
            bytes@ == encode_utf8(s@),
            r@ == pct_encode_spec(bytes@.take(i as int)),
        decreases bytes.len() - i,
    {
        let b = bytes[i];
        assert(bytes@.take(i + 1).drop_last() =~= bytes@.take(i as int));
        if (65 <= b && b <= 90) || (97 <= b && b <= 122) || (48 <= b && b <= 57) || b == 45 || b
            == 95 || b == 46 || b == 126 {
            string_push(&mut r, b as char);
            assert(seq![b as char] =~= pct_byte(b));
        } else if b == 32 {
            string_push(&mut r, '+');
            assert(seq!['+'] =~= pct_byte(b));
        } else {
            let ghost before = r@;
            string_push(&mut r, '%');
            string_push(&mut r, hex_digit(b / 16));
            string_push(&mut r, hex_digit(b % 16));
            assert(r@ =~= before + pct_byte(b));
        }
        i = i + 1;
    }
    assert(bytes@.take(bytes@.len() as int) =~= bytes@);
    r
}

/// What the address bar makes of `input`: nothing for blank input, a URL
/// that names its scheme as it is, a word with a dot and no space with
/// `https://`, anything else as a percent-encoded search on `engine`.
/// Surrounding white space is dropped first.
pub open spec fn normalized_spec(engine: Seq<char>, input: Seq<char>) -> Seq<char> {
    let t = trim_spec(input);
    if t.len() == 0 {
        Seq::empty()
    } else if "http://"@.is_prefix_of(t) || "https://"@.is_prefix_of(t) {
        t
    } else if t.contains('.') && !t.contains(' ') {
        "https://"@ + t
    } else {
        search_prefix_spec(engine) + pct_encode_spec(encode_utf8(t))
    }
}

/// What the address bar makes of `input` (see `normalized_spec`).
pub fn normalize_url(input: &str, settings: &Settings) -> (r: String)
    ensures
        r@ == normalized_spec(settings.search_engine@, input@),
{
    let trimmed = trim(input);
    let t = trimmed.as_str();
    if t.unicode_len() == 0 {
        return String::new();
    }
    if starts_with(t, "http://") || starts_with(t, "https://") {
        return trimmed;
    }
    if contains_char(t, '.') && !contains_char(t, ' ') {
        return concat2("https://", t);
    }
    let encoded = pct_encode(t);
    concat2(search_url_prefix(settings.search_engine.as_str()), encoded.as_str())
}

// ---------------------------------------------------------------------------
// Pages and toolbar scripts
// ---------------------------------------------------------------------------

/// The script that paints the configured background on the new-tab page.
pub fn bg_inject_js(settings: &Settings) -> (r: String)
    ensures
        r@ == windows_bg_js_spec(settings.bg_color@, settings.bg_image@, settings.bg_video@),
{
    let color = settings.bg_color.as_str();
    let image = settings.bg_image.as_str();
    let video = settings.bg_video.as_str();
    if image.unicode_len() == 0 && video.unicode_len() == 0 && str_eq(color, "#1a1a1a") {
        proof {
            reveal_strlit("#1a1a1a");
        }
        return String::new();
    }
    let mut js = String::new();
    push_color_js(&mut js, color);
    let ghost a = js@;
    if image.unicode_len() > 0 {
        let escaped = quote_escape(image);
        push_str(&mut js, "document.body.style.background=\"url('");
        push_str(&mut js, escaped.as_str());
        push_str(&mut js, "') no-repeat center center fixed\";");
        push_str(&mut js, "document.body.style.backgroundSize='cover';");
    } else {
        assert(a + Seq::<char>::empty() =~= a);
    }
    let ghost b = js@;
    if video.unicode_len() > 0 {
        let escaped = quote_escape(video);
        push_str(&mut js, "(function(){var v=document.createElement('video');v.src='");
        push_str(&mut js, escaped.as_str());
        push_str(
            &mut js,
            "';v.autoplay=true;v.loop=true;v.muted=true;v.style.cssText='position:fixed;top:0;left:0;width:100%;height:100%;object-fit:cover;z-index:-1';document.body.prepend(v)})();",
        );
    } else {
        assert(b + Seq::<char>::empty() =~= b);
    }
    assert(Seq::<char>::empty() + bg_color_js_spec(color@) =~= bg_color_js_spec(color@));
    js
}

/// The new-tab page: the template filled in with the engine's search prefix,
/// the new-tab settings (`ntp_json`, their JSON form) and the background script.
pub fn load_ntp_html(settings: &Settings, template: &str, ntp_json: &str) -> (r: String)
    ensures
        r@ == ntp_html_spec(
            template@,
            search_prefix_spec(settings.search_engine@),
            ntp_json@,
            windows_bg_js_spec(settings.bg_color@, settings.bg_image@, settings.bg_video@),
        ),
{
    let bg_js = bg_inject_js(settings);
    let prefix = search_url_prefix(settings.search_engine.as_str());
    ntp_html(template, prefix, ntp_json, bg_js.as_str())
}

// ---------------------------------------------------------------------------
// State
// ---------------------------------------------------------------------------

/// The state of the Windows shell that the library keeps: the tabs, which
/// one is shown, the settings, and whether a new-tab page is shown.
pub struct AppState {
    pub tabs: Vec<Tab>,
    pub active_idx: usize,
    pub settings: Settings,
    pub is_ntp: bool,
}

pub struct AppStateView {
    pub tabs: Seq<TabView>,
    pub active_idx: int,
    pub settings: SettingsView,
    pub is_ntp: bool,
}

impl View for AppState {
    type V = AppStateView;

    open spec fn view(&self) -> AppStateView {
        AppStateView {
            tabs: tabs_view(self.tabs@),
            active_idx: self.active_idx as int,
            settings: self.settings@,
            is_ntp: self.is_ntp,
        }
    }
}

pub open spec fn with_active(t: TabView, active: bool) -> TabView {
    TabView { active, ..t }
}

/// A fresh new-tab page tab with the given id.
pub open spec fn new_ntp_tab(id: Seq<char>) -> TabView {
    TabView { id, url: Seq::empty(), title: "New Tab"@, active: true }
}

pub open spec fn ntp_effects() -> Seq<EffectView> {
    seq![EffectView::LoadNtpPage, EffectView::InjectToolbar]
}

impl AppStateView {
    /// There is always a tab, and the shown one exists.
    pub open spec fn wf(self) -> bool {
        1 <= self.tabs.len() && 0 <= self.active_idx < self.tabs.len()
    }

    /// The shown tab's URL and title replaced, and whether it is a new-tab page.
    pub open spec fn located(self, url: Seq<char>, title: Seq<char>, ntp: bool) -> AppStateView {
        AppStateView {
            tabs: self.tabs.update(
                self.active_idx,
                TabView { url, title, ..self.tabs[self.active_idx] },
            ),
            is_ntp: ntp,
            ..self
        }
    }

    /// The shown tab pointed at `url`, titled by its host.
    pub open spec fn navigated(self, url: Seq<char>) -> AppStateView {
        self.located(url, title_for_url(url), false)
    }

    /// The shown tab turned into a new-tab page.
    pub open spec fn on_ntp(self) -> AppStateView {
        self.located(Seq::empty(), "New Tab"@, true)
    }

    /// The shown tab's title replaced.
    pub open spec fn titled(self, title: Seq<char>) -> AppStateView {
        AppStateView {
            tabs: self.tabs.update(self.active_idx, TabView { title, ..self.tabs[self.active_idx] }),
            ..self
        }
    }

    /// The shown tab marked inactive.
    pub open spec fn unmarked(self) -> AppStateView {
        AppStateView {
            tabs: self.tabs.update(self.active_idx, with_active(self.tabs[self.active_idx], false)),
            ..self
        }
    }

    /// The shown tab loaded again: a new-tab page where one is shown, else
    /// its URL.
    pub open spec fn shown(self) -> (AppStateView, Seq<EffectView>) {
        if self.is_ntp {
            (self.on_ntp(), ntp_effects())
        } else {
            (
                self,
                seq![EffectView::LoadUrl(self.tabs[self.active_idx].url), EffectView::InjectToolbar],
            )
        }
    }

    /// A new tab with id `id` opened on a new-tab page and shown.
    pub open spec fn with_new_tab(self, id: Seq<char>) -> AppStateView {
        let s = self.unmarked();
        AppStateView {
            tabs: s.tabs.push(new_ntp_tab(id)),
            active_idx: s.tabs.len() as int,
            is_ntp: true,
            ..s
        }
    }

    /// The tab with id `id` shown, where there is one; the previously shown
    /// tab is marked inactive either way.
    pub open spec fn switched(self, id: Seq<char>) -> AppStateView {
        let s = self.unmarked();
        match first_with_id(self.tabs, id) {
            Some(pos) => AppStateView {
                tabs: s.tabs.update(pos, with_active(s.tabs[pos], true)),
                active_idx: pos,
                is_ntp: s.tabs[pos].url.len() == 0,
                ..s
            },
            None => s,
        }
    }

    /// The tab with id `id` closed and what is loaded then. The last tab
    /// gives way to a fresh new-tab page with id `fresh`; a missing id only
    /// reloads the new-tab page.
    pub open spec fn closed(self, id: Seq<char>, fresh: Seq<char>) -> (AppStateView, Seq<EffectView>) {
        match first_with_id(self.tabs, id) {
            Some(pos) => {
                let t = self.tabs.remove(pos);
                if t.len() == 0 {
                    (
                        AppStateView {
                            tabs: seq![new_ntp_tab(fresh)],
                            active_idx: 0,
                            is_ntp: true,
                            ..self
                        }.on_ntp(),
                        ntp_effects(),
                    )
                } else {
                    let a = if self.active_idx >= t.len() {
                        t.len() - 1
                    } else {
                        self.active_idx
                    };
                    AppStateView {
                        tabs: t.update(a, with_active(t[a], true)),
                        active_idx: a,
                        is_ntp: t[a].url.len() == 0,
                        ..self
                    }.shown()
                }
            },
            None => (self.on_ntp(), ntp_effects()),
        }
    }

    /// What a `navigate` message with `input` does: blank input shows the
    /// new-tab page, anything else the normalized URL.
    pub open spec fn step_navigate(self, input: Seq<char>) -> (AppStateView, Seq<EffectView>) {
        let url = normalized_spec(self.settings.search_engine, input);
        if url.len() == 0 {
            (self.on_ntp(), ntp_effects().push(EffectView::SyncTabs))
        } else {
            (self.navigated(url), seq![EffectView::LoadUrl(url), EffectView::SyncTabs])
        }
    }

    /// What a `new_tab` message does; `fresh` is the new tab's id.
    pub open spec fn step_new_tab(self, fresh: Seq<char>) -> (AppStateView, Seq<EffectView>) {
        (self.with_new_tab(fresh).on_ntp(), ntp_effects().push(EffectView::SyncTabs))
    }

    /// What a `save_settings` message with update `u` does.
    pub open spec fn step_save_settings(self, u: SettingsUpdateView) -> (AppStateView, Seq<EffectView>) {
        (
            AppStateView { settings: self.settings.updated(u), ..self }.on_ntp(),
            seq![EffectView::PersistSettings] + ntp_effects().push(EffectView::SyncTabs),
        )
    }

    /// What a `switch_tab` message for tab `id` does.
    pub open spec fn step_switch_tab(self, id: Seq<char>) -> (AppStateView, Seq<EffectView>) {
        (self.switched(id).shown().0, self.switched(id).shown().1.push(EffectView::SyncTabs))
    }

    /// What a `close_tab` message for tab `id` does; `fresh` is the id of a
    /// tab that replaces the last one.
    pub open spec fn step_close_tab(self, id: Seq<char>, fresh: Seq<char>) -> (AppStateView, Seq<EffectView>) {
        (self.closed(id, fresh).0, self.closed(id, fresh).1.push(EffectView::SyncTabs))
    }

    /// Whether message `m` opens a tab: a `new_tab`, or a `close_tab` of the
    /// last tab, which a fresh new-tab page replaces.
    pub open spec fn opens_tab(self, m: IpcMsgView) -> bool {
        m.cmd == "new_tab"@ || (m.cmd == "close_tab"@ && self.tabs.len() == 1 && first_with_id(
            self.tabs,
            m.tab_id,
        ) is Some)
    }

    /// The state after a page's message `m`, and the work to do; `fresh` is
    /// the id that a tab opened by the message gets.
    pub open spec fn ipc_step(self, m: IpcMsgView, fresh: Seq<char>) -> (AppStateView, Seq<EffectView>) {
        if m.cmd == "navigate"@ {
            self.step_navigate(m.url)
        } else if m.cmd == "new_tab"@ {
            self.step_new_tab(fresh)
        } else if m.cmd == "back"@ {
            (self, seq![EffectView::RunScript("history.back()"@)])
        } else if m.cmd == "forward"@ {
            (self, seq![EffectView::RunScript("history.forward()"@)])
        } else if m.cmd == "reload"@ {
            (self, seq![EffectView::RunScript("location.reload()"@)])
        } else if m.cmd == "set_title"@ {
            (self.titled(m.title), seq![EffectView::SyncTabs])
        } else if m.cmd == "save_settings"@ {
            self.step_save_settings(m.update)
        } else if m.cmd == "open_settings"@ {
            (
                AppStateView { is_ntp: false, ..self },
                seq![EffectView::LoadSettingsPage, EffectView::InjectToolbar],
            )
        } else if m.cmd == "ai_chat"@ {
            (
                self,
                seq![
                    EffectView::AskAi {
                        api_key: self.settings.ai_api_key,
                        model: self.settings.ai_model,
                        prompt: m.ai_prompt,
                    },
                ],
            )
        } else if m.cmd == "clear_data"@ {
            (self, seq![EffectView::ClearData])
        } else if m.cmd == "switch_tab"@ {
            self.step_switch_tab(m.tab_id)
        } else if m.cmd == "close_tab"@ {
            self.step_close_tab(m.tab_id, fresh)
        } else {
            (self, Seq::empty())
        }
    }
}

impl AppState {
    pub open spec fn wf(&self) -> bool {
        self@.wf()
    }

    /// The state at start-up: one start tab, shown as a new-tab page, and
    /// the given settings.
    pub fn new(settings: Settings) -> (r: AppState)
        ensures
            r.wf(),
            r@ == (AppStateView {
                tabs: seq![crate::tab::start_tab_spec()],
                active_idx: 0,
                settings: settings@,
                is_ntp: true,
            }),
    {
        let mut tabs: Vec<Tab> = Vec::new();
        tabs.push(crate::tab::start_tab());
        let r = AppState { tabs, active_idx: 0, settings, is_ntp: true };
        assert(tabs_view(r.tabs@) =~= seq![crate::tab::start_tab_spec()]);
        r
    }

    fn locate(&mut self, url: String, title: String, ntp: bool)
        requires
            old(self).wf(),
        ensures
            final(self).wf(),
            final(self)@ == old(self)@.located(url@, title@, ntp),
    {
        let ghost before = self@;
        self.is_ntp = ntp;
        let i = self.active_idx;
        self.tabs[i].url = url;
        self.tabs[i].title = title;
        assert(self@.tabs =~= before.located(url@, title@, ntp).tabs);
    }

    /// Points the shown tab at `url`, titled by the URL's host (the state
    /// part of navigating; the shell then loads the URL).
    pub fn navigate_to(&mut self, url: &str)
        requires
            old(self).wf(),
        ensures
            final(self).wf(),
            final(self)@ == old(self)@.navigated(url@),
    {
        let title = url_host(url);
        self.locate(String::from_str(url), title, false);
    }

    /// Turns the shown tab into a new-tab page (the state part; the shell
    /// then loads the page and the toolbar).
    pub fn load_ntp(&mut self)
        requires
            old(self).wf(),
        ensures
            final(self).wf(),
            final(self)@ == old(self)@.on_ntp(),
    {
        self.locate(String::new(), String::from_str("New Tab"), true);
    }

    /// Marks that no new-tab page is shown (the state part of opening the
    /// settings page).
    pub fn load_settings_page(&mut self)
        ensures
            final(self)@ == (AppStateView { is_ntp: false, ..old(self)@ }),
    {
        self.is_ntp = false;
    }

    /// The script that shows the shown tab's URL in the toolbar.
    pub fn sync_url_js(&self) -> (r: String)
        requires
            self.wf(),
        ensures
            r@ == "if(window.__ruvaUpdateUrl){window.__ruvaUpdateUrl('"@ + quote_escape_spec(
                self@.tabs[self@.active_idx].url,
            ) + "');}"@,
    {
        assert(self@.tabs[self.active_idx as int] == self.tabs@[self.active_idx as int]@);
        let escaped = quote_escape(self.tabs[self.active_idx].url.as_str());
        let mut r = String::from_str("if(window.__ruvaUpdateUrl){window.__ruvaUpdateUrl('");
        push_str(&mut r, escaped.as_str());
        push_str(&mut r, "');}");
        r
    }

    /// The script that hands the tab list and the shown tab's id to the toolbar.
    pub fn sync_tabs_js(&self) -> (r: String)
        requires
            self.wf(),
        ensures
            r@ == "if(window.__ruvaUpdateTabs){window.__ruvaUpdateTabs("@ + tabs_json_spec(self@.tabs)
                + ",'"@ + self@.tabs[self@.active_idx].id + "');}"@,
    {
        assert(self@.tabs[self.active_idx as int] == self.tabs@[self.active_idx as int]@);
        let list = tabs_json(&self.tabs);
        let mut r = String::from_str("if(window.__ruvaUpdateTabs){window.__ruvaUpdateTabs(");
        push_str(&mut r, list.as_str());
        push_str(&mut r, ",'");
        push_str(&mut r, self.tabs[self.active_idx].id.as_str());
        push_str(&mut r, "');}");
        r
    }

    fn unmark(&mut self)
        requires
            old(self).wf(),
        ensures
            final(self).wf(),
            final(self)@ == old(self)@.unmarked(),
    {
        let ghost before = self@;
        let i = self.active_idx;
        self.tabs[i].active = false;
        assert(self@.tabs =~= before.unmarked().tabs);
    }

    fn show(&mut self, out: &mut Vec<Effect>)
        requires
            old(self).wf(),
        ensures
            final(self).wf(),
            (final(self)@, effects_view(final(out)@)) == ({
                let (s, e) = old(self)@.shown();
                (s, effects_view(old(out)@) + e)
            }),
    {
        let ghost before = out@;
        if self.is_ntp {
            self.load_ntp();
            out.push(Effect::LoadNtpPage);
            out.push(Effect::InjectToolbar);
        } else {
            assert(self@.tabs[self.active_idx as int] == self.tabs@[self.active_idx as int]@);
            let url = self.tabs[self.active_idx].url.clone();
            out.push(Effect::LoadUrl(url));
            out.push(Effect::InjectToolbar);
        }
        assert(effects_view(out@) =~= effects_view(before) + old(self)@.shown().1);
    }

    /// Opens a new-tab page tab with id `id` and shows it.
    pub fn add_ntp_tab(&mut self, id: String)
        requires
            old(self).wf(),
        ensures
            final(self).wf(),
            final(self)@ == old(self)@.with_new_tab(id@),
    {
        let ghost before = self@;
        self.unmark();
        let ghost mid = self.tabs@;
        self.tabs.push(Tab { id, url: String::new(), title: String::from_str("New Tab"), active: true });
        self.active_idx = self.tabs.len() - 1;
        self.is_ntp = true;
        assert(self@.tabs =~= before.with_new_tab(id@).tabs) by {
            assert(tabs_view(self.tabs@).take(mid.len() as int) =~= tabs_view(mid));
        }
    }

    fn select_by_id(&mut self, id: &str)
        requires
            old(self).wf(),
        ensures
            final(self).wf(),
            final(self)@ == old(self)@.switched(id@),
    {
        let ghost before = self@;
        let found = position_of_id(&self.tabs, id);
        self.unmark();
        match found {
            Some(pos) => {
                let ghost mid = self@;
                self.active_idx = pos;
                self.tabs[pos].active = true;
                assert(mid.tabs[pos as int].url == self.tabs@[pos as int].url@);
                self.is_ntp = self.tabs[pos].url.as_str().unicode_len() == 0;
                assert(self@.tabs =~= before.switched(id@).tabs);
            },
            None => {},
        }
    }

    /// Shows the tab with id `id`, where there is one, and loads what it
    /// holds; the previously shown tab is marked inactive either way.
    pub fn switch_tab(&mut self, id: &str) -> (r: Vec<Effect>)
        requires
            old(self).wf(),
        ensures
            final(self).wf(),
            (final(self)@, effects_view(r@)) == old(self)@.switched(id@).shown(),
    {
        self.select_by_id(id);
        let mut out: Vec<Effect> = Vec::new();
        self.show(&mut out);
        assert(effects_view(out@) =~= Seq::<EffectView>::empty() + effects_view(out@));
        out
    }

    /// Closes the tab with id `id` (see `AppStateView::closed`); `fresh` is
    /// the id of the tab that replaces the last one.
    pub fn close_tab_with(&mut self, id: &str, fresh: String) -> (r: Vec<Effect>)
        requires
            old(self).wf(),
        ensures
            final(self).wf(),
            (final(self)@, effects_view(r@)) == old(self)@.closed(id@, fresh@),
    {
        let ghost before = self@;
        let mut out: Vec<Effect> = Vec::new();
        match position_of_id(&self.tabs, id) {
            Some(pos) => {
                self.tabs.remove(pos);
                assert(tabs_view(self.tabs@) =~= before.tabs.remove(pos as int));
                if self.tabs.len() == 0 {
                    self.tabs.push(Tab { id: fresh, url: String::new(), title: String::from_str("New Tab"), active: true });
                    self.active_idx = 0;
                    self.is_ntp = true;
                    assert(tabs_view(self.tabs@) =~= seq![new_ntp_tab(fresh@)]);
                    self.load_ntp();
                    out.push(Effect::LoadNtpPage);
                    out.push(Effect::InjectToolbar);
                    assert(effects_view(out@) =~= ntp_effects());
                } else {
                    if self.active_idx >= self.tabs.len() {
                        self.active_idx = self.tabs.len() - 1;
                    }
                    let a = self.active_idx;
                    let ghost t = tabs_view(self.tabs@);
                    self.tabs[a].active = true;
                    assert(t[a as int].url == self.tabs@[a as int].url@);
                    self.is_ntp = self.tabs[a].url.as_str().unicode_len() == 0;
                    assert(tabs_view(self.tabs@) =~= t.update(a as int, with_active(t[a as int], true)));
                    self.show(&mut out);
                    assert(effects_view(out@) =~= before.closed(id@, fresh@).1);
                }
            },
            None => {
                self.load_ntp();
                out.push(Effect::LoadNtpPage);
                out.push(Effect::InjectToolbar);
                assert(effects_view(out@) =~= ntp_effects());
            },
        }
        out
    }

    fn cmd_navigate(&mut self, input: &str) -> (r: Vec<Effect>)
        requires
            old(self).wf(),
        ensures
            final(self).wf(),
            (final(self)@, effects_view(r@)) == old(self)@.step_navigate(input@),
    {
        let ghost before = self@;
        let url = normalize_url(input, &self.settings);
        let mut out: Vec<Effect> = Vec::new();
        if url.as_str().unicode_len() == 0 {
            self.load_ntp();
            out.push(Effect::LoadNtpPage);
            out.push(Effect::InjectToolbar);
        } else {
            self.navigate_to(url.as_str());
            out.push(Effect::LoadUrl(url));
        }
        out.push(Effect::SyncTabs);
        assert(effects_view(out@) =~= before.step_navigate(input@).1);
        out
    }

    fn cmd_new_tab(&mut self, fresh: String) -> (r: Vec<Effect>)
        requires
            old(self).wf(),
        ensures
            final(self).wf(),
            (final(self)@, effects_view(r@)) == old(self)@.step_new_tab(fresh@),
    {
        self.add_ntp_tab(fresh);
        self.load_ntp();
        let mut out: Vec<Effect> = Vec::new();
        out.push(Effect::LoadNtpPage);
        out.push(Effect::InjectToolbar);
        out.push(Effect::SyncTabs);
        assert(effects_view(out@) =~= ntp_effects().push(EffectView::SyncTabs));
        out
    }

    fn cmd_save_settings(&mut self, u: SettingsUpdate) -> (r: Vec<Effect>)
        requires
            old(self).wf(),
        ensures
            final(self).wf(),
            (final(self)@, effects_view(r@)) == old(self)@.step_save_settings(u@),
    {
        self.settings.apply_update(u);
        self.load_ntp();
        let mut out: Vec<Effect> = Vec::new();
        out.push(Effect::PersistSettings);
        out.push(Effect::LoadNtpPage);
        out.push(Effect::InjectToolbar);
        out.push(Effect::SyncTabs);
        assert(effects_view(out@) =~= seq![EffectView::PersistSettings] + ntp_effects().push(EffectView::SyncTabs));
        out
    }

    fn cmd_set_title(&mut self, title: String) -> (r: Vec<Effect>)
        requires
            old(self).wf(),
        ensures
            final(self).wf(),
            (final(self)@, effects_view(r@)) == (old(self)@.titled(title@), seq![EffectView::SyncTabs]),
    {
        let ghost before = self@;
        let i = self.active_idx;
        self.tabs[i].title = title;
        assert(self@.tabs =~= before.titled(title@).tabs);
        let mut out: Vec<Effect> = Vec::new();
        out.push(Effect::SyncTabs);
        assert(effects_view(out@) =~= seq![EffectView::SyncTabs]);
        out
    }

    fn cmd_switch_tab(&mut self, id: &str) -> (r: Vec<Effect>)
        requires
            old(self).wf(),
        ensures
            final(self).wf(),
            (final(self)@, effects_view(r@)) == old(self)@.step_switch_tab(id@),
    {
        let mut out = self.switch_tab(id);
        out.push(Effect::SyncTabs);
        out
    }

    fn cmd_close_tab(&mut self, id: &str, fresh: String) -> (r: Vec<Effect>)
        requires
            old(self).wf(),
        ensures
            final(self).wf(),
            (final(self)@, effects_view(r@)) == old(self)@.step_close_tab(id@, fresh@),
    {
        let mut out = self.close_tab_with(id, fresh);
        out.push(Effect::SyncTabs);
        out
    }

    fn cmd_open_settings(&mut self) -> (r: Vec<Effect>)
        ensures
            final(self)@ == (AppStateView { is_ntp: false, ..old(self)@ }),
            effects_view(r@) == seq![EffectView::LoadSettingsPage, EffectView::InjectToolbar],
    {
        self.load_settings_page();
        let mut out: Vec<Effect> = Vec::new();
        out.push(Effect::LoadSettingsPage);
        out.push(Effect::InjectToolbar);
        assert(effects_view(out@) =~= seq![EffectView::LoadSettingsPage, EffectView::InjectToolbar]);
        out
    }

    fn single(e: Effect) -> (r: Vec<Effect>)
        ensures
            effects_view(r@) == seq![e@],
    {
        let mut out: Vec<Effect> = Vec::new();
        out.push(e);
        assert(effects_view(out@) =~= seq![e@]);
        out
    }

    /// Handles a page's message with `fresh` as the id of a tab that it
    /// opens: updates the state and lists the work for the shell, in order.
    #[verifier::rlimit(40)]
    pub fn handle_ipc_with(&mut self, msg: IpcMsg, fresh: String) -> (r: Vec<Effect>)
        requires
            old(self).wf(),
        ensures
            final(self).wf(),
            (final(self)@, effects_view(r@)) == old(self)@.ipc_step(msg@, fresh@),
    {
        let cmd = msg.cmd.as_str();
        if str_eq(cmd, "navigate") {
            self.cmd_navigate(msg.url.as_str())
        } else if str_eq(cmd, "new_tab") {
            self.cmd_new_tab(fresh)
        } else if str_eq(cmd, "back") {
            Self::single(Effect::RunScript(String::from_str("history.back()")))
        } else if str_eq(cmd, "forward") {
            Self::single(Effect::RunScript(String::from_str("history.forward()")))
        } else if str_eq(cmd, "reload") {
            Self::single(Effect::RunScript(String::from_str("location.reload()")))
        } else if str_eq(cmd, "set_title") {
            self.cmd_set_title(msg.title)
        } else if str_eq(cmd, "save_settings") {
            self.cmd_save_settings(msg.update)
        } else if str_eq(cmd, "open_settings") {
            self.cmd_open_settings()
        } else if str_eq(cmd, "ai_chat") {
            Self::single(
                Effect::AskAi {
                    api_key: self.settings.ai_api_key.clone(),
                    model: self.settings.ai_model.clone(),
                    prompt: msg.ai_prompt,
                },
            )
        } else if str_eq(cmd, "clear_data") {
            Self::single(Effect::ClearData)
        } else if str_eq(cmd, "switch_tab") {
            self.cmd_switch_tab(msg.tab_id.as_str())
        } else if str_eq(cmd, "close_tab") {
            self.cmd_close_tab(msg.tab_id.as_str(), fresh)
        } else {
            let out: Vec<Effect> = Vec::new();
            assert(effects_view(out@) =~= Seq::<EffectView>::empty());
            out
        }
    }

    /// Handles a page's message; a tab that it opens gets a random UUID,
    /// which is drawn only for such a message.
    pub fn handle_ipc(&mut self, msg: IpcMsg) -> (r: Vec<Effect>)
        requires
            old(self).wf(),
        ensures
            final(self).wf(),
            old(self)@.opens_tab(msg@) ==> exists|fresh: Seq<char>|
                is_hyphenated_uuid(fresh) && (final(self)@, effects_view(r@)) == old(self)@.ipc_step(
                    msg@,
                    fresh,
                ),
            !old(self)@.opens_tab(msg@) ==> forall|fresh: Seq<char>|
                (final(self)@, effects_view(r@)) == #[trigger] old(self)@.ipc_step(msg@, fresh),
    {
        let ghost before = self@;
        let cmd = msg.cmd.as_str();
        let opens = if str_eq(cmd, "new_tab") {
            true
        } else if str_eq(cmd, "close_tab") && self.tabs.len() == 1 {
            position_of_id(&self.tabs, msg.tab_id.as_str()).is_some()
        } else {
            false
        };
        assert(opens == before.opens_tab(msg@));
        if opens {
            let fresh = new_uuid_string();
            let ghost f = fresh@;
            let r = self.handle_ipc_with(msg, fresh);
            assert(is_hyphenated_uuid(f));
            r
        } else {
            let r = self.handle_ipc_with(msg, String::new());
            assert forall|fresh: Seq<char>|
                (self@, effects_view(r@)) == #[trigger] before.ipc_step(msg@, fresh) by {
                lemma_step_ignores_fresh(before, msg@, fresh, Seq::empty());
            }
            r
        }
    }

    /// What a wake-up of the event loop does: shows the new-tab page and
    /// sends the tabs to the toolbar (the splash screen gives way to it).
    pub fn on_wake(&mut self) -> (r: Vec<Effect>)
        requires
            old(self).wf(),
        ensures
            final(self).wf(),
            final(self)@ == old(self)@.on_ntp(),
            effects_view(r@) == ntp_effects().push(EffectView::SyncTabs),
    {
        self.load_ntp();
        let mut out: Vec<Effect> = Vec::new();
        out.push(Effect::LoadNtpPage);
        out.push(Effect::InjectToolbar);
        out.push(Effect::SyncTabs);
        assert(effects_view(out@) =~= ntp_effects().push(EffectView::SyncTabs));
        out
    }
}

/// A message that opens no tab does the same whatever id a new tab would
/// have had.
pub proof fn lemma_step_ignores_fresh(s: AppStateView, m: IpcMsgView, f1: Seq<char>, f2: Seq<char>)
    requires
        s.wf(),
        !s.opens_tab(m),
    ensures
        s.ipc_step(m, f1) == s.ipc_step(m, f2),
{
    if m.cmd == "close_tab"@ {
        if let Some(pos) = first_with_id(s.tabs, m.tab_id) {
            assert(s.tabs.remove(pos).len() == s.tabs.len() - 1);
        }
    }
}

proof fn lemma_shown_keeps_wf(s: AppStateView)
    requires
        s.wf(),
    ensures
        s.shown().0.wf(),
{
}

proof fn lemma_pct_last(bytes: Seq<u8>)
    requires
        bytes.len() > 0,
    ensures
        pct_encode_spec(bytes).len() > 0,
        !is_white_space(pct_encode_spec(bytes).last()),
{
    let b = bytes.last();
    assert(pct_encode_spec(bytes) == pct_encode_spec(bytes.drop_last()) + pct_byte(b));
    if is_unreserved(b) {
        assert(((b as char) as u32) == b as u32);
    } else if b == 32 {
    } else {
        let d = b % 16;
        assert(((48 + d) as char) as u32 == 48 + d);
        assert(((55 + d) as char) as u32 == 55 + d);
    }
}

proof fn lemma_prefix_of_concat(p: Seq<char>, a: Seq<char>, b: Seq<char>)
    requires
        p.is_prefix_of(a),
    ensures
        p.is_prefix_of(a + b),
{
    assert(p =~= (a + b).subrange(0, p.len() as int));
}

/// For input that is not blank, the address bar loads an `http://` or
/// `https://` URL; blank input loads nothing.
pub proof fn lemma_normalized_is_web_url(engine: Seq<char>, input: Seq<char>)
    ensures
        trim_spec(input).len() == 0 ==> normalized_spec(engine, input).len() == 0,
        trim_spec(input).len() > 0 ==> ("http://"@.is_prefix_of(normalized_spec(engine, input))
            || "https://"@.is_prefix_of(normalized_spec(engine, input))),
{
    let t = trim_spec(input);
    if t.len() == 0 {
    } else if "http://"@.is_prefix_of(t) || "https://"@.is_prefix_of(t) {
    } else if t.contains('.') && !t.contains(' ') {
        lemma_prefix_of_concat("https://"@, "https://"@, t);
    } else {
        lemma_prefix_shape(engine);
        lemma_prefix_of_concat("https://"@, search_prefix_spec(engine), pct_encode_spec(encode_utf8(t)));
    }
}

/// Normalizing what the address bar already normalized changes nothing.
pub proof fn lemma_normalize_idempotent(engine: Seq<char>, input: Seq<char>)
    ensures
        normalized_spec(engine, normalized_spec(engine, input)) == normalized_spec(engine, input),
{
    reveal_strlit("http://");
    reveal_strlit("https://");
    let t = trim_spec(input);
    let n = normalized_spec(engine, input);
    lemma_trim_ends(input);
    if t.len() == 0 {
        assert(n =~= Seq::<char>::empty());
        lemma_trim_fixed(n);
    } else if "http://"@.is_prefix_of(t) || "https://"@.is_prefix_of(t) {
        lemma_trim_idempotent(input);
    } else if t.contains('.') && !t.contains(' ') {
        assert(n[0] == 'h');
        assert(n.last() == t.last());
        lemma_trim_fixed(n);
        lemma_prefix_of_concat("https://"@, "https://"@, t);
    } else {
        let p = search_prefix_spec(engine);
        lemma_prefix_shape(engine);
        let q = pct_encode_spec(encode_utf8(t));
        lemma_pct_last(encode_utf8(t));
        assert(encode_utf8(t).len() > 0) by {
            vstd::utf8::encode_utf8_first_scalar(t);
        }
        assert(n.last() == q.last());
        assert(n[0] == p[0]);
        lemma_trim_fixed(n);
        lemma_prefix_of_concat("https://"@, p, q);
    }
}

/// Every message keeps the state well formed: there is always a tab and
/// the shown one exists.
pub proof fn lemma_ipc_keeps_wf(s: AppStateView, m: IpcMsgView, fresh: Seq<char>)
    requires
        s.wf(),
    ensures
        s.ipc_step(m, fresh).0.wf(),
{
    if m.cmd == "switch_tab"@ {
        let s1 = s.switched(m.tab_id);
        assert(s1.wf());
        lemma_shown_keeps_wf(s1);
    } else if m.cmd == "close_tab"@ {
        match first_with_id(s.tabs, m.tab_id) {
            Some(pos) => {
                let t = s.tabs.remove(pos);
                if t.len() > 0 {
                    let a = if s.active_idx >= t.len() {
                        t.len() - 1
                    } else {
                        s.active_idx
                    };
                    let s1 = AppStateView {
                        tabs: t.update(a, with_active(t[a], true)),
                        active_idx: a,
                        is_ntp: t[a].url.len() == 0,
                        ..s
                    };
                    assert(s1.wf());
                    lemma_shown_keeps_wf(s1);
                }
            },
            None => {},
        }
    } else if m.cmd == "new_tab"@ {
        assert(s.with_new_tab(fresh).wf());
    }
}

/// Switching to a tab that exists shows that tab, marked active, and
/// leaves no other tab's id or URL changed.
pub proof fn lemma_switch_shows_tab(s: AppStateView, id: Seq<char>)
    requires
        s.wf(),
        exists|i: int| 0 <= i < s.tabs.len() && s.tabs[i].id == id,
    ensures
        s.switched(id).tabs[s.switched(id).active_idx].id == id,
        s.switched(id).tabs[s.switched(id).active_idx].active,
        s.switched(id).tabs.len() == s.tabs.len(),
        forall|j: int| 0 <= j < s.tabs.len() ==> s.switched(id).tabs[j].id == s.tabs[j].id
            && s.switched(id).tabs[j].url == s.tabs[j].url,
{
    let i = choose|i: int| 0 <= i < s.tabs.len() && s.tabs[i].id == id;
    crate::tab::lemma_first_with_id_found(s.tabs, id, i);
}

/// Closing the tab that was just opened brings the tab count back.
pub proof fn lemma_new_then_close_count(s: AppStateView, id: Seq<char>, fresh: Seq<char>)
    requires
        s.wf(),
        forall|i: int| 0 <= i < s.tabs.len() ==> s.tabs[i].id != id,
    ensures
        s.with_new_tab(id).closed(id, fresh).0.tabs.len() == s.tabs.len(),
{
    let n = s.with_new_tab(id);
    let last = s.tabs.len() as int;
    assert(n.tabs[last].id == id);
    assert forall|j: int| 0 <= j < last implies n.tabs[j].id != id by {
        if j == s.active_idx {
        } else {
        }
    }
    assert(is_first_with_id(n.tabs, id, last));
    assert(first_with_id(n.tabs, id) == Some(last)) by {
        let k = choose|k: int| is_first_with_id(n.tabs, id, k);
        assert(k == last) by {
            if k < last {
                assert(n.tabs[k].id != id);
            }
        }
    }
}

/// A `save_settings` message applies the update it carries to the settings:
/// each field that it carries is read back as written (a non-empty one for
/// the search engine and the API key), each other field keeps its value, and
/// the settings are persisted first.
pub proof fn lemma_save_settings_applies_update(s: AppStateView, m: IpcMsgView, fresh: Seq<char>)
    requires
        m.cmd == "save_settings"@,
    ensures
        s.ipc_step(m, fresh).0.settings == s.settings.updated(m.update),
        s.ipc_step(m, fresh).1.len() >= 1,
        s.ipc_step(m, fresh).1[0] == EffectView::PersistSettings,
        (m.update.search_engine is Some && m.update.search_engine->0.len() > 0)
            ==> s.ipc_step(m, fresh).0.settings.search_engine == m.update.search_engine->0,
        m.update.search_engine is None ==> s.ipc_step(m, fresh).0.settings.search_engine
            == s.settings.search_engine,
        m.update.bg_image is Some ==> s.ipc_step(m, fresh).0.settings.bg_image == m.update.bg_image->0,
        m.update.bg_image is None ==> s.ipc_step(m, fresh).0.settings.bg_image == s.settings.bg_image,
        m.update.homepage is Some ==> s.ipc_step(m, fresh).0.settings.homepage == m.update.homepage->0,
        m.update.ntp is Some ==> s.ipc_step(m, fresh).0.settings.ntp == m.update.ntp->0,
{
    reveal_strlit("save_settings");
    reveal_strlit("navigate");
    assert("save_settings"@[0] != "navigate"@[0]);
    reveal_strlit("new_tab");
    assert("save_settings"@[0] != "new_tab"@[0]);
    reveal_strlit("back");
    assert("save_settings"@[0] != "back"@[0]);
    reveal_strlit("forward");
    assert("save_settings"@[0] != "forward"@[0]);
    reveal_strlit("reload");
    assert("save_settings"@[0] != "reload"@[0]);
    reveal_strlit("set_title");
    assert("save_settings"@[1] != "set_title"@[1]);
    crate::settings::lemma_update_reads_back(s.settings, m.update);
}

/// Closing one of several tabs removes it and keeps the order of the rest.
/// The shown index stays where it was unless it now lies past the end, where
/// it moves to the last tab; that tab is marked active, and what it holds is
/// loaded again (its URL, or the new-tab page where it has none). The other
/// tabs are left as they were.
pub proof fn lemma_close_keeps_shown_index(s: AppStateView, id: Seq<char>, fresh: Seq<char>, pos: int)
    requires
        s.wf(),
        first_with_id(s.tabs, id) == Some(pos),
        s.tabs.len() > 1,
    ensures
        ({
            let (c, e) = s.closed(id, fresh);
            let rest = s.tabs.remove(pos);
            let a = if s.active_idx < s.tabs.len() - 1 {
                s.active_idx
            } else {
                s.tabs.len() - 2
            };
            &&& c.wf()
            &&& c.tabs.len() == s.tabs.len() - 1
            &&& c.active_idx == a
            &&& c.settings == s.settings
            &&& c.tabs[a].active
            &&& c.tabs[a].id == rest[a].id
            &&& forall|k: int| 0 <= k < rest.len() && k != a ==> #[trigger] c.tabs[k] == rest[k]
            &&& rest[a].url.len() > 0 ==> c.tabs[a].url == rest[a].url && !c.is_ntp && e == seq![
                EffectView::LoadUrl(rest[a].url),
                EffectView::InjectToolbar,
            ]
            &&& rest[a].url.len() == 0 ==> c.is_ntp && e == ntp_effects()
        }),
{
    let rest = s.tabs.remove(pos);
    assert(rest.len() == s.tabs.len() - 1);
}

/// No `%` stands among the last two characters of an encoded query: each
/// `%` is followed by its two hex digits.
proof fn lemma_pct_no_trailing_percent(bytes: Seq<u8>)
    ensures
        pct_encode_spec(bytes).len() >= 1 ==> pct_encode_spec(bytes).last() != '%',
        pct_encode_spec(bytes).len() >= 2 ==> pct_encode_spec(bytes)[pct_encode_spec(bytes).len() - 2]
            != '%',
    decreases bytes.len(),
{
    if bytes.len() > 0 {
        let a = bytes.drop_last();
        let b = bytes.last();
        lemma_pct_no_trailing_percent(a);
        let ea = pct_encode_spec(a);
        let e = pct_encode_spec(bytes);
        assert(e == ea + pct_byte(b));
        if is_unreserved(b) {
            assert(((b as char) as u32) == b as u32);
            if e.len() >= 2 {
                assert(e[e.len() - 2] == ea.last());
            }
        } else if b == 32 {
            if e.len() >= 2 {
                assert(e[e.len() - 2] == ea.last());
            }
        } else {
            lemma_hex_upper_value(b / 16);
            lemma_hex_upper_value(b % 16);
        }
    }
}

proof fn lemma_hex_upper_value(n: u8)
    requires
        n < 16,
    ensures
        hex_value(hex_upper(n)) == n,
        hex_upper(n) != '%',
{
    if n < 10 {
        assert(((48 + n) as char) as u32 == 48 + n);
    } else {
        assert(((55 + n) as char) as u32 == 55 + n);
    }
}

/// Decoding an encoded query gives back its bytes: the encoding loses
/// nothing, so the search engine receives exactly the text typed (a `+` in
/// it arrives as `+`, a space as a space).
pub proof fn lemma_pct_encode_decodes(bytes: Seq<u8>)
    ensures
        form_decode(pct_encode_spec(bytes)) == bytes,
    decreases bytes.len(),
{
    if bytes.len() > 0 {
        let a = bytes.drop_last();
        let b = bytes.last();
        lemma_pct_encode_decodes(a);
        lemma_pct_no_trailing_percent(a);
        let ea = pct_encode_spec(a);
        let e = pct_encode_spec(bytes);
        assert(e == ea + pct_byte(b));
        if is_unreserved(b) {
            assert(((b as char) as u32) == b as u32);
            assert(e.drop_last() =~= ea);
            if e.len() >= 3 {
                assert(e[e.len() - 3] == ea[ea.len() - 2]);
            }
        } else if b == 32 {
            assert(e.drop_last() =~= ea);
            if e.len() >= 3 {
                assert(e[e.len() - 3] == ea[ea.len() - 2]);
            }
        } else {
            lemma_hex_upper_value(b / 16);
            lemma_hex_upper_value(b % 16);
            assert(e.take(e.len() - 3) =~= ea);
        }
        assert(bytes =~= a.push(b));
    }
}

/// A search typed into the address bar reaches the engine intact: after the
/// engine's prefix, the normalized URL decodes to the UTF-8 bytes of the
/// trimmed input.
pub proof fn lemma_search_query_reads_back(engine: Seq<char>, input: Seq<char>)
    requires
        trim_spec(input).len() > 0,
        !"http://"@.is_prefix_of(trim_spec(input)),
        !"https://"@.is_prefix_of(trim_spec(input)),
        !(trim_spec(input).contains('.') && !trim_spec(input).contains(' ')),
    ensures
        search_prefix_spec(engine).is_prefix_of(normalized_spec(engine, input)),
        form_decode(normalized_spec(engine, input).skip(search_prefix_spec(engine).len() as int))
            == encode_utf8(trim_spec(input)),
{
    let p = search_prefix_spec(engine);
    let q = pct_encode_spec(encode_utf8(trim_spec(input)));
    let n = normalized_spec(engine, input);
    assert(n == p + q);
    assert(n.take(p.len() as int) =~= p);
    assert(n.skip(p.len() as int) =~= q);
    lemma_pct_encode_decodes(encode_utf8(trim_spec(input)));
}

} // verus!
