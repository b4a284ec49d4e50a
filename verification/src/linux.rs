//! The Linux shell: a GTK tab bar above one web view, tabs that remember
//! their URL, and the messages that the pages post.
use vstd::prelude::*;
use vstd::string::*;
use crate::command::{Effect, EffectView, IpcMsg, IpcMsgView, effects_view};
use crate::search::{lemma_prefix_shape, search_prefix_spec, search_url, search_url_prefix};
use crate::page::{
    bg_color_js_spec, linux_bg_js_spec, ntp_html, ntp_html_spec, push_color_js, quote_escape,
};
use crate::settings::{Settings, SettingsView};
use crate::tab::{
    Tab, TabView, deactivated, is_hyphenated_uuid, new_uuid_string, short_id, position_of_id, first_with_id,
    start_tab, start_tab_spec, tabs_view, title_for_url, url_host,
};
use crate::text::{
    concat2, contains_char, lemma_replace_char_last, lemma_trim_ends, lemma_trim_fixed,
    lemma_trim_idempotent, push_str, replace_char, replace_char_spec, starts_with, str_eq, trim,
    trim_spec,
};

verus! {

/// The state of the Linux shell that the library keeps: the tabs, which one
/// is shown, the settings, and whether the settings page is open.
pub struct AppState {
    pub tabs: Vec<Tab>,
    pub active_idx: usize,
    pub settings: Settings,
    pub on_settings_page: bool,
}

pub struct AppStateView {
    pub tabs: Seq<TabView>,
    pub active_idx: int,
    pub settings: SettingsView,
    pub on_settings_page: bool,
}

impl View for AppState {
    type V = AppStateView;

    open spec fn view(&self) -> AppStateView {
        AppStateView {
            tabs: tabs_view(self.tabs@),
            active_idx: self.active_idx as int,
            settings: self.settings@,
            on_settings_page: self.on_settings_page,
        }
    }
}

/// The title of a tab opened at `url`.
pub open spec fn new_tab_title(url: Seq<char>) -> Seq<char> {
    if url.len() == 0 {
        "New Tab"@
    } else {
        title_for_url(url)
    }
}

impl AppStateView {
    /// There is always a tab, and the shown one exists.
    pub open spec fn wf(self) -> bool {
        1 <= self.tabs.len() && 0 <= self.active_idx < self.tabs.len()
    }

    /// The shown tab's URL and title replaced, the settings page left.
    pub open spec fn with_location(self, url: Seq<char>, title: Seq<char>) -> AppStateView {
        AppStateView {
            tabs: self.tabs.update(
                self.active_idx,
                TabView { url, title, ..self.tabs[self.active_idx] },
            ),
            on_settings_page: false,
            ..self
        }
    }

    /// The shown tab pointed at `url`, titled by its host.
    pub open spec fn navigated(self, url: Seq<char>) -> AppStateView {
        self.with_location(url, title_for_url(url))
    }

    /// The shown tab turned into a new-tab page.
    pub open spec fn on_ntp(self) -> AppStateView {
        self.with_location(Seq::empty(), "New Tab"@)
    }

    /// The shown tab's title replaced.
    pub open spec fn titled(self, title: Seq<char>) -> AppStateView {
        AppStateView {
            tabs: self.tabs.update(self.active_idx, TabView { title, ..self.tabs[self.active_idx] }),
            ..self
        }
    }

    /// The tab at `idx` closed. The only tab is never removed: it becomes a
    /// fresh start tab. The shown tab stays shown where it remains; where it
    /// is the one closed, the tab that takes its place is shown, or the new
    /// last tab where it was the last.
    pub open spec fn after_close(self, idx: int) -> AppStateView {
        if self.tabs.len() <= 1 {
            AppStateView { tabs: seq![start_tab_spec()], active_idx: 0, ..self }
        } else {
            let tabs = self.tabs.remove(idx);
            AppStateView {
                tabs,
                active_idx: if self.active_idx >= tabs.len() {
                    tabs.len() - 1
                } else if self.active_idx > idx {
                    self.active_idx - 1
                } else {
                    self.active_idx
                },
                ..self
            }
        }
    }

    /// `t` added after every other tab, all others inactive, and shown.
    pub open spec fn with_new_tab(self, t: TabView) -> AppStateView {
        AppStateView {
            tabs: self.tabs.map_values(|x: TabView| deactivated(x)).push(t),
            active_idx: self.tabs.len() as int,
            ..self
        }
    }

    /// The state after a page's message `m`, and the work to do.
    pub open spec fn ipc_step(self, m: IpcMsgView) -> (AppStateView, Seq<EffectView>) {
        if m.cmd == "navigate"@ {
            if m.url.len() > 0 {
                (self.navigated(m.url), seq![EffectView::LoadUrl(m.url), EffectView::RefreshTabBar])
            } else if self.on_settings_page {
                (
                    self.on_ntp(),
                    seq![
                        EffectView::CollectSettings,
                        EffectView::LoadNtpPage,
                        EffectView::RefreshTabBar,
                    ],
                )
            } else {
                (self.on_ntp(), seq![EffectView::LoadNtpPage, EffectView::RefreshTabBar])
            }
        } else if m.cmd == "set_title"@ {
            (self.titled(m.title), seq![EffectView::RefreshTabBar])
        } else if m.cmd == "save_settings"@ {
            (
                AppStateView { settings: self.settings.updated(m.update), ..self },
                seq![EffectView::PersistSettings],
            )
        } else if m.cmd == "ai_chat"@ {
            (
                self,
                seq![
                    EffectView::AskAi {
                        api_key: self.settings.ai_api_key,
                        model: self.settings.ai_model,
                        prompt: m.ai_prompt,
                    },
                ],
            )
        } else if m.cmd == "clear_data"@ {
            (self, seq![EffectView::ClearData])
        } else {
            (self, Seq::empty())
        }
    }
}

/// What is loaded for a tab whose URL is `url`: the new-tab page where it
/// is empty, else the URL.
pub open spec fn page_for(url: Seq<char>) -> EffectView {
    if url.len() == 0 {
        EffectView::LoadNtpPage
    } else {
        EffectView::LoadUrl(url)
    }
}

/// What the address bar makes of `val`: a URL that names its scheme is kept,
/// a word with a dot and no space gets `https://`, anything else is searched
/// for, spaces written as `+`. Surrounding white space is dropped first.
pub open spec fn normalized_spec(engine: Seq<char>, val: Seq<char>) -> Seq<char> {
    let t = trim_spec(val);
    if "http://"@.is_prefix_of(t) || "https://"@.is_prefix_of(t) {
        t
    } else if t.contains('.') && !t.contains(' ') {
        "https://"@ + t
    } else {
        search_prefix_spec(engine) + replace_char_spec(t, ' ', "+"@)
    }
}

/// What the address bar makes of `val` (see `normalized_spec`).
pub fn normalize_url(state: &AppState, val: &str) -> (r: String)
    ensures
        r@ == normalized_spec(state.settings.search_engine@, val@),
{
    let trimmed = trim(val);
    let t = trimmed.as_str();
    if starts_with(t, "http://") || starts_with(t, "https://") {
        trimmed
    } else if contains_char(t, '.') && !contains_char(t, ' ') {
        concat2("https://", t)
    } else {
        let query = replace_char(t, ' ', "+");
        state.search_url(query.as_str())
    }
}

/// The page load for a tab whose URL is `url` (see `page_for`).
pub fn load_for(url: String) -> (r: Effect)
    ensures
        r@ == page_for(url@),
{
    if url.as_str().unicode_len() == 0 {
        Effect::LoadNtpPage
    } else {
        Effect::LoadUrl(url)
    }
}

/// Which keyboard shortcut a key press is.
pub enum Shortcut {
    NewTab,
    CloseActiveTab,
    FocusAddressBar,
    Reload,
    Nothing,
}

/// The shortcut of a key press: Ctrl with T, W, L or R (either case) while
/// the key goes down; anything else is nothing.
pub fn shortcut_for(ctrl_held: bool, pressed: bool, key: &str) -> (r: Shortcut)
    ensures
        !(ctrl_held && pressed) ==> r is Nothing,
        (ctrl_held && pressed) ==> {
            if key@ == "t"@ || key@ == "T"@ {
                r is NewTab
            } else if key@ == "w"@ || key@ == "W"@ {
                r is CloseActiveTab
            } else if key@ == "l"@ || key@ == "L"@ {
                r is FocusAddressBar
            } else if key@ == "r"@ || key@ == "R"@ {
                r is Reload
            } else {
                r is Nothing
            }
        },
{
    if !(ctrl_held && pressed) {
        Shortcut::Nothing
    } else if str_eq(key, "t") || str_eq(key, "T") {
        Shortcut::NewTab
    } else if str_eq(key, "w") || str_eq(key, "W") {
        Shortcut::CloseActiveTab
    } else if str_eq(key, "l") || str_eq(key, "L") {
        Shortcut::FocusAddressBar
    } else if str_eq(key, "r") || str_eq(key, "R") {
        Shortcut::Reload
    } else {
        Shortcut::Nothing
    }
}

/// The script that paints the configured background on the new-tab page.
pub fn bg_inject_js(settings: &Settings) -> (r: String)
    ensures
        r@ == linux_bg_js_spec(settings.bg_color@, settings.bg_image@, settings.bg_video@),
{
    let color = settings.bg_color.as_str();
    let image = settings.bg_image.as_str();
    let video = settings.bg_video.as_str();
    let mut js = String::new();
    push_color_js(&mut js, color);
    let ghost a = js@;
    if image.unicode_len() > 0 {
        let escaped = quote_escape(image);
        push_str(&mut js, "document.body.style.background='url(\\'");
        push_str(&mut js, escaped.as_str());
        push_str(&mut js, "\\') center/cover no-repeat';");
    } else {
        assert(a + Seq::<char>::empty() =~= a);
    }
    let ghost b = js@;
    if video.unicode_len() > 0 {
        let escaped = quote_escape(video);
        push_str(&mut js, "(function(){var v=document.createElement('video');v.src='");
        push_str(&mut js, escaped.as_str());
        push_str(
            &mut js,
            "';v.autoplay=true;v.loop=true;v.muted=true;v.style.cssText='position:fixed;top:0;left:0;width:100vw;height:100vh;object-fit:cover;z-index:-1;pointer-events:none;';document.body.prepend(v);})();",
        );
    } else {
        assert(b + Seq::<char>::empty() =~= b);
    }
    assert(Seq::<char>::empty() + bg_color_js_spec(color@) =~= bg_color_js_spec(color@));
    js
}

/// The new-tab page: the template filled in with the engine's search prefix,
/// the new-tab settings (`ntp_json`, their JSON form) and the background script.
pub fn load_ntp_html(state: &AppState, template: &str, ntp_json: &str) -> (r: String)
    ensures
        r@ == ntp_html_spec(
            template@,
            search_prefix_spec(state.settings.search_engine@),
            ntp_json@,
            linux_bg_js_spec(state.settings.bg_color@, state.settings.bg_image@, state.settings.bg_video@),
        ),
{
    let bg_js = bg_inject_js(&state.settings);
    let prefix = search_url_prefix(state.settings.search_engine.as_str());
    ntp_html(template, prefix, ntp_json, bg_js.as_str())
}

impl AppState {
    pub open spec fn wf(&self) -> bool {
        self@.wf()
    }

    /// The state at start-up: one start tab, shown, and the given settings.
    pub fn new(settings: Settings) -> (r: AppState)
        ensures
            r.wf(),
            r@ == (AppStateView {
                tabs: seq![start_tab_spec()],
                active_idx: 0,
                settings: settings@,
                on_settings_page: false,
            }),
    {
        let mut tabs: Vec<Tab> = Vec::new();
        tabs.push(start_tab());
        let r = AppState { tabs, active_idx: 0, settings, on_settings_page: false };
        assert(tabs_view(r.tabs@) =~= seq![start_tab_spec()]);
        r
    }

    /// The search URL for `query` on the configured engine.
    pub fn search_url(&self, query: &str) -> (r: String)
        ensures
            r@ == search_prefix_spec(self.settings.search_engine@) + query@,
    {
        search_url(self.settings.search_engine.as_str(), query)
    }

    /// Points the shown tab at `url` with the given title and leaves the
    /// settings page.
    pub fn set_location(&mut self, url: &str, title: String)
        requires
            old(self).wf(),
        ensures
            final(self).wf(),
            final(self)@ == old(self)@.with_location(url@, title@),
    {
        let ghost before = self@;
        self.on_settings_page = false;
        let i = self.active_idx;
        self.tabs[i].url = String::from_str(url);
        self.tabs[i].title = title;
        assert(self@.tabs =~= before.with_location(url@, title@).tabs);
    }

    /// Points the shown tab at `url`, titled by the URL's host (the state
    /// part of navigating; the shell then loads the URL).
    pub fn navigate_to(&mut self, url: &str)
        requires
            old(self).wf(),
        ensures
            final(self).wf(),
            final(self)@ == old(self)@.navigated(url@),
    {
        let title = url_host(url);
        self.set_location(url, title);
    }

    /// Turns the shown tab into a new-tab page (the state part; the shell
    /// then loads the page).
    pub fn load_ntp(&mut self)
        requires
            old(self).wf(),
        ensures
            final(self).wf(),
            final(self)@ == old(self)@.on_ntp(),
    {
        proof {
            reveal_strlit("");
            assert(""@ =~= Seq::<char>::empty());
        }
        self.set_location("", String::from_str("New Tab"));
    }

    /// Marks the settings page as open (the state part of opening it).
    pub fn load_settings_page(&mut self)
        ensures
            final(self)@ == (AppStateView { on_settings_page: true, ..old(self)@ }),
    {
        self.on_settings_page = true;
    }

    /// Replaces the shown tab's title.
    pub fn set_title(&mut self, title: String)
        requires
            old(self).wf(),
        ensures
            final(self).wf(),
            final(self)@ == old(self)@.titled(title@),
    {
        let ghost before = self@;
        let i = self.active_idx;
        self.tabs[i].title = title;
        assert(self@.tabs =~= before.titled(title@).tabs);
    }

    /// Closes the tab at `idx`, then loads the tab shown afterwards (the
    /// new-tab page where its URL is empty) and rebuilds the tab bar.
    pub fn close_tab_at(&mut self, idx: usize) -> (r: Vec<Effect>)
        requires
            old(self).wf(),
            old(self).tabs.len() > 1 ==> idx < old(self).tabs.len(),
        ensures
            final(self).wf(),
            final(self)@ == old(self)@.after_close(idx as int),
            effects_view(r@) == seq![
                page_for(final(self)@.tabs[final(self)@.active_idx].url),
                EffectView::RefreshTabBar,
            ],
    {
        let ghost before = self@;
        if self.tabs.len() <= 1 {
            self.tabs = Vec::new();
            self.tabs.push(start_tab());
            self.active_idx = 0;
            assert(self@.tabs =~= seq![start_tab_spec()]);
        } else {
            self.tabs.remove(idx);
            assert(self@.tabs =~= before.tabs.remove(idx as int));
            if self.active_idx >= self.tabs.len() {
                self.active_idx = self.tabs.len() - 1;
            } else if self.active_idx > idx {
                self.active_idx = self.active_idx - 1;
            }
        }
        let i = self.active_idx;
        assert(self@.tabs[i as int] == self.tabs@[i as int]@);
        let url = self.tabs[i].url.clone();
        let mut out: Vec<Effect> = Vec::new();
        out.push(load_for(url));
        out.push(Effect::RefreshTabBar);
        assert(effects_view(out@) =~= seq![page_for(self@.tabs[i as int].url), EffectView::RefreshTabBar]);
        out
    }

    /// Adds `tab` after the others, marks the others inactive and shows it.
    pub fn add_tab(&mut self, tab: Tab)
        requires
            old(self).wf(),
        ensures
            final(self).wf(),
            final(self)@ == old(self)@.with_new_tab(tab@),
    {
        let ghost before = self@;
        crate::tab::deactivate_all(&mut self.tabs);
        let ghost mid = self.tabs@;
        self.tabs.push(tab);
        self.active_idx = self.tabs.len() - 1;
        assert(self@.tabs =~= before.tabs.map_values(|x: TabView| deactivated(x)).push(tab@)) by {
            assert(self.tabs@ == mid.push(tab));
            assert(tabs_view(self.tabs@).take(mid.len() as int) =~= tabs_view(mid));
        }
    }

    /// Opens a tab at `url` (a new-tab page where `url` is empty) with the
    /// first eight hex digits of a random UUID as its id, shows it, loads it
    /// and rebuilds the tab bar.
    pub fn new_tab(&mut self, url: &str) -> (r: Vec<Effect>)
        requires
            old(self).wf(),
        ensures
            final(self).wf(),
            exists|uuid: Seq<char>|
                is_hyphenated_uuid(uuid) && final(self)@ == old(self)@.with_new_tab(
                    TabView {
                        id: uuid.take(8),
                        url: url@,
                        title: new_tab_title(url@),
                        active: url@.len() > 0,
                    },
                ),
            effects_view(r@) == seq![page_for(url@), EffectView::RefreshTabBar],
    {
        let uuid = new_uuid_string();
        let ghost u = uuid@;
        let id = short_id(uuid.as_str());
        let nonempty = url.unicode_len() > 0;
        let title = if nonempty {
            url_host(url)
        } else {
            String::from_str("New Tab")
        };
        let tab = Tab { id, url: String::from_str(url), title, active: nonempty };
        let ghost tv = tab@;
        self.add_tab(tab);
        assert(is_hyphenated_uuid(u) && tv.id == u.take(8));
        let mut out: Vec<Effect> = Vec::new();
        out.push(load_for(String::from_str(url)));
        out.push(Effect::RefreshTabBar);
        assert(effects_view(out@) =~= seq![page_for(url@), EffectView::RefreshTabBar]);
        out
    }

    /// Shows the tab at `idx` where there is one, loads what it holds (the
    /// bare new-tab template where its URL is empty) and rebuilds the tab
    /// bar; an index past the tabs does nothing.
    pub fn select_tab(&mut self, idx: usize) -> (r: Vec<Effect>)
        requires
            old(self).wf(),
        ensures
            final(self).wf(),
            idx < old(self).tabs.len() ==> final(self)@ == (AppStateView {
                active_idx: idx as int,
                ..old(self)@
            }) && effects_view(r@) == seq![
                if old(self)@.tabs[idx as int].url.len() == 0 {
                    EffectView::LoadNtpTemplate
                } else {
                    EffectView::LoadUrl(old(self)@.tabs[idx as int].url)
                },
                EffectView::RefreshTabBar,
            ],
            idx >= old(self).tabs.len() ==> final(self)@ == old(self)@ && r@.len() == 0,
    {
        let mut out: Vec<Effect> = Vec::new();
        if idx < self.tabs.len() {
            self.active_idx = idx;
            assert(self@.tabs[idx as int] == self.tabs@[idx as int]@);
            let url = self.tabs[idx].url.clone();
            if url.as_str().unicode_len() == 0 {
                out.push(Effect::LoadNtpTemplate);
            } else {
                out.push(Effect::LoadUrl(url));
            }
            out.push(Effect::RefreshTabBar);
            assert(effects_view(out@) =~= seq![
                if self@.tabs[idx as int].url.len() == 0 {
                    EffectView::LoadNtpTemplate
                } else {
                    EffectView::LoadUrl(self@.tabs[idx as int].url)
                },
                EffectView::RefreshTabBar,
            ]);
        }
        out
    }

    /// The index of the first tab with id `id`, or 0 where there is none.
    pub fn tab_index_by_id(&self, id: &str) -> (r: usize)
        requires
            self.wf(),
        ensures
            r < self.tabs.len(),
            first_with_id(self@.tabs, id@) matches Some(i) ==> r == i,
            first_with_id(self@.tabs, id@) is None ==> r == 0,
    {
        match position_of_id(&self.tabs, id) {
            Some(i) => i,
            None => 0,
        }
    }

    /// The URL of the shown tab.
    pub fn current_url(&self) -> (r: String)
        requires
            self.wf(),
        ensures
            r@ == self@.tabs[self@.active_idx].url,
    {
        assert(self@.tabs[self.active_idx as int] == self.tabs@[self.active_idx as int]@);
        self.tabs[self.active_idx].url.clone()
    }

    /// Where the home button goes: `None` for the new-tab page (an empty
    /// homepage or `ruva://newtab`), else the homepage.
    pub fn home_target(&self) -> (r: Option<String>)
        ensures
            (self.settings.homepage@.len() == 0 || self.settings.homepage@ == "ruva://newtab"@)
                ==> r is None,
            !(self.settings.homepage@.len() == 0 || self.settings.homepage@ == "ruva://newtab"@)
                ==> r is Some && r->0@ == self.settings.homepage@,
    {
        let hp = self.settings.homepage.as_str();
        if hp.unicode_len() == 0 || str_eq(hp, "ruva://newtab") {
            None
        } else {
            Some(self.settings.homepage.clone())
        }
    }

    /// Where the address bar goes when Enter is pressed on `val`: nowhere
    /// for an empty entry, else the normalized URL.
    pub fn entry_target(&self, val: &str) -> (r: Option<String>)
        ensures
            val@.len() == 0 ==> r is None,
            val@.len() > 0 ==> r is Some && r->0@ == normalized_spec(
                self.settings.search_engine@,
                val@,
            ),
    {
        if val.unicode_len() == 0 {
            None
        } else {
            Some(normalize_url(self, val))
        }
    }

    /// Handles a message posted by a page: updates the state and lists the
    /// work for the shell, in order.
    pub fn handle_ipc(&mut self, msg: IpcMsg) -> (r: Vec<Effect>)
        requires
            old(self).wf(),
        ensures
            final(self).wf(),
            (final(self)@, effects_view(r@)) == old(self)@.ipc_step(msg@),
    {
        let ghost m = msg@;
        let mut out: Vec<Effect> = Vec::new();
        if str_eq(msg.cmd.as_str(), "navigate") {
            if msg.url.as_str().unicode_len() > 0 {
                self.navigate_to(msg.url.as_str());
                out.push(Effect::LoadUrl(msg.url));
                out.push(Effect::RefreshTabBar);
                assert(effects_view(out@) =~= seq![EffectView::LoadUrl(m.url), EffectView::RefreshTabBar]);
            } else {
                if self.on_settings_page {
                    out.push(Effect::CollectSettings);
                }
                self.load_ntp();
                out.push(Effect::LoadNtpPage);
                out.push(Effect::RefreshTabBar);
                assert(effects_view(out@) =~= old(self)@.ipc_step(m).1);
            }
        } else if str_eq(msg.cmd.as_str(), "set_title") {
            self.set_title(msg.title);
            out.push(Effect::RefreshTabBar);
            assert(effects_view(out@) =~= seq![EffectView::RefreshTabBar]);
        } else if str_eq(msg.cmd.as_str(), "save_settings") {
            self.settings.apply_update(msg.update);
            out.push(Effect::PersistSettings);
            assert(effects_view(out@) =~= seq![EffectView::PersistSettings]);
        } else if str_eq(msg.cmd.as_str(), "ai_chat") {
            out.push(
                Effect::AskAi {
                    api_key: self.settings.ai_api_key.clone(),
                    model: self.settings.ai_model.clone(),
                    prompt: msg.ai_prompt,
                },
            );
            assert(effects_view(out@) =~= old(self)@.ipc_step(m).1);
        } else if str_eq(msg.cmd.as_str(), "clear_data") {
            out.push(Effect::ClearData);
            assert(effects_view(out@) =~= seq![EffectView::ClearData]);
        } else {
            assert(effects_view(out@) =~= Seq::<EffectView>::empty());
        }
        out
    }
}

proof fn lemma_prefix_of_concat(p: Seq<char>, a: Seq<char>, b: Seq<char>)
    requires
        p.is_prefix_of(a),
    ensures
        p.is_prefix_of(a + b),
{
    assert(p =~= (a + b).subrange(0, p.len() as int));
}

/// The address bar always loads an `http://` or `https://` URL.
pub proof fn lemma_normalized_is_web_url(engine: Seq<char>, val: Seq<char>)
    ensures
        "http://"@.is_prefix_of(normalized_spec(engine, val)) || "https://"@.is_prefix_of(
            normalized_spec(engine, val),
        ),
{
    let t = trim_spec(val);
    if "http://"@.is_prefix_of(t) || "https://"@.is_prefix_of(t) {
    } else if t.contains('.') && !t.contains(' ') {
        lemma_prefix_of_concat("https://"@, "https://"@, t);
    } else {
        lemma_prefix_shape(engine);
        lemma_prefix_of_concat("https://"@, search_prefix_spec(engine), replace_char_spec(t, ' ', "+"@));
    }
}

/// Normalizing what the address bar already normalized changes nothing.
pub proof fn lemma_normalize_idempotent(engine: Seq<char>, val: Seq<char>)
    ensures
        normalized_spec(engine, normalized_spec(engine, val)) == normalized_spec(engine, val),
{
    reveal_strlit("http://");
    reveal_strlit("https://");
    reveal_strlit("+");
    let t = trim_spec(val);
    let n = normalized_spec(engine, val);
    lemma_trim_ends(val);
    if "http://"@.is_prefix_of(t) || "https://"@.is_prefix_of(t) {
        lemma_trim_idempotent(val);
    } else if t.contains('.') && !t.contains(' ') {
        assert(n[0] == 'h');
        assert(n.last() == t.last());
        lemma_trim_fixed(n);
        lemma_prefix_of_concat("https://"@, "https://"@, t);
    } else {
        let p = search_prefix_spec(engine);
        lemma_prefix_shape(engine);
        let q = replace_char_spec(t, ' ', "+"@);
        if t.len() > 0 {
            lemma_replace_char_last(t, ' ', "+"@);
            assert(n.last() == q.last());
        } else {
            assert(q =~= Seq::<char>::empty());
            assert(n =~= p);
        }
        assert(n[0] == p[0]);
        assert(p[0] == 'h');
        lemma_trim_fixed(n);
        lemma_prefix_of_concat("https://"@, p, q);
    }
}

/// Every operation keeps the shell's state well formed: there is always a
/// tab and the shown one exists.
pub proof fn lemma_operations_keep_wf(s: AppStateView, m: IpcMsgView, idx: int, t: TabView)
    requires
        s.wf(),
        s.tabs.len() > 1 ==> 0 <= idx < s.tabs.len(),
    ensures
        s.ipc_step(m).0.wf(),
        s.after_close(idx).wf(),
        s.with_new_tab(t).wf(),
        s.on_ntp().wf(),
{
}

/// Closing a tab removes exactly that tab, keeping the others in order, while
/// another remains; closing the only tab leaves one fresh start tab.
pub proof fn lemma_close_counts(s: AppStateView, idx: int)
    requires
        s.wf(),
        s.tabs.len() > 1 ==> 0 <= idx < s.tabs.len(),
    ensures
        s.tabs.len() > 1 ==> s.after_close(idx).tabs.len() == s.tabs.len() - 1,
        s.tabs.len() > 1 ==> s.after_close(idx).tabs == s.tabs.remove(idx),
        s.tabs.len() <= 1 ==> s.after_close(idx).tabs == seq![start_tab_spec()],
        s.after_close(idx).settings == s.settings,
{
}

/// Closing a tab other than the shown one leaves the same tab shown.
pub proof fn lemma_close_keeps_shown_tab(s: AppStateView, idx: int)
    requires
        s.wf(),
        s.tabs.len() > 1,
        0 <= idx < s.tabs.len(),
        idx != s.active_idx,
    ensures
        s.after_close(idx).tabs[s.after_close(idx).active_idx] == s.tabs[s.active_idx],
{
}

/// A tab opened and then closed at once leaves the other tabs as they were,
/// except that none of them is marked active.
pub proof fn lemma_new_then_close(s: AppStateView, t: TabView)
    requires
        s.wf(),
    ensures
        s.with_new_tab(t).after_close(s.tabs.len() as int).tabs
            == s.tabs.map_values(|x: TabView| deactivated(x)),
        s.with_new_tab(t).after_close(s.tabs.len() as int).active_idx == s.tabs.len() - 1,
{
    let n = s.with_new_tab(t);
    assert(n.tabs.remove(s.tabs.len() as int) =~= s.tabs.map_values(|x: TabView| deactivated(x)));
}

/// A `save_settings` message applies the update it carries to the settings:
/// each field that it carries is read back as written (a non-empty one for
/// the search engine and the API key), each other field keeps its value, and
/// the settings are persisted first.
pub proof fn lemma_save_settings_applies_update(s: AppStateView, m: IpcMsgView)
    requires
        m.cmd == "save_settings"@,
    ensures
        s.ipc_step(m).0.settings == s.settings.updated(m.update),
        s.ipc_step(m).1.len() >= 1,
        s.ipc_step(m).1[0] == EffectView::PersistSettings,
        (m.update.search_engine is Some && m.update.search_engine->0.len() > 0)
            ==> s.ipc_step(m).0.settings.search_engine == m.update.search_engine->0,
        m.update.search_engine is None ==> s.ipc_step(m).0.settings.search_engine
            == s.settings.search_engine,
        m.update.bg_image is Some ==> s.ipc_step(m).0.settings.bg_image == m.update.bg_image->0,
        m.update.bg_image is None ==> s.ipc_step(m).0.settings.bg_image == s.settings.bg_image,
        m.update.homepage is Some ==> s.ipc_step(m).0.settings.homepage == m.update.homepage->0,
        m.update.ntp is Some ==> s.ipc_step(m).0.settings.ntp == m.update.ntp->0,
{
    reveal_strlit("save_settings");
    reveal_strlit("navigate");
    assert("save_settings"@[0] != "navigate"@[0]);
    reveal_strlit("set_title");
    assert("save_settings"@[1] != "set_title"@[1]);
    crate::settings::lemma_update_reads_back(s.settings, m.update);
}

} // verus!
