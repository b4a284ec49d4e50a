//! Browser settings, their defaults, and partial updates sent by the pages.
use vstd::prelude::*;
use vstd::string::*;

verus! {

/// A shortcut shown on the new-tab page.
#[derive(Clone, Debug)]
pub struct QuickLink {
    pub name: String,
    pub url: String,
    pub icon: String,
}

pub struct QuickLinkView {
    pub name: Seq<char>,
    pub url: Seq<char>,
    pub icon: Seq<char>,
}

impl View for QuickLink {
    type V = QuickLinkView;

    open spec fn view(&self) -> QuickLinkView {
        QuickLinkView { name: self.name@, url: self.url@, icon: self.icon@ }
    }
}

/// Appearance and content of the new-tab page.
#[derive(Clone, Debug)]
pub struct NtpSettings {
    pub clock_color: String,
    pub greeting_color: String,
    pub search_color: String,
    pub clock_format_24h: bool,
    pub show_clock: bool,
    pub show_greeting: bool,
    pub show_date: bool,
    pub show_ai_chat: bool,
    pub quick_links: Vec<QuickLink>,
}

pub struct NtpView {
    pub clock_color: Seq<char>,
    pub greeting_color: Seq<char>,
    pub search_color: Seq<char>,
    pub clock_format_24h: bool,
    pub show_clock: bool,
    pub show_greeting: bool,
    pub show_date: bool,
    pub show_ai_chat: bool,
    pub quick_links: Seq<QuickLinkView>,
}

pub open spec fn links_view(links: Seq<QuickLink>) -> Seq<QuickLinkView> {
    links.map_values(|q: QuickLink| q@)
}

impl View for NtpSettings {
    type V = NtpView;

    open spec fn view(&self) -> NtpView {
        NtpView {
            clock_color: self.clock_color@,
            greeting_color: self.greeting_color@,
            search_color: self.search_color@,
            clock_format_24h: self.clock_format_24h,
            show_clock: self.show_clock,
            show_greeting: self.show_greeting,
            show_date: self.show_date,
            show_ai_chat: self.show_ai_chat,
            quick_links: links_view(self.quick_links@),
        }
    }
}

/// All user settings of the browser.
#[derive(Clone, Debug)]
pub struct Settings {
    pub search_engine: String,
    pub homepage: String,
    pub new_tab_show_ntp: bool,
    pub bg_color: String,
    pub bg_image: String,
    pub bg_video: String,
    pub show_tab_bar: bool,
    pub auto_show_tab_bar: bool,
    pub block_fullscreen: bool,
    pub load_images: bool,
    pub ai_api_key: String,
    pub ai_model: String,
    pub ntp: NtpSettings,
}

pub struct SettingsView {
    pub search_engine: Seq<char>,
    pub homepage: Seq<char>,
    pub new_tab_show_ntp: bool,
    pub bg_color: Seq<char>,
    pub bg_image: Seq<char>,
    pub bg_video: Seq<char>,
    pub show_tab_bar: bool,
    pub auto_show_tab_bar: bool,
    pub block_fullscreen: bool,
    pub load_images: bool,
    pub ai_api_key: Seq<char>,
    pub ai_model: Seq<char>,
    pub ntp: NtpView,
}

impl View for Settings {
    type V = SettingsView;

    open spec fn view(&self) -> SettingsView {
        SettingsView {
            search_engine: self.search_engine@,
            homepage: self.homepage@,
            new_tab_show_ntp: self.new_tab_show_ntp,
            bg_color: self.bg_color@,
            bg_image: self.bg_image@,
            bg_video: self.bg_video@,
            show_tab_bar: self.show_tab_bar,
            auto_show_tab_bar: self.auto_show_tab_bar,
            block_fullscreen: self.block_fullscreen,
            load_images: self.load_images,
            ai_api_key: self.ai_api_key@,
            ai_model: self.ai_model@,
            ntp: self.ntp@,
        }
    }
}

/// The fields of a settings update; a field that is `None` is left as it is.
pub struct SettingsUpdate {
    pub search_engine: Option<String>,
    pub homepage: Option<String>,
    pub bg_color: Option<String>,
    pub bg_image: Option<String>,
    pub bg_video: Option<String>,
    pub new_tab_show_ntp: Option<bool>,
    pub show_tab_bar: Option<bool>,
    pub auto_show_tab_bar: Option<bool>,
    pub block_fullscreen: Option<bool>,
    pub load_images: Option<bool>,
    pub ntp: Option<NtpSettings>,
    pub ai_api_key: Option<String>,
    pub ai_model: Option<String>,
}

pub struct SettingsUpdateView {
    pub search_engine: Option<Seq<char>>,
    pub homepage: Option<Seq<char>>,
    pub bg_color: Option<Seq<char>>,
    pub bg_image: Option<Seq<char>>,
    pub bg_video: Option<Seq<char>>,
    pub new_tab_show_ntp: Option<bool>,
    pub show_tab_bar: Option<bool>,
    pub auto_show_tab_bar: Option<bool>,
    pub block_fullscreen: Option<bool>,
    pub load_images: Option<bool>,
    pub ntp: Option<NtpView>,
    pub ai_api_key: Option<Seq<char>>,
    pub ai_model: Option<Seq<char>>,
}

pub open spec fn opt_view(o: Option<String>) -> Option<Seq<char>> {
    match o {
        Some(s) => Some(s@),
        None => None,
    }
}

impl View for SettingsUpdate {
    type V = SettingsUpdateView;

    open spec fn view(&self) -> SettingsUpdateView {
        SettingsUpdateView {
            search_engine: opt_view(self.search_engine),
            homepage: opt_view(self.homepage),
            bg_color: opt_view(self.bg_color),
            bg_image: opt_view(self.bg_image),
            bg_video: opt_view(self.bg_video),
            new_tab_show_ntp: self.new_tab_show_ntp,
            show_tab_bar: self.show_tab_bar,
            auto_show_tab_bar: self.auto_show_tab_bar,
            block_fullscreen: self.block_fullscreen,
            load_images: self.load_images,
            ntp: match self.ntp {
                Some(n) => Some(n@),
                None => None,
            },
            ai_api_key: opt_view(self.ai_api_key),
            ai_model: opt_view(self.ai_model),
        }
    }
}

/// `new` where it is present, else `old`.
pub open spec fn or_keep<T>(new: Option<T>, old: T) -> T {
    match new {
        Some(v) => v,
        None => old,
    }
}

/// `new` where it is present and not empty, else `old`.
pub open spec fn or_keep_nonempty(new: Option<Seq<char>>, old: Seq<char>) -> Seq<char> {
    match new {
        Some(v) => if v.len() > 0 {
            v
        } else {
            old
        },
        None => old,
    }
}

impl SettingsUpdateView {
    /// The update that changes nothing.
    pub open spec fn none() -> SettingsUpdateView {
        SettingsUpdateView {
            search_engine: None,
            homepage: None,
            bg_color: None,
            bg_image: None,
            bg_video: None,
            new_tab_show_ntp: None,
            show_tab_bar: None,
            auto_show_tab_bar: None,
            block_fullscreen: None,
            load_images: None,
            ntp: None,
            ai_api_key: None,
            ai_model: None,
        }
    }
}

impl SettingsView {
    /// The settings after `u`: each field that `u` carries replaces the old
    /// one, except that an empty search engine or API key is ignored.
    pub open spec fn updated(self, u: SettingsUpdateView) -> SettingsView {
        SettingsView {
            search_engine: or_keep_nonempty(u.search_engine, self.search_engine),
            homepage: or_keep(u.homepage, self.homepage),
            new_tab_show_ntp: or_keep(u.new_tab_show_ntp, self.new_tab_show_ntp),
            bg_color: or_keep(u.bg_color, self.bg_color),
            bg_image: or_keep(u.bg_image, self.bg_image),
            bg_video: or_keep(u.bg_video, self.bg_video),
            show_tab_bar: or_keep(u.show_tab_bar, self.show_tab_bar),
            auto_show_tab_bar: or_keep(u.auto_show_tab_bar, self.auto_show_tab_bar),
            block_fullscreen: or_keep(u.block_fullscreen, self.block_fullscreen),
            load_images: or_keep(u.load_images, self.load_images),
            ai_api_key: or_keep_nonempty(u.ai_api_key, self.ai_api_key),
            ai_model: or_keep(u.ai_model, self.ai_model),
            ntp: or_keep(u.ntp, self.ntp),
        }
    }
}

pub open spec fn link_view(name: Seq<char>, url: Seq<char>, icon: Seq<char>) -> QuickLinkView {
    QuickLinkView { name, url, icon }
}

/// The quick links of a fresh new-tab page on Windows.
pub open spec fn windows_links_spec() -> Seq<QuickLinkView> {
    seq![
        link_view("YouTube"@, "https://youtube.com"@, "\u{1f3ac}"@),
        link_view("GitHub"@, "https://github.com"@, "\u{1f4bb}"@),
        link_view("Reddit"@, "https://reddit.com"@, "\u{1f916}"@),
        link_view("X"@, "https://x.com"@, "\u{1f426}"@),
        link_view("Wikipedia"@, "https://wikipedia.org"@, "\u{1f4d6}"@),
    ]
}

/// The quick links of a fresh new-tab page on Linux: the Windows ones and
/// three more.
pub open spec fn linux_links_spec() -> Seq<QuickLinkView> {
    windows_links_spec() + seq![
        link_view(
            "\u{041f}\u{0435}\u{0440}\u{0435}\u{0432}\u{043e}\u{0434}\u{0447}\u{0438}\u{043a}"@,
            "https://translate.google.com"@,
            "\u{1f310}"@,
        ),
        link_view("ChatGPT"@, "https://chatgpt.com"@, "\u{1f916}"@),
        link_view("DuckDuckGo"@, "https://duckduckgo.com"@, "\u{1f984}"@),
    ]
}

/// A fresh new-tab page with the given quick links.
pub open spec fn ntp_default_spec(links: Seq<QuickLinkView>) -> NtpView {
    NtpView {
        clock_color: "#e5e7eb"@,
        greeting_color: "#9ca3af"@,
        search_color: "#3b3b3b"@,
        clock_format_24h: true,
        show_clock: true,
        show_greeting: true,
        show_date: true,
        show_ai_chat: true,
        quick_links: links,
    }
}

/// Fresh settings with the given new-tab page.
pub open spec fn settings_default_spec(ntp: NtpView) -> SettingsView {
    SettingsView {
        search_engine: "duckduckgo"@,
        homepage: "ruva://newtab"@,
        new_tab_show_ntp: true,
        bg_color: "#1a1a1a"@,
        bg_image: Seq::empty(),
        bg_video: Seq::empty(),
        show_tab_bar: true,
        auto_show_tab_bar: false,
        block_fullscreen: true,
        load_images: true,
        ai_api_key: Seq::empty(),
        ai_model: "openrouter/free"@,
        ntp,
    }
}

fn link(name: &str, url: &str, icon: &str) -> (r: QuickLink)
    ensures
        r@ == link_view(name@, url@, icon@),
{
    QuickLink { name: String::from_str(name), url: String::from_str(url), icon: String::from_str(icon) }
}

fn windows_links() -> (r: Vec<QuickLink>)
    ensures
        links_view(r@) == windows_links_spec(),
{
    let mut v: Vec<QuickLink> = Vec::new();
    v.push(link("YouTube", "https://youtube.com", "\u{1f3ac}"));
    v.push(link("GitHub", "https://github.com", "\u{1f4bb}"));
    v.push(link("Reddit", "https://reddit.com", "\u{1f916}"));
    v.push(link("X", "https://x.com", "\u{1f426}"));
    v.push(link("Wikipedia", "https://wikipedia.org", "\u{1f4d6}"));
    assert(links_view(v@) =~= windows_links_spec());
    v
}

fn linux_links() -> (r: Vec<QuickLink>)
    ensures
        links_view(r@) == linux_links_spec(),
{
    let mut v = windows_links();
    let ghost w = v@;
    v.push(
        link(
            "\u{041f}\u{0435}\u{0440}\u{0435}\u{0432}\u{043e}\u{0434}\u{0447}\u{0438}\u{043a}",
            "https://translate.google.com",
            "\u{1f310}",
        ),
    );
    v.push(link("ChatGPT", "https://chatgpt.com", "\u{1f916}"));
    v.push(link("DuckDuckGo", "https://duckduckgo.com", "\u{1f984}"));
    assert(links_view(v@) =~= linux_links_spec()) by {
        assert(v@.take(5) =~= w);
        assert(links_view(v@).take(5) =~= links_view(w));
    }
    v
}

fn ntp_with_links(quick_links: Vec<QuickLink>) -> (r: NtpSettings)
    ensures
        r@ == ntp_default_spec(links_view(quick_links@)),
{
    NtpSettings {
        clock_color: String::from_str("#e5e7eb"),
        greeting_color: String::from_str("#9ca3af"),
        search_color: String::from_str("#3b3b3b"),
        clock_format_24h: true,
        show_clock: true,
        show_greeting: true,
        show_date: true,
        show_ai_chat: true,
        quick_links,
    }
}

impl Default for NtpSettings {
    /// The new-tab page of a fresh Linux profile.
    fn default() -> (r: NtpSettings)
        ensures
            r@ == ntp_default_spec(linux_links_spec()),
    {
        ntp_with_links(linux_links())
    }
}

impl NtpSettings {
    /// The new-tab page of a fresh Windows profile.
    pub fn windows_default() -> (r: NtpSettings)
        ensures
            r@ == ntp_default_spec(windows_links_spec()),
    {
        ntp_with_links(windows_links())
    }
}

/// The AI model used when the settings name none.
pub fn default_ai_model() -> (r: String)
    ensures
        r@ == "openrouter/free"@,
{
    String::from_str("openrouter/free")
}

fn settings_with_ntp(ntp: NtpSettings) -> (r: Settings)
    ensures
        r@ == settings_default_spec(ntp@),
{
    Settings {
        search_engine: String::from_str("duckduckgo"),
        homepage: String::from_str("ruva://newtab"),
        new_tab_show_ntp: true,
        bg_color: String::from_str("#1a1a1a"),
        bg_image: String::new(),
        bg_video: String::new(),
        show_tab_bar: true,
        auto_show_tab_bar: false,
        block_fullscreen: true,
        load_images: true,
        ai_api_key: String::new(),
        ai_model: default_ai_model(),
        ntp,
    }
}

impl Default for Settings {
    /// The settings of a fresh Linux profile.
    fn default() -> (r: Settings)
        ensures
            r@ == settings_default_spec(ntp_default_spec(linux_links_spec())),
    {
        settings_with_ntp(NtpSettings::default())
    }
}

impl Settings {
    /// The settings of a fresh Windows profile.
    pub fn windows_default() -> (r: Settings)
        ensures
            r@ == settings_default_spec(ntp_default_spec(windows_links_spec())),
    {
        settings_with_ntp(NtpSettings::windows_default())
    }

    /// Applies a settings update sent by the settings page.
    pub fn apply_update(&mut self, u: SettingsUpdate)
        ensures
            final(self)@ == old(self)@.updated(u@),
    {
        set_nonempty(&mut self.search_engine, u.search_engine);
        set_string(&mut self.homepage, u.homepage);
        set_string(&mut self.bg_color, u.bg_color);
        set_string(&mut self.bg_image, u.bg_image);
        set_string(&mut self.bg_video, u.bg_video);
        set_flag(&mut self.new_tab_show_ntp, u.new_tab_show_ntp);
        set_flag(&mut self.show_tab_bar, u.show_tab_bar);
        set_flag(&mut self.auto_show_tab_bar, u.auto_show_tab_bar);
        set_flag(&mut self.block_fullscreen, u.block_fullscreen);
        set_flag(&mut self.load_images, u.load_images);
        if let Some(v) = u.ntp {
            self.ntp = v;
        }
        set_nonempty(&mut self.ai_api_key, u.ai_api_key);
        set_string(&mut self.ai_model, u.ai_model);
    }
}

fn set_string(field: &mut String, new: Option<String>)
    ensures
        final(field)@ == or_keep(opt_view(new), old(field)@),
{
    if let Some(v) = new {
        *field = v;
    }
}

fn set_nonempty(field: &mut String, new: Option<String>)
    ensures
        final(field)@ == or_keep_nonempty(opt_view(new), old(field)@),
{
    if let Some(v) = new {
        if v.as_str().unicode_len() > 0 {
            *field = v;
        }
    }
}

fn set_flag(field: &mut bool, new: Option<bool>)
    ensures
        *final(field) == or_keep(new, *old(field)),
{
    if let Some(v) = new {
        *field = v;
    }
}

/// An update that carries no field changes nothing.
pub proof fn lemma_empty_update_changes_nothing(s: SettingsView)
    ensures
        s.updated(SettingsUpdateView::none()) == s,
{
}

/// Applying the same update twice gives the settings that one application gives.
pub proof fn lemma_update_idempotent(s: SettingsView, u: SettingsUpdateView)
    ensures
        s.updated(u).updated(u) == s.updated(u),
{
}

/// A field that an update does not carry keeps its value; one that it carries
/// is read back as written, an empty value included (so a background can be
/// cleared), except that an empty search engine or API key is ignored.
pub proof fn lemma_update_reads_back(s: SettingsView, u: SettingsUpdateView)
    ensures
        u.homepage is Some ==> s.updated(u).homepage == u.homepage->0,
        u.homepage is None ==> s.updated(u).homepage == s.homepage,
        u.new_tab_show_ntp is Some ==> s.updated(u).new_tab_show_ntp == u.new_tab_show_ntp->0,
        u.new_tab_show_ntp is None ==> s.updated(u).new_tab_show_ntp == s.new_tab_show_ntp,
        u.bg_color is Some ==> s.updated(u).bg_color == u.bg_color->0,
        u.bg_color is None ==> s.updated(u).bg_color == s.bg_color,
        u.bg_image is Some ==> s.updated(u).bg_image == u.bg_image->0,
        u.bg_image is None ==> s.updated(u).bg_image == s.bg_image,
        u.bg_video is Some ==> s.updated(u).bg_video == u.bg_video->0,
        u.bg_video is None ==> s.updated(u).bg_video == s.bg_video,
        u.show_tab_bar is Some ==> s.updated(u).show_tab_bar == u.show_tab_bar->0,
        u.show_tab_bar is None ==> s.updated(u).show_tab_bar == s.show_tab_bar,
        u.auto_show_tab_bar is Some ==> s.updated(u).auto_show_tab_bar == u.auto_show_tab_bar->0,
        u.auto_show_tab_bar is None ==> s.updated(u).auto_show_tab_bar == s.auto_show_tab_bar,
        u.block_fullscreen is Some ==> s.updated(u).block_fullscreen == u.block_fullscreen->0,
        u.block_fullscreen is None ==> s.updated(u).block_fullscreen == s.block_fullscreen,
        u.load_images is Some ==> s.updated(u).load_images == u.load_images->0,
        u.load_images is None ==> s.updated(u).load_images == s.load_images,
        u.ai_model is Some ==> s.updated(u).ai_model == u.ai_model->0,
        u.ai_model is None ==> s.updated(u).ai_model == s.ai_model,
        u.ntp is Some ==> s.updated(u).ntp == u.ntp->0,
        u.ntp is None ==> s.updated(u).ntp == s.ntp,
        (u.search_engine is Some && u.search_engine->0.len() > 0) ==> s.updated(u).search_engine == u.search_engine->0,
        (u.search_engine is None || u.search_engine->0.len() == 0) ==> s.updated(u).search_engine == s.search_engine,
        (u.ai_api_key is Some && u.ai_api_key->0.len() > 0) ==> s.updated(u).ai_api_key == u.ai_api_key->0,
        (u.ai_api_key is None || u.ai_api_key->0.len() == 0) ==> s.updated(u).ai_api_key == s.ai_api_key,
{
}

} // verus!
