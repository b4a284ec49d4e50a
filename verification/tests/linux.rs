use ruva::command::{Effect, IpcMsg};
use ruva::linux::{load_ntp_html, normalize_url, shortcut_for, AppState, Shortcut};
use ruva::settings::{Settings, SettingsUpdate};

fn no_update() -> SettingsUpdate {
    SettingsUpdate {
        search_engine: None, homepage: None, bg_color: None, bg_image: None, bg_video: None,
        new_tab_show_ntp: None, show_tab_bar: None, auto_show_tab_bar: None,
        block_fullscreen: None, load_images: None, ntp: None, ai_api_key: None, ai_model: None,
    }
}

fn msg(cmd: &str) -> IpcMsg {
    IpcMsg {
        cmd: cmd.to_string(),
        url: String::new(),
        title: String::new(),
        tab_id: String::new(),
        ai_prompt: String::new(),
        update: no_update(),
    }
}

fn state() -> AppState {
    AppState::new(Settings::default())
}

fn kinds(effects: &[Effect]) -> Vec<String> {
    effects
        .iter()
        .map(|e| match e {
            Effect::LoadUrl(u) => format!("load:{}", u),
            Effect::LoadNtpPage => "ntp".to_string(),
            Effect::LoadNtpTemplate => "template".to_string(),
            Effect::LoadSettingsPage => "settings".to_string(),
            Effect::InjectToolbar => "toolbar".to_string(),
            Effect::RefreshTabBar => "refresh".to_string(),
            Effect::SyncTabs => "sync".to_string(),
            Effect::PersistSettings => "persist".to_string(),
            Effect::CollectSettings => "collect".to_string(),
            Effect::AskAi { api_key, model, prompt } => format!("ai:{}:{}:{}", api_key, model, prompt),
            Effect::ClearData => "clear".to_string(),
            Effect::RunScript(s) => format!("js:{}", s),
        })
        .collect()
}

#[test]
fn starts_with_one_start_tab() {
    let s = state();
    assert_eq!(s.tabs.len(), 1);
    assert_eq!(s.tabs[0].id, "start");
    assert_eq!(s.tabs[0].url, "");
    assert_eq!(s.tabs[0].title, "New Tab");
    assert!(s.tabs[0].active);
    assert_eq!(s.active_idx, 0);
    assert!(!s.on_settings_page);
}

#[test]
fn normalize_keeps_scheme_urls() {
    let s = state();
    assert_eq!(normalize_url(&s, "  https://example.com/a b "), "https://example.com/a b");
    assert_eq!(normalize_url(&s, "http://x"), "http://x");
}

#[test]
fn normalize_adds_https_to_hosts() {
    let s = state();
    assert_eq!(normalize_url(&s, " example.com "), "https://example.com");
}

#[test]
fn normalize_searches_other_input() {
    let mut s = state();
    assert_eq!(normalize_url(&s, " rust lang "), "https://duckduckgo.com/?q=rust+lang");
    assert_eq!(normalize_url(&s, "a.b c"), "https://duckduckgo.com/?q=a.b+c");
    s.settings.search_engine = "google".to_string();
    assert_eq!(normalize_url(&s, "x y"), "https://www.google.com/search?q=x+y");
    assert_eq!(s.search_url("q"), "https://www.google.com/search?q=q");
}

#[test]
fn normalize_is_idempotent_on_examples() {
    let s = state();
    for input in ["  rust  lang ", "example.com", "http://a", "  ", "x\ty"] {
        let once = normalize_url(&s, input);
        assert_eq!(normalize_url(&s, &once), once);
    }
}

#[test]
fn navigate_titles_tab_by_host() {
    let mut s = state();
    s.on_settings_page = true;
    s.navigate_to("https://example.com/path?q=1");
    assert_eq!(s.tabs[0].url, "https://example.com/path?q=1");
    assert_eq!(s.tabs[0].title, "example.com");
    assert!(!s.on_settings_page);
    s.navigate_to("not a url");
    assert_eq!(s.tabs[0].title, "");
}

#[test]
fn load_ntp_clears_the_tab() {
    let mut s = state();
    s.navigate_to("https://a.org");
    s.load_ntp();
    assert_eq!(s.tabs[0].url, "");
    assert_eq!(s.tabs[0].title, "New Tab");
    s.load_settings_page();
    assert!(s.on_settings_page);
}

#[test]
fn new_tab_gets_short_hex_id_and_is_shown() {
    let mut s = state();
    let e = s.new_tab("https://rust-lang.org/learn");
    assert_eq!(kinds(&e), vec!["load:https://rust-lang.org/learn", "refresh"]);
    assert_eq!(s.tabs.len(), 2);
    assert_eq!(s.active_idx, 1);
    let t = &s.tabs[1];
    assert_eq!(t.id.len(), 8);
    assert!(t.id.chars().all(|c| c.is_ascii_hexdigit() && !c.is_ascii_uppercase()));
    assert_eq!(t.title, "rust-lang.org");
    assert!(t.active);
    assert!(!s.tabs[0].active);
    let e = s.new_tab("");
    assert_eq!(kinds(&e), vec!["ntp", "refresh"]);
    assert_eq!(s.tabs[2].title, "New Tab");
    assert!(!s.tabs[2].active);
    assert_eq!(s.active_idx, 2);
}

#[test]
fn closing_the_only_tab_resets_it() {
    let mut s = state();
    s.navigate_to("https://a.org");
    let e = s.close_tab_at(0);
    assert_eq!(kinds(&e), vec!["ntp", "refresh"]);
    assert_eq!(s.tabs.len(), 1);
    assert_eq!(s.tabs[0].id, "start");
    assert_eq!(s.tabs[0].title, "New Tab");
}

#[test]
fn closing_moves_the_shown_index() {
    let mut s = state();
    s.new_tab("https://b.org");
    s.new_tab("https://c.org");
    // shown: 2; close 0 -> shown moves to 1 (same tab)
    let e = s.close_tab_at(0);
    assert_eq!(s.active_idx, 1);
    assert_eq!(kinds(&e), vec!["load:https://c.org", "refresh"]);
    // close the shown last tab -> shown moves to new last
    let e = s.close_tab_at(1);
    assert_eq!(s.active_idx, 0);
    assert_eq!(kinds(&e), vec!["load:https://b.org", "refresh"]);
}

#[test]
fn open_then_close_restores_tab_count() {
    let mut s = state();
    s.new_tab("https://b.org");
    let n = s.tabs.len();
    s.new_tab("");
    s.close_tab_at(s.tabs.len() - 1);
    assert_eq!(s.tabs.len(), n);
    assert_eq!(s.active_idx, n - 1);
}

#[test]
fn select_and_find_tabs() {
    let mut s = state();
    s.new_tab("https://b.org");
    assert_eq!(kinds(&s.select_tab(0)), vec!["template", "refresh"]);
    assert_eq!(s.active_idx, 0);
    assert_eq!(kinds(&s.select_tab(1)), vec!["load:https://b.org", "refresh"]);
    assert_eq!(s.active_idx, 1);
    assert!(s.select_tab(5).is_empty());
    assert_eq!(s.active_idx, 1);
    s.select_tab(0);
    let id = s.tabs[1].id.clone();
    assert_eq!(s.tab_index_by_id(&id), 1);
    assert_eq!(s.tab_index_by_id("missing"), 0);
    assert_eq!(s.current_url(), "");
}

#[test]
fn home_and_entry_targets() {
    let mut s = state();
    assert_eq!(s.home_target(), None);
    s.settings.homepage = String::new();
    assert_eq!(s.home_target(), None);
    s.settings.homepage = "https://home.example".to_string();
    assert_eq!(s.home_target(), Some("https://home.example".to_string()));
    assert_eq!(s.entry_target(""), None);
    assert_eq!(s.entry_target("a b"), Some("https://duckduckgo.com/?q=a+b".to_string()));
}

#[test]
fn shortcuts() {
    assert!(matches!(shortcut_for(true, true, "t"), Shortcut::NewTab));
    assert!(matches!(shortcut_for(true, true, "W"), Shortcut::CloseActiveTab));
    assert!(matches!(shortcut_for(true, true, "l"), Shortcut::FocusAddressBar));
    assert!(matches!(shortcut_for(true, true, "R"), Shortcut::Reload));
    assert!(matches!(shortcut_for(true, true, "x"), Shortcut::Nothing));
    assert!(matches!(shortcut_for(false, true, "t"), Shortcut::Nothing));
    assert!(matches!(shortcut_for(true, false, "t"), Shortcut::Nothing));
}

#[test]
fn ipc_navigate_with_url() {
    let mut s = state();
    let mut m = msg("navigate");
    m.url = "https://docs.rs/x".to_string();
    let e = s.handle_ipc(m);
    assert_eq!(kinds(&e), vec!["load:https://docs.rs/x", "refresh"]);
    assert_eq!(s.tabs[0].title, "docs.rs");
}

#[test]
fn ipc_navigate_home_from_settings_collects_them() {
    let mut s = state();
    s.load_settings_page();
    let e = s.handle_ipc(msg("navigate"));
    assert_eq!(kinds(&e), vec!["collect", "ntp", "refresh"]);
    assert!(!s.on_settings_page);
    let e = s.handle_ipc(msg("navigate"));
    assert_eq!(kinds(&e), vec!["ntp", "refresh"]);
}

#[test]
fn ipc_other_commands() {
    let mut s = state();
    let mut m = msg("set_title");
    m.title = "Hello".to_string();
    assert_eq!(kinds(&s.handle_ipc(m)), vec!["refresh"]);
    assert_eq!(s.tabs[0].title, "Hello");
    let mut m = msg("save_settings");
    m.update.bg_color = Some("#fff".to_string());
    assert_eq!(kinds(&s.handle_ipc(m)), vec!["persist"]);
    assert_eq!(s.settings.bg_color, "#fff");
    s.settings.ai_api_key = "key".to_string();
    let mut m = msg("ai_chat");
    m.ai_prompt = "hi".to_string();
    assert_eq!(kinds(&s.handle_ipc(m)), vec!["ai:key:openrouter/free:hi"]);
    assert_eq!(kinds(&s.handle_ipc(msg("clear_data"))), vec!["clear"]);
    assert!(kinds(&s.handle_ipc(msg("bogus"))).is_empty());
}

#[test]
fn linux_ntp_page_is_filled_in() {
    let mut s = state();
    s.settings.bg_color = "#123".to_string();
    let html = load_ntp_html(&s, "<html><script>a</script></html>", "{}");
    assert_eq!(
        html,
        "<html><script>window.__SEARCH_URL__='https://duckduckgo.com/?q=';window.__NTP__={};document.body.style.background='#123';</script>\n<script>a</script></html>"
    );
}

#[test]
fn short_id_is_the_uuid_prefix() {
    assert_eq!(ruva::tab::short_id("0123abcd-ef45-4678-9abc-def012345678"), "0123abcd");
    assert_eq!(ruva::tab::short_id("abcdefgh"), "abcdefgh");
}
