use ruva::command::{Effect, IpcMsg};
use ruva::settings::{Settings, SettingsUpdate};
use ruva::windows::{bg_inject_js, load_ntp_html, normalize_url, pct_encode, AppState};

fn no_update() -> SettingsUpdate {
    SettingsUpdate {
        search_engine: None, homepage: None, bg_color: None, bg_image: None, bg_video: None,
        new_tab_show_ntp: None, show_tab_bar: None, auto_show_tab_bar: None,
        block_fullscreen: None, load_images: None, ntp: None, ai_api_key: None, ai_model: None,
    }
}

fn msg(cmd: &str) -> IpcMsg {
    IpcMsg {
        cmd: cmd.to_string(),
        url: String::new(),
        title: String::new(),
        tab_id: String::new(),
        ai_prompt: String::new(),
        update: no_update(),
    }
}

fn kinds(effects: &[Effect]) -> Vec<String> {
    effects
        .iter()
        .map(|e| match e {
            Effect::LoadUrl(u) => format!("load:{}", u),
            Effect::LoadNtpPage => "ntp".to_string(),
            Effect::LoadNtpTemplate => "template".to_string(),
            Effect::LoadSettingsPage => "settings".to_string(),
            Effect::InjectToolbar => "toolbar".to_string(),
            Effect::RefreshTabBar => "refresh".to_string(),
            Effect::SyncTabs => "sync".to_string(),
            Effect::PersistSettings => "persist".to_string(),
            Effect::CollectSettings => "collect".to_string(),
            Effect::AskAi { api_key, model, prompt } => format!("ai:{}:{}:{}", api_key, model, prompt),
            Effect::ClearData => "clear".to_string(),
            Effect::RunScript(s) => format!("js:{}", s),
        })
        .collect()
}

fn state() -> AppState {
    AppState::new(Settings::windows_default())
}

#[test]
fn windows_normalize() {
    let s = Settings::windows_default();
    assert_eq!(normalize_url("   ", &s), "");
    assert_eq!(normalize_url(" https://a.b/c ", &s), "https://a.b/c");
    assert_eq!(normalize_url("example.com", &s), "https://example.com");
    assert_eq!(normalize_url("a b&c", &s), "https://duckduckgo.com/?q=a+b%26c");
    assert_eq!(normalize_url("h\u{e9}llo", &s), "https://duckduckgo.com/?q=h%C3%A9llo");
    assert_eq!(normalize_url("a.b c", &s), "https://duckduckgo.com/?q=a.b+c");
}

#[test]
fn percent_encoding_keeps_unreserved_bytes() {
    assert_eq!(pct_encode("Az09-_.~"), "Az09-_.~");
    assert_eq!(pct_encode(" /?"), "+%2F%3F");
    assert_eq!(pct_encode(""), "");
}

#[test]
fn windows_background_script() {
    let mut s = Settings::windows_default();
    assert_eq!(bg_inject_js(&s), "");
    s.bg_image = "C:\\img's.png".to_string();
    assert_eq!(
        bg_inject_js(&s),
        "document.body.style.background=\"url('C:\\\\img\\'s.png') no-repeat center center fixed\";document.body.style.backgroundSize='cover';"
    );
    s.bg_image = String::new();
    s.bg_video = "v.mp4".to_string();
    s.bg_color = "red".to_string();
    let js = bg_inject_js(&s);
    assert!(js.starts_with("document.body.style.background='red';(function(){var v=document.createElement('video');v.src='v.mp4';"));
    assert!(js.ends_with("document.body.prepend(v)})();"));
}

#[test]
fn windows_ntp_page() {
    let s = Settings::windows_default();
    let html = load_ntp_html(&s, "<script>", "[]");
    assert_eq!(html, "<script>window.__SEARCH_URL__='https://duckduckgo.com/?q=';window.__NTP__=[];</script>\n<script>");
}

#[test]
fn new_tab_then_switch_and_close() {
    let mut s = state();
    let e = s.handle_ipc(msg("new_tab"));
    assert_eq!(kinds(&e), vec!["ntp", "toolbar", "sync"]);
    assert_eq!(s.tabs.len(), 2);
    assert_eq!(s.active_idx, 1);
    assert!(!s.tabs[0].active);
    assert!(s.tabs[1].active);
    let id = s.tabs[1].id.clone();
    assert_eq!(id.len(), 36);
    assert_eq!(id.as_bytes()[14], b'4');
    assert!(matches!(id.as_bytes()[19], b'8' | b'9' | b'a' | b'b'));
    assert_eq!(uuid::Uuid::parse_str(&id).unwrap().get_version_num(), 4);
    assert!(s.is_ntp);

    let mut m = msg("switch_tab");
    m.tab_id = "start".to_string();
    let e = s.handle_ipc(m);
    assert_eq!(kinds(&e), vec!["ntp", "toolbar", "sync"]);
    assert_eq!(s.active_idx, 0);
    assert!(s.tabs[0].active);
    assert!(!s.tabs[1].active);

    let mut m = msg("close_tab");
    m.tab_id = id;
    let e = s.handle_ipc(m);
    assert_eq!(kinds(&e), vec!["ntp", "toolbar", "sync"]);
    assert_eq!(s.tabs.len(), 1);
}

#[test]
fn switching_to_a_page_tab_loads_its_url() {
    let mut s = state();
    let mut m = msg("navigate");
    m.url = "example.com".to_string();
    let e = s.handle_ipc(m);
    assert_eq!(kinds(&e), vec!["load:https://example.com", "sync"]);
    assert_eq!(s.tabs[0].title, "example.com");
    s.handle_ipc(msg("new_tab"));
    let mut m = msg("switch_tab");
    m.tab_id = "start".to_string();
    let e = s.handle_ipc(m);
    assert_eq!(kinds(&e), vec!["load:https://example.com", "toolbar", "sync"]);
    assert!(!s.is_ntp);
}

#[test]
fn closing_the_last_tab_makes_a_fresh_one() {
    let mut s = state();
    let mut m = msg("close_tab");
    m.tab_id = "start".to_string();
    let e = s.handle_ipc(m);
    assert_eq!(kinds(&e), vec!["ntp", "toolbar", "sync"]);
    assert_eq!(s.tabs.len(), 1);
    assert_ne!(s.tabs[0].id, "start");
    assert_eq!(s.tabs[0].id.len(), 36);
    assert!(s.tabs[0].active);
}

#[test]
fn closing_an_unknown_tab_reloads_the_new_tab_page() {
    let mut s = state();
    let mut m = msg("close_tab");
    m.tab_id = "nope".to_string();
    let e = s.handle_ipc(m);
    assert_eq!(kinds(&e), vec!["ntp", "toolbar", "sync"]);
    assert_eq!(s.tabs.len(), 1);
    assert_eq!(s.tabs[0].id, "start");
}

#[test]
fn simple_commands() {
    let mut s = state();
    assert_eq!(kinds(&s.handle_ipc(msg("back"))), vec!["js:history.back()"]);
    assert_eq!(kinds(&s.handle_ipc(msg("forward"))), vec!["js:history.forward()"]);
    assert_eq!(kinds(&s.handle_ipc(msg("reload"))), vec!["js:location.reload()"]);
    assert_eq!(kinds(&s.handle_ipc(msg("open_settings"))), vec!["settings", "toolbar"]);
    assert!(!s.is_ntp);
    let mut m = msg("save_settings");
    m.update.search_engine = Some("brave".to_string());
    assert_eq!(kinds(&s.handle_ipc(m)), vec!["persist", "ntp", "toolbar", "sync"]);
    assert_eq!(s.settings.search_engine, "brave");
    assert!(s.is_ntp);
    let mut m = msg("set_title");
    m.title = "T".to_string();
    assert_eq!(kinds(&s.handle_ipc(m)), vec!["sync"]);
    assert_eq!(s.tabs[0].title, "T");
    assert_eq!(kinds(&s.handle_ipc(msg("clear_data"))), vec!["clear"]);
    assert!(kinds(&s.handle_ipc(msg("unknown"))).is_empty());
    assert_eq!(kinds(&s.on_wake()), vec!["ntp", "toolbar", "sync"]);
}

#[test]
fn toolbar_sync_scripts() {
    let mut s = state();
    s.navigate_to("https://x.org/it's");
    assert_eq!(s.sync_url_js(), "if(window.__ruvaUpdateUrl){window.__ruvaUpdateUrl('https://x.org/it\\'s');}");
    assert_eq!(
        s.sync_tabs_js(),
        "if(window.__ruvaUpdateTabs){window.__ruvaUpdateTabs([{\"active\":true,\"id\":\"start\",\"title\":\"x.org\",\"url\":\"https://x.org/it's\"}],'start');}"
    );
}

#[test]
fn windows_normalize_is_idempotent_and_web() {
    let s = Settings::windows_default();
    for input in ["  a b  ", "x.y", "https://q", "\u{e9}t\u{e9}", "   "] {
        let once = normalize_url(input, &s);
        assert_eq!(normalize_url(&once, &s), once);
        if !input.trim().is_empty() {
            assert!(once.starts_with("https://") || once.starts_with("http://"));
        } else {
            assert_eq!(once, "");
        }
    }
}

#[test]
fn closing_one_of_two_tabs_draws_no_new_id() {
    let mut s = state();
    s.handle_ipc(msg("new_tab"));
    let second = s.tabs[1].id.clone();
    let mut m = msg("close_tab");
    m.tab_id = "start".to_string();
    s.handle_ipc(m);
    assert_eq!(s.tabs.len(), 1);
    assert_eq!(s.tabs[0].id, second);
}
