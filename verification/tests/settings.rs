use ruva::settings::{default_ai_model, NtpSettings, Settings, SettingsUpdate};

fn no_update() -> SettingsUpdate {
    SettingsUpdate {
        search_engine: None,
        homepage: None,
        bg_color: None,
        bg_image: None,
        bg_video: None,
        new_tab_show_ntp: None,
        show_tab_bar: None,
        auto_show_tab_bar: None,
        block_fullscreen: None,
        load_images: None,
        ntp: None,
        ai_api_key: None,
        ai_model: None,
    }
}

#[test]
fn linux_defaults() {
    let s = Settings::default();
    assert_eq!(s.search_engine, "duckduckgo");
    assert_eq!(s.homepage, "ruva://newtab");
    assert!(s.new_tab_show_ntp);
    assert_eq!(s.bg_color, "#1a1a1a");
    assert_eq!(s.bg_image, "");
    assert_eq!(s.bg_video, "");
    assert!(s.show_tab_bar);
    assert!(!s.auto_show_tab_bar);
    assert!(s.block_fullscreen);
    assert!(s.load_images);
    assert_eq!(s.ai_api_key, "");
    assert_eq!(s.ai_model, "openrouter/free");
    assert_eq!(s.ntp.quick_links.len(), 8);
    assert_eq!(s.ntp.quick_links[5].name, "\u{041f}\u{0435}\u{0440}\u{0435}\u{0432}\u{043e}\u{0434}\u{0447}\u{0438}\u{043a}");
    assert_eq!(s.ntp.quick_links[7].url, "https://duckduckgo.com");
    assert_eq!(s.ntp.clock_color, "#e5e7eb");
    assert_eq!(default_ai_model(), "openrouter/free");
}

#[test]
fn windows_defaults_have_five_links() {
    let n = NtpSettings::windows_default();
    let names: Vec<&str> = n.quick_links.iter().map(|q| q.name.as_str()).collect();
    assert_eq!(names, vec!["YouTube", "GitHub", "Reddit", "X", "Wikipedia"]);
    let s = Settings::windows_default();
    assert_eq!(s.ntp.quick_links.len(), 5);
    assert_eq!(s.ntp.quick_links[0].icon, "\u{1f3ac}");
}

#[test]
fn update_sets_carried_fields_only() {
    let mut s = Settings::default();
    let mut u = no_update();
    u.homepage = Some("https://example.org".to_string());
    u.show_tab_bar = Some(false);
    u.ai_model = Some("m".to_string());
    s.apply_update(u);
    assert_eq!(s.homepage, "https://example.org");
    assert!(!s.show_tab_bar);
    assert_eq!(s.ai_model, "m");
    assert_eq!(s.search_engine, "duckduckgo");
    assert_eq!(s.bg_color, "#1a1a1a");
}

#[test]
fn empty_engine_and_key_are_ignored() {
    let mut s = Settings::default();
    let mut u = no_update();
    u.search_engine = Some(String::new());
    u.ai_api_key = Some(String::new());
    u.bg_image = Some(String::new());
    s.apply_update(u);
    assert_eq!(s.search_engine, "duckduckgo");
    assert_eq!(s.ai_api_key, "");
    let mut u = no_update();
    u.search_engine = Some("google".to_string());
    u.ai_api_key = Some("k".to_string());
    s.apply_update(u);
    assert_eq!(s.search_engine, "google");
    assert_eq!(s.ai_api_key, "k");
}

#[test]
fn update_replaces_ntp_settings() {
    let mut s = Settings::default();
    let mut u = no_update();
    u.ntp = Some(NtpSettings::windows_default());
    s.apply_update(u);
    assert_eq!(s.ntp.quick_links.len(), 5);
}

#[test]
fn empty_update_changes_nothing() {
    let mut s = Settings::default();
    s.apply_update(no_update());
    let d = Settings::default();
    assert_eq!(format!("{:?}", s), format!("{:?}", d));
}

#[test]
fn same_update_twice_equals_once() {
    let make = || {
        let mut u = no_update();
        u.bg_color = Some("#000".to_string());
        u.search_engine = Some("bing".to_string());
        u
    };
    let mut once = Settings::default();
    once.apply_update(make());
    let mut twice = Settings::default();
    twice.apply_update(make());
    twice.apply_update(make());
    assert_eq!(format!("{:?}", once), format!("{:?}", twice));
}
