use ruva::chromium::{
    backend_arg_key, backend_ops, decode_command, build_ntp_html, find_str, ipc_http_reply, normalize_url, AppState,
    IpcQueue, PageOp,
};
use ruva::command::{Effect, IpcMsg};
use ruva::settings::{Settings, SettingsUpdate};

fn msg(cmd: &str, url: &str) -> IpcMsg {
    IpcMsg {
        cmd: cmd.to_string(),
        url: url.to_string(),
        title: String::new(),
        tab_id: String::new(),
        ai_prompt: String::new(),
        update: SettingsUpdate {
            search_engine: None, homepage: None, bg_color: None, bg_image: None, bg_video: None,
            new_tab_show_ntp: None, show_tab_bar: None, auto_show_tab_bar: None,
            block_fullscreen: None, load_images: None, ntp: None, ai_api_key: None, ai_model: None,
        },
    }
}

#[test]
fn chromium_normalize_does_not_encode() {
    let s = Settings::windows_default();
    assert_eq!(normalize_url(" a b ", &s), "https://duckduckgo.com/?q=a b");
    assert_eq!(normalize_url("", &s), "");
    assert_eq!(normalize_url("x.io", &s), "https://x.io");
}

#[test]
fn queue_hands_out_messages_in_order_once() {
    let mut q = IpcQueue::new();
    assert!(q.drain().is_empty());
    q.push("a".to_string());
    q.push("b".to_string());
    assert_eq!(q.drain(), vec!["a".to_string(), "b".to_string()]);
    assert!(q.drain().is_empty());
}

#[test]
fn http_replies() {
    let r = ipc_http_reply("POST /ipc HTTP/1.1\r\nHost: x\r\n\r\n{\"cmd\":\"x\"}");
    assert_eq!(r.message.as_deref(), Some("{\"cmd\":\"x\"}"));
    assert_eq!(r.response, Some("HTTP/1.1 200 OK\r\nAccess-Control-Allow-Origin: *\r\nContent-Length: 2\r\n\r\n{}"));
    let r = ipc_http_reply("POST /ipc HTTP/1.1\r\nHost: x");
    assert!(r.message.is_none() && r.response.is_none());
    let r = ipc_http_reply("OPTIONS /ipc HTTP/1.1\r\n\r\n");
    assert!(r.message.is_none());
    assert!(r.response.unwrap().starts_with("HTTP/1.1 204 OK"));
    let r = ipc_http_reply("GET / HTTP/1.1\r\n\r\n");
    assert_eq!(r.response, Some("HTTP/1.1 404 Not Found\r\nContent-Length: 0\r\n\r\n"));
}

#[test]
fn find_str_finds_first_occurrence() {
    assert_eq!(find_str("ab\r\n\r\ncd\r\n\r\n", "\r\n\r\n"), Some(2));
    assert_eq!(find_str("abc", "d"), None);
    assert_eq!(find_str("", "a"), None);
}

#[test]
fn chromium_ipc() {
    let mut s = AppState::new(Settings::windows_default());
    let e = s.handle_ipc(msg("navigate", "rust lang"));
    assert!(matches!(&e[..], [Effect::LoadUrl(u)] if u == "https://duckduckgo.com/?q=rust lang"));
    assert!(!s.is_ntp);
    let e = s.handle_ipc(msg("navigate", ""));
    assert!(matches!(&e[..], [Effect::LoadNtpPage]));
    assert!(s.is_ntp);
    assert_eq!(s.tabs[0].title, "New Tab");
    let e = s.handle_ipc(msg("open_settings", ""));
    assert!(matches!(&e[..], [Effect::LoadSettingsPage]));
    let mut m = msg("set_title", "");
    m.title = "Z".to_string();
    assert!(s.handle_ipc(m).is_empty());
    assert_eq!(s.tabs[0].title, "Z");
    assert_eq!(s.search_url("q"), "https://duckduckgo.com/?q=q");
}

#[test]
fn backend_commands_become_page_operations() {
    let ops = backend_ops(Some("load_html".into()), Some("<p>".into()), "tb");
    assert!(matches!(&ops[..], [PageOp::Goto(a), PageOp::SetContent(h), PageOp::Evaluate(t)] if a == "about:blank" && h == "<p>" && t == "tb"));
    let ops = backend_ops(Some("navigate".into()), Some("https://a".into()), "tb");
    assert!(matches!(&ops[..], [PageOp::Goto(a), PageOp::Evaluate(t)] if a == "https://a" && t == "tb"));
    let ops = backend_ops(Some("execute_js".into()), Some("1".into()), "tb");
    assert!(matches!(&ops[..], [PageOp::Evaluate(j)] if j == "1"));
    let ops = backend_ops(Some("shutdown".into()), None, "tb");
    assert!(matches!(&ops[..], [PageOp::CloseBrowser, PageOp::Exit]));
    assert!(backend_ops(Some("navigate".into()), None, "tb").is_empty());
    assert!(backend_ops(None, None, "tb").is_empty());
    assert_eq!(backend_arg_key("navigate"), Some("url"));
    assert_eq!(backend_arg_key("load_html"), Some("html"));
    assert_eq!(backend_arg_key("execute_js"), Some("js"));
    assert_eq!(backend_arg_key("shutdown"), None);
}

#[test]
fn chromium_ntp_page_uses_windows_background() {
    let mut s = Settings::windows_default();
    s.bg_image = "i.png".to_string();
    let html = build_ntp_html(&s, "A<script>B", "{}");
    assert_eq!(html, "A<script>window.__SEARCH_URL__='https://duckduckgo.com/?q=';window.__NTP__={};document.body.style.background=\"url('i.png') no-repeat center center fixed\";document.body.style.backgroundSize='cover';</script>\n<script>B");
}

#[test]
fn chromium_normalize_is_idempotent_and_web() {
    let s = Settings::windows_default();
    for input in ["  a b  ", "x.y", "http://q", "   "] {
        let once = normalize_url(input, &s);
        assert_eq!(normalize_url(&once, &s), once);
        if !input.trim().is_empty() {
            assert!(once.starts_with("https://") || once.starts_with("http://"));
        }
    }
}

#[test]
fn backend_commands_are_decoded() {
    assert_eq!(
        decode_command("{\"cmd\":\"navigate\",\"url\":\"https://a\"}"),
        (Some("navigate".to_string()), Some("https://a".to_string()))
    );
    assert_eq!(
        decode_command("{\"cmd\":\"load_html\",\"url\":\"x\"}"),
        (Some("load_html".to_string()), None)
    );
    assert_eq!(decode_command("{\"cmd\":\"shutdown\"}"), (Some("shutdown".to_string()), None));
    assert_eq!(decode_command("not json"), (None, None));
    assert_eq!(decode_command("{\"cmd\":3}"), (None, None));
}
