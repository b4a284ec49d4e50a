use ruva::page::{
    ai_response_js, ai_safe_text, build_settings_html, decimal_string, ipc_bridge_js, menu_tab_label,
    ntp_html, quote_escape, single_line_script, tab_bar_label, toolbar_init_script,
};
use ruva::linux::bg_inject_js;
use ruva::settings::Settings;

#[test]
fn ntp_template_gets_script_before_each_script_tag() {
    let html = ntp_html("<a><script>1</script><script>2</script>", "P", "{\"x\":1}", "B;");
    let inject = "<script>window.__SEARCH_URL__='P';window.__NTP__={\"x\":1};B;</script>\n<script>";
    assert_eq!(html, format!("<a>{}1</script>{}2</script>", inject, inject));
}

#[test]
fn settings_template_gets_settings_before_body_end() {
    let html = build_settings_html("<body>x</body>", "{}");
    assert_eq!(html, "<body>x<script>window.__SETTINGS__={};</script></body>");
    assert_eq!(build_settings_html("no end", "{}"), "no end");
}

#[test]
fn linux_background_script() {
    let mut s = Settings::default();
    assert_eq!(bg_inject_js(&s), "");
    s.bg_image = "a'b".to_string();
    assert_eq!(
        bg_inject_js(&s),
        "document.body.style.background='url(\\'a\\'b\\') center/cover no-repeat';"
    );
    s.bg_image.clear();
    s.bg_video = "v".to_string();
    assert_eq!(
        bg_inject_js(&s),
        "(function(){var v=document.createElement('video');v.src='v';v.autoplay=true;v.loop=true;v.muted=true;v.style.cssText='position:fixed;top:0;left:0;width:100vw;height:100vh;object-fit:cover;z-index:-1;pointer-events:none;';document.body.prepend(v);})();"
    );
}

#[test]
fn quote_escape_doubles_backslashes_first() {
    assert_eq!(quote_escape("a\\'b"), "a\\\\\\'b");
}

#[test]
fn toolbar_script_is_wrapped() {
    assert_eq!(
        toolbar_init_script("X();"),
        "(function(){function __ruvaRun(){try{X();}catch(e){}}if(document.readyState==='loading'){document.addEventListener('DOMContentLoaded',__ruvaRun);}else{__ruvaRun();}})();"
    );
    assert_eq!(single_line_script("a\nb\n"), "a b ");
}

#[test]
fn bridge_script_names_the_port() {
    let js = ipc_bridge_js(8080);
    assert!(js.starts_with("\nwindow.__ruvaPort=8080;\nwindow.ipc={postMessage:function(data){"));
    assert!(js.ends_with(".catch(function(){});}};\n"));
    assert_eq!(decimal_string(0), "0");
    assert_eq!(decimal_string(65535), "65535");
    assert_eq!(decimal_string(10), "10");
}

#[test]
fn ai_text_is_escaped_in_order() {
    assert_eq!(ai_safe_text("a\nb"), "a&lt;br&gt;b");
    assert_eq!(ai_safe_text("<i>\"q\"</i>"), "&lt;i&gt;&quot;q&quot;&lt;/i&gt;");
    assert_eq!(ai_safe_text("it's `x`\\\r"), "it\\'s \\`x\\`\\\\");
    let js = ai_response_js("hi");
    assert_eq!(js, "if(document.getElementById('aiResponse')){document.getElementById('aiResponse').innerHTML='hi';document.getElementById('aiLoading').style.display='none';document.getElementById('aiResponse').style.display='block';}");
}

#[test]
fn ai_text_has_no_markup() {
    let safe = ai_safe_text("<b>\"x\"</b>\r\n'y'");
    assert!(!safe.contains(['<', '>', '"', '\n', '\r']));
}

#[test]
fn tab_labels_truncate_by_bytes() {
    assert_eq!(tab_bar_label("short"), "short");
    assert_eq!(tab_bar_label("exactly twenty chars"), "exactly twenty chars");
    assert_eq!(tab_bar_label("a title that is far too long"), "a title that is f...");
    assert_eq!(menu_tab_label("t", true), "\u{25b6} t");
    assert_eq!(menu_tab_label("t", false), "  t");
    assert_eq!(
        menu_tab_label("0123456789012345678901234567890", false),
        "  012345678901234567890123456..."
    );
}

#[test]
fn cut_labels_fit_in_twenty_bytes() {
    let title = format!("a{}", "\u{0436}".repeat(10));
    assert_eq!(title.len(), 21);
    let label = tab_bar_label(&title);
    assert_eq!(label, format!("a{}...", "\u{0436}".repeat(8)));
    assert!(label.len() <= 20);
}

#[test]
fn distinct_ports_give_distinct_bridge_scripts() {
    let port_of = |js: &str| -> u16 {
        let start = js.find("window.__ruvaPort=").unwrap() + "window.__ruvaPort=".len();
        let end = start + js[start..].find(';').unwrap();
        js[start..end].parse().unwrap()
    };
    for p in [0u16, 1, 9, 10, 80, 443, 8080, 65535] {
        assert_eq!(port_of(&ipc_bridge_js(p)), p);
    }
    assert_ne!(ipc_bridge_js(80), ipc_bridge_js(8080));
    assert_ne!(ipc_bridge_js(1), ipc_bridge_js(10));
}
