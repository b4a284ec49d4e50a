//! The pages and scripts that the shell hands to the web view: the new-tab
//! and settings pages filled in from templates, background and toolbar
//! scripts, the AI answer box, and the tab labels.
use vstd::prelude::*;
use vstd::string::*;
use vstd::utf8::*;
use crate::text::{
    concat2, push_str, replace_char, replace_char_spec, replace_spec, replace_str, string_push,
};

verus! {

broadcast use vstd::utf8::group_utf8_lib;

// ---------------------------------------------------------------------------
// Templates
// ---------------------------------------------------------------------------

/// The script that the new-tab page template receives in front of its own.
pub open spec fn ntp_inject_spec(search_prefix: Seq<char>, ntp_json: Seq<char>, bg_js: Seq<char>) -> Seq<char> {
    "<script>window.__SEARCH_URL__='"@ + search_prefix + "';window.__NTP__="@ + ntp_json + ";"@
        + bg_js + "</script>\n<script>"@
}

/// The new-tab page: every `<script>` of the template preceded by a script
/// that sets the search URL prefix, the new-tab settings (as JSON) and runs
/// the background script.
pub open spec fn ntp_html_spec(
    template: Seq<char>,
    search_prefix: Seq<char>,
    ntp_json: Seq<char>,
    bg_js: Seq<char>,
) -> Seq<char> {
    replace_spec(template, "<script>"@, ntp_inject_spec(search_prefix, ntp_json, bg_js))
}

/// Fills in the new-tab page template (see `ntp_html_spec`).
pub fn ntp_html(template: &str, search_prefix: &str, ntp_json: &str, bg_js: &str) -> (r: String)
    ensures
        r@ == ntp_html_spec(template@, search_prefix@, ntp_json@, bg_js@),
{
    let mut inject = String::from_str("<script>window.__SEARCH_URL__='");
    push_str(&mut inject, search_prefix);
    push_str(&mut inject, "';window.__NTP__=");
    push_str(&mut inject, ntp_json);
    push_str(&mut inject, ";");
    push_str(&mut inject, bg_js);
    push_str(&mut inject, "</script>\n<script>");
    proof {
        reveal_strlit("<script>");
    }
    replace_str(template, "<script>", inject.as_str())
}

/// The settings page: the settings (as JSON) handed to the page in a script
/// placed before every `</body>` of the template.
pub open spec fn settings_html_spec(template: Seq<char>, settings_json: Seq<char>) -> Seq<char> {
    replace_spec(
        template,
        "</body>"@,
        "<script>window.__SETTINGS__="@ + settings_json + ";</script>"@ + "</body>"@,
    )
}

/// Fills in the settings page template (see `settings_html_spec`).
pub fn build_settings_html(template: &str, settings_json: &str) -> (r: String)
    ensures
        r@ == settings_html_spec(template@, settings_json@),
{
    let mut inject = String::from_str("<script>window.__SETTINGS__=");
    push_str(&mut inject, settings_json);
    push_str(&mut inject, ";</script>");
    push_str(&mut inject, "</body>");
    proof {
        reveal_strlit("</body>");
    }
    replace_str(template, "</body>", inject.as_str())
}

// ---------------------------------------------------------------------------
// Background scripts
// ---------------------------------------------------------------------------

/// `s` made safe inside a single-quoted script string: backslashes doubled,
/// then single quotes escaped.
pub open spec fn quote_escape_spec(s: Seq<char>) -> Seq<char> {
    replace_char_spec(replace_char_spec(s, '\\', "\\\\"@), '\'', "\\'"@)
}

/// Escapes `s` for a single-quoted script string (see `quote_escape_spec`).
pub fn quote_escape(s: &str) -> (r: String)
    ensures
        r@ == quote_escape_spec(s@),
{
    let a = replace_char(s, '\\', "\\\\");
    replace_char(a.as_str(), '\'', "\\'")
}

/// The script that paints a non-default background colour, or nothing.
pub open spec fn bg_color_js_spec(color: Seq<char>) -> Seq<char> {
    if color.len() > 0 && color != "#1a1a1a"@ {
        "document.body.style.background='"@ + color + "';"@
    } else {
        Seq::empty()
    }
}

/// The background script of the Linux shell: colour, then image, then
/// video, each only where it is set.
pub open spec fn linux_bg_js_spec(color: Seq<char>, image: Seq<char>, video: Seq<char>) -> Seq<char> {
    bg_color_js_spec(color) + (if image.len() > 0 {
        "document.body.style.background='url(\\'"@ + quote_escape_spec(image)
            + "\\') center/cover no-repeat';"@
    } else {
        Seq::empty()
    }) + (if video.len() > 0 {
        "(function(){var v=document.createElement('video');v.src='"@ + quote_escape_spec(video)
            + "';v.autoplay=true;v.loop=true;v.muted=true;v.style.cssText='position:fixed;top:0;left:0;width:100vw;height:100vh;object-fit:cover;z-index:-1;pointer-events:none;';document.body.prepend(v);})();"@
    } else {
        Seq::empty()
    })
}

/// The background script of the Windows shells: colour, then image (with
/// its size), then video, each only where it is set.
pub open spec fn windows_bg_js_spec(color: Seq<char>, image: Seq<char>, video: Seq<char>) -> Seq<char> {
    bg_color_js_spec(color) + (if image.len() > 0 {
        "document.body.style.background=\"url('"@ + quote_escape_spec(image)
            + "') no-repeat center center fixed\";"@
            + "document.body.style.backgroundSize='cover';"@
    } else {
        Seq::empty()
    }) + (if video.len() > 0 {
        "(function(){var v=document.createElement('video');v.src='"@ + quote_escape_spec(video)
            + "';v.autoplay=true;v.loop=true;v.muted=true;v.style.cssText='position:fixed;top:0;left:0;width:100%;height:100%;object-fit:cover;z-index:-1';document.body.prepend(v)})();"@
    } else {
        Seq::empty()
    })
}

/// The Linux background script paints in order: the colour assignment
/// (where a colour other than the default is set) stands first, the image
/// assignment follows it directly, so that a set image wins over the colour,
/// and the video element, where one is set, closes the script; without a
/// video the image assignment is the script's last statement.
pub proof fn lemma_linux_bg_order(color: Seq<char>, image: Seq<char>, video: Seq<char>)
    ensures
        ({
            let js = linux_bg_js_spec(color, image, video);
            let paint = "document.body.style.background='"@ + color + "';"@;
            let painted = color.len() > 0 && color != "#1a1a1a"@;
            let at: int = if painted {
                paint.len() as int
            } else {
                0
            };
            let img = "document.body.style.background='url(\\'"@ + quote_escape_spec(image)
                + "\\') center/cover no-repeat';"@;
            let vid_end = "';v.autoplay=true;v.loop=true;v.muted=true;v.style.cssText='position:fixed;top:0;left:0;width:100vw;height:100vh;object-fit:cover;z-index:-1;pointer-events:none;';document.body.prepend(v);})();"@;
            &&& painted ==> js.take(paint.len() as int) == paint
            &&& image.len() > 0 ==> js.subrange(at, at + img.len()) == img
            &&& (image.len() > 0 && video.len() == 0) ==> js.len() == at + img.len()
            &&& (image.len() == 0 && video.len() == 0) ==> js.len() == at
            &&& video.len() > 0 ==> js.len() >= vid_end.len() && js.skip(js.len() - vid_end.len())
                == vid_end
        }),
{
    let a = bg_color_js_spec(color);
    let b = if image.len() > 0 {
        "document.body.style.background='url(\\'"@ + quote_escape_spec(image)
                + "\\') center/cover no-repeat';"@
    } else {
        Seq::<char>::empty()
    };
    let js = linux_bg_js_spec(color, image, video);
    let c = js.skip((a.len() + b.len()) as int);
    assert(js =~= a + b + c);
    lemma_three_parts(a, b, c);
    if video.len() > 0 {
        let vid_end = "';v.autoplay=true;v.loop=true;v.muted=true;v.style.cssText='position:fixed;top:0;left:0;width:100vw;height:100vh;object-fit:cover;z-index:-1;pointer-events:none;';document.body.prepend(v);})();"@;
        assert(c.skip(c.len() - vid_end.len()) =~= vid_end);
        assert(js.skip(js.len() - vid_end.len()) =~= c.skip(c.len() - vid_end.len()));
    } else {
        assert(c.len() == 0);
    }
}

/// The Windows background script paints in order: the colour assignment
/// (where a colour other than the default is set) stands first, the image
/// assignment follows it directly, so that a set image wins over the colour,
/// and the video element, where one is set, closes the script; without a
/// video the image assignment is the script's last statement.
pub proof fn lemma_windows_bg_order(color: Seq<char>, image: Seq<char>, video: Seq<char>)
    ensures
        ({
            let js = windows_bg_js_spec(color, image, video);
            let paint = "document.body.style.background='"@ + color + "';"@;
            let painted = color.len() > 0 && color != "#1a1a1a"@;
            let at: int = if painted {
                paint.len() as int
            } else {
                0
            };
            let img = "document.body.style.background=\"url('"@ + quote_escape_spec(image)
                + "') no-repeat center center fixed\";"@ + "document.body.style.backgroundSize='cover';"@;
            let vid_end = "';v.autoplay=true;v.loop=true;v.muted=true;v.style.cssText='position:fixed;top:0;left:0;width:100%;height:100%;object-fit:cover;z-index:-1';document.body.prepend(v)})();"@;
            &&& painted ==> js.take(paint.len() as int) == paint
            &&& image.len() > 0 ==> js.subrange(at, at + img.len()) == img
            &&& (image.len() > 0 && video.len() == 0) ==> js.len() == at + img.len()
            &&& (image.len() == 0 && video.len() == 0) ==> js.len() == at
            &&& video.len() > 0 ==> js.len() >= vid_end.len() && js.skip(js.len() - vid_end.len())
                == vid_end
        }),
{
    let a = bg_color_js_spec(color);
    let b = if image.len() > 0 {
        "document.body.style.background=\"url('"@ + quote_escape_spec(image)
                + "') no-repeat center center fixed\";"@ + "document.body.style.backgroundSize='cover';"@
    } else {
        Seq::<char>::empty()
    };
    let js = windows_bg_js_spec(color, image, video);
    let c = js.skip((a.len() + b.len()) as int);
    assert(js =~= a + b + c);
    lemma_three_parts(a, b, c);
    if video.len() > 0 {
        let vid_end = "';v.autoplay=true;v.loop=true;v.muted=true;v.style.cssText='position:fixed;top:0;left:0;width:100%;height:100%;object-fit:cover;z-index:-1';document.body.prepend(v)})();"@;
        assert(c.skip(c.len() - vid_end.len()) =~= vid_end);
        assert(js.skip(js.len() - vid_end.len()) =~= c.skip(c.len() - vid_end.len()));
    } else {
        assert(c.len() == 0);
    }
}

proof fn lemma_three_parts(a: Seq<char>, b: Seq<char>, c: Seq<char>)
    ensures
        (a + b + c).take(a.len() as int) == a,
        (a + b + c).subrange(a.len() as int, (a.len() + b.len()) as int) == b,
        (a + b + c).len() == a.len() + b.len() + c.len(),
{
    assert((a + b + c).take(a.len() as int) =~= a);
    assert((a + b + c).subrange(a.len() as int, (a.len() + b.len()) as int) =~= b);
}

pub(crate) fn push_color_js(js: &mut String, color: &str)
    ensures
        final(js)@ == old(js)@ + bg_color_js_spec(color@),
{
    if color.unicode_len() > 0 && !crate::text::str_eq(color, "#1a1a1a") {
        push_str(js, "document.body.style.background='");
        push_str(js, color);
        push_str(js, "';");
    } else {
        assert(old(js)@ + Seq::<char>::empty() =~= old(js)@);
    }
}

// ---------------------------------------------------------------------------
// Toolbar and IPC bridge scripts
// ---------------------------------------------------------------------------

/// The toolbar script wrapped to run once the document is ready, on every
/// page; an exception that it throws is swallowed.
pub open spec fn toolbar_init_spec(toolbar_js: Seq<char>) -> Seq<char> {
    "(function(){function __ruvaRun(){try{"@ + toolbar_js
        + "}catch(e){}}if(document.readyState==='loading'){document.addEventListener('DOMContentLoaded',__ruvaRun);}else{__ruvaRun();}})();"@
}

/// Wraps the toolbar injection script so it can run as an initialization
/// script on every page: waits for the DOM if it is not ready yet.
pub fn toolbar_init_script(toolbar_js: &str) -> (r: String)
    ensures
        r@ == toolbar_init_spec(toolbar_js@),
{
    let mut r = String::from_str("(function(){function __ruvaRun(){try{");
    push_str(&mut r, toolbar_js);
    push_str(
        &mut r,
        "}catch(e){}}if(document.readyState==='loading'){document.addEventListener('DOMContentLoaded',__ruvaRun);}else{__ruvaRun();}})();",
    );
    r
}

/// The toolbar script on a single line: every newline made a space.
pub fn single_line_script(js: &str) -> (r: String)
    ensures
        r@ == replace_char_spec(js@, '\n', " "@),
{
    replace_char(js, '\n', " ")
}

pub open spec fn digit_char(d: nat) -> char
    recommends
        d < 10,
{
    (('0' as u32) + d) as char
}

/// The decimal digits of `n`, most significant first, without leading zeros.
pub open spec fn decimal_spec(n: nat) -> Seq<char>
    decreases n,
{
    if n < 10 {
        seq![digit_char(n)]
    } else {
        decimal_spec(n / 10).push(digit_char(n % 10))
    }
}

/// The decimal form of `n` (`format!("{}", n)`).
pub fn decimal_string(n: u64) -> (r: String)
    ensures
        r@ == decimal_spec(n as nat),
    decreases n,
{
    let d = n % 10;
    let c = if d == 0 {
        '0'
    } else if d == 1 {
        '1'
    } else if d == 2 {
        '2'
    } else if d == 3 {
        '3'
    } else if d == 4 {
        '4'
    } else if d == 5 {
        '5'
    } else if d == 6 {
        '6'
    } else if d == 7 {
        '7'
    } else if d == 8 {
        '8'
    } else {
        '9'
    };
    assert(c == digit_char(d as nat));
    if n < 10 {
        let mut r = String::new();
        string_push(&mut r, c);
        assert(r@ =~= seq![c]);
        r
    } else {
        let mut r = decimal_string(n / 10);
        string_push(&mut r, c);
        r
    }
}

/// The script that routes `window.ipc.postMessage` to the local IPC server
/// listening on `port`.
pub open spec fn ipc_bridge_spec(port: nat) -> Seq<char> {
    "\nwindow.__ruvaPort="@ + decimal_spec(port)
        + ";\nwindow.ipc={postMessage:function(data){fetch('http://127.0.0.1:'+window.__ruvaPort+'/ipc',{method:'POST',body:typeof data==='string'?data:JSON.stringify(data),headers:{'Content-Type':'application/json'}}).catch(function(){});}};\n"@
}

/// The IPC bridge script for the server on `port` (see `ipc_bridge_spec`).
pub fn ipc_bridge_js(port: u16) -> (r: String)
    ensures
        r@ == ipc_bridge_spec(port as nat),
{
    let mut r = String::from_str("\nwindow.__ruvaPort=");
    let digits = decimal_string(port as u64);
    push_str(&mut r, digits.as_str());
    push_str(
        &mut r,
        ";\nwindow.ipc={postMessage:function(data){fetch('http://127.0.0.1:'+window.__ruvaPort+'/ipc',{method:'POST',body:typeof data==='string'?data:JSON.stringify(data),headers:{'Content-Type':'application/json'}}).catch(function(){});}};\n",
    );
    r
}

/// Every character of a decimal form is a digit, and there is at least one.
proof fn lemma_decimal_digits(n: nat)
    ensures
        decimal_spec(n).len() >= 1,
        forall|i: int|
            0 <= i < decimal_spec(n).len() ==> '0' <= #[trigger] decimal_spec(n)[i] <= '9',
    decreases n,
{
    if n >= 10 {
        lemma_decimal_digits(n / 10);
        let d = n % 10;
        assert(((48 + d) as char) as u32 == 48 + d);
    } else {
        assert(((48 + n) as char) as u32 == 48 + n);
    }
}

proof fn lemma_digit_char_injective(a: nat, b: nat)
    requires
        a < 10,
        b < 10,
        digit_char(a) == digit_char(b),
    ensures
        a == b,
{
    assert(((48 + a) as char) as u32 == 48 + a);
    assert(((48 + b) as char) as u32 == 48 + b);
}

/// Two numbers with the same decimal form are equal.
pub proof fn lemma_decimal_injective(a: nat, b: nat)
    requires
        decimal_spec(a) == decimal_spec(b),
    ensures
        a == b,
    decreases a,
{
    lemma_decimal_digits(a / 10);
    lemma_decimal_digits(b / 10);
    let da = decimal_spec(a);
    let db = decimal_spec(b);
    if a < 10 && b < 10 {
        assert(da[0] == digit_char(a) && db[0] == digit_char(b));
        lemma_digit_char_injective(a, b);
    } else if a < 10 {
        assert(db.len() >= 2);
    } else if b < 10 {
        assert(da.len() >= 2);
    } else {
        assert(da.last() == digit_char(a % 10));
        assert(db.last() == digit_char(b % 10));
        lemma_digit_char_injective(a % 10, b % 10);
        assert(da.drop_last() == decimal_spec(a / 10));
        assert(db.drop_last() == decimal_spec(b / 10));
        lemma_decimal_injective(a / 10, b / 10);
    }
}

/// The port stands in the bridge script as its decimal form, right after
/// `window.__ruvaPort=` and up to the first `;` after it; so two ports give
/// the same script exactly when they are the same port.
pub proof fn lemma_bridge_port_reads_back(p1: nat, p2: nat)
    ensures
        ({
            let s = ipc_bridge_spec(p1);
            let at = "\nwindow.__ruvaPort="@.len();
            let end = at + decimal_spec(p1).len();
            &&& s.subrange(at as int, end as int) == decimal_spec(p1)
            &&& s[end as int] == ';'
            &&& forall|i: int| at <= i < end ==> #[trigger] s[i] != ';'
        }),
        ipc_bridge_spec(p1) == ipc_bridge_spec(p2) <==> p1 == p2,
{
    let pre = "\nwindow.__ruvaPort="@;
    let post = ";\nwindow.ipc={postMessage:function(data){fetch('http://127.0.0.1:'+window.__ruvaPort+'/ipc',{method:'POST',body:typeof data==='string'?data:JSON.stringify(data),headers:{'Content-Type':'application/json'}}).catch(function(){});}};\n"@;
    reveal_strlit("\nwindow.__ruvaPort=");
    reveal_strlit(";\nwindow.ipc={postMessage:function(data){fetch('http://127.0.0.1:'+window.__ruvaPort+'/ipc',{method:'POST',body:typeof data==='string'?data:JSON.stringify(data),headers:{'Content-Type':'application/json'}}).catch(function(){});}};\n");
    let d1 = decimal_spec(p1);
    let d2 = decimal_spec(p2);
    lemma_decimal_digits(p1);
    lemma_decimal_digits(p2);
    let s1 = ipc_bridge_spec(p1);
    let s2 = ipc_bridge_spec(p2);
    assert(s1 == pre + d1 + post);
    assert(s2 == pre + d2 + post);
    let at = pre.len() as int;
    assert(s1.subrange(at, at + d1.len()) =~= d1);
    assert(s1[at + d1.len()] == post[0]);
    assert forall|i: int| at <= i < at + d1.len() implies #[trigger] s1[i] != ';' by {
        assert(s1[i] == d1[i - at]);
    }
    if s1 == s2 {
        if d1.len() < d2.len() {
            assert(s2[at + d1.len()] == d2[d1.len() as int]);
        } else if d2.len() < d1.len() {
            assert(s1[at + d2.len()] == d1[d2.len() as int]);
            assert(s2[at + d2.len()] == post[0]);
        }
        assert(s2.subrange(at, at + d2.len()) =~= d2);
        lemma_decimal_injective(p1, p2);
    }
}

// ---------------------------------------------------------------------------
// The AI answer box
// ---------------------------------------------------------------------------

/// The AI answer made safe for the page: backslashes and backquotes
/// escaped, newlines written as `<br>`, carriage returns dropped, single
/// quotes escaped, then `"`, `<` and `>` written as entities (in this
/// order, so the `<br>` becomes `&lt;br&gt;`).
pub open spec fn ai_safe_spec(text: Seq<char>) -> Seq<char> {
    let a = replace_char_spec(text, '\\', "\\\\"@);
    let b = replace_char_spec(a, '`', "\\`"@);
    let c = replace_char_spec(b, '\n', "<br>"@);
    let d = replace_char_spec(c, '\r', Seq::empty());
    let e = replace_char_spec(d, '\'', "\\'"@);
    let f = replace_char_spec(e, '"', "&quot;"@);
    let g = replace_char_spec(f, '<', "&lt;"@);
    replace_char_spec(g, '>', "&gt;"@)
}

/// The AI answer made safe for the page (see `ai_safe_spec`).
pub fn ai_safe_text(text: &str) -> (r: String)
    ensures
        r@ == ai_safe_spec(text@),
{
    let a = replace_char(text, '\\', "\\\\");
    let b = replace_char(a.as_str(), '`', "\\`");
    let c = replace_char(b.as_str(), '\n', "<br>");
    proof {
        reveal_strlit("");
        assert(""@ =~= Seq::<char>::empty());
    }
    let d = replace_char(c.as_str(), '\r', "");
    let e = replace_char(d.as_str(), '\'', "\\'");
    let f = replace_char(e.as_str(), '"', "&quot;");
    let g = replace_char(f.as_str(), '<', "&lt;");
    replace_char(g.as_str(), '>', "&gt;")
}

/// The script that shows an AI answer in the new-tab page's answer box.
pub open spec fn ai_response_js_spec(text: Seq<char>) -> Seq<char> {
    "if(document.getElementById('aiResponse')){document.getElementById('aiResponse').innerHTML='"@
        + ai_safe_spec(text)
        + "';document.getElementById('aiLoading').style.display='none';document.getElementById('aiResponse').style.display='block';}"@
}

/// The script that shows `text` in the answer box (see `ai_response_js_spec`).
pub fn ai_response_js(text: &str) -> (r: String)
    ensures
        r@ == ai_response_js_spec(text@),
{
    let safe = ai_safe_text(text);
    let mut r = String::from_str(
        "if(document.getElementById('aiResponse')){document.getElementById('aiResponse').innerHTML='",
    );
    push_str(&mut r, safe.as_str());
    push_str(
        &mut r,
        "';document.getElementById('aiLoading').style.display='none';document.getElementById('aiResponse').style.display='block';}",
    );
    r
}

proof fn lemma_replace_char_removes(s: Seq<char>, c: char, w: Seq<char>)
    requires
        !w.contains(c),
    ensures
        !replace_char_spec(s, c, w).contains(c),
    decreases s.len(),
{
    if s.len() > 0 {
        lemma_replace_char_removes(s.drop_last(), c, w);
        let left = replace_char_spec(s.drop_last(), c, w);
        let right = if s.last() == c {
            w
        } else {
            seq![s.last()]
        };
        assert forall|i: int| 0 <= i < (left + right).len() implies (left + right)[i] != c by {
            if i >= left.len() {
                assert(right[i - left.len()] == (left + right)[i]);
                if s.last() == c {
                    assert(!w.contains(c));
                    assert(w[i - left.len()] != c);
                }
            } else {
                assert(left[i] == (left + right)[i]);
            }
        }
    }
}

proof fn lemma_replace_char_keeps_absent(s: Seq<char>, c: char, w: Seq<char>, d: char)
    requires
        !s.contains(d),
        !w.contains(d),
    ensures
        !replace_char_spec(s, c, w).contains(d),
    decreases s.len(),
{
    if s.len() > 0 {
        assert(!s.drop_last().contains(d)) by {
            if s.drop_last().contains(d) {
                let k = choose|k: int| 0 <= k < s.drop_last().len() && s.drop_last()[k] == d;
                assert(s[k] == d);
            }
        }
        lemma_replace_char_keeps_absent(s.drop_last(), c, w, d);
        let left = replace_char_spec(s.drop_last(), c, w);
        let right = if s.last() == c {
            w
        } else {
            seq![s.last()]
        };
        assert(s[s.len() - 1] != d);
        assert forall|i: int| 0 <= i < (left + right).len() implies (left + right)[i] != d by {
            if i >= left.len() {
                assert(right[i - left.len()] == (left + right)[i]);
                if s.last() == c {
                    assert(w[i - left.len()] != d);
                }
            } else {
                assert(left[i] == (left + right)[i]);
            }
        }
    }
}

/// The text that reaches the answer box holds no raw `"`, `<`, `>`,
/// newline or carriage return: it cannot end the string or open a tag.
pub proof fn lemma_ai_safe_has_no_markup(text: Seq<char>)
    ensures
        !ai_safe_spec(text).contains('"'),
        !ai_safe_spec(text).contains('<'),
        !ai_safe_spec(text).contains('>'),
        !ai_safe_spec(text).contains('\n'),
        !ai_safe_spec(text).contains('\r'),
{
    reveal_strlit("\\\\");
    reveal_strlit("\\`");
    reveal_strlit("<br>");
    reveal_strlit("\\'");
    reveal_strlit("&quot;");
    reveal_strlit("&lt;");
    reveal_strlit("&gt;");
    let a = replace_char_spec(text, '\\', "\\\\"@);
    let b = replace_char_spec(a, '`', "\\`"@);
    let c = replace_char_spec(b, '\n', "<br>"@);
    let d = replace_char_spec(c, '\r', Seq::empty());
    let e = replace_char_spec(d, '\'', "\\'"@);
    let f = replace_char_spec(e, '"', "&quot;"@);
    let g = replace_char_spec(f, '<', "&lt;"@);
    let h = replace_char_spec(g, '>', "&gt;"@);
    // newline
    lemma_replace_char_removes(b, '\n', "<br>"@);
    lemma_replace_char_keeps_absent(c, '\r', Seq::empty(), '\n');
    lemma_replace_char_keeps_absent(d, '\'', "\\'"@, '\n');
    lemma_replace_char_keeps_absent(e, '"', "&quot;"@, '\n');
    lemma_replace_char_keeps_absent(f, '<', "&lt;"@, '\n');
    lemma_replace_char_keeps_absent(g, '>', "&gt;"@, '\n');
    // carriage return
    lemma_replace_char_removes(c, '\r', Seq::empty());
    lemma_replace_char_keeps_absent(d, '\'', "\\'"@, '\r');
    lemma_replace_char_keeps_absent(e, '"', "&quot;"@, '\r');
    lemma_replace_char_keeps_absent(f, '<', "&lt;"@, '\r');
    lemma_replace_char_keeps_absent(g, '>', "&gt;"@, '\r');
    // double quote
    lemma_replace_char_removes(e, '"', "&quot;"@);
    lemma_replace_char_keeps_absent(f, '<', "&lt;"@, '"');
    lemma_replace_char_keeps_absent(g, '>', "&gt;"@, '"');
    // less-than
    lemma_replace_char_removes(f, '<', "&lt;"@);
    lemma_replace_char_keeps_absent(g, '>', "&gt;"@, '<');
    // greater-than
    lemma_replace_char_removes(g, '>', "&gt;"@);
}

// ---------------------------------------------------------------------------
// Tab labels
// ---------------------------------------------------------------------------

/// `title` cut to its first `keep` bytes followed by `...` where its UTF-8
/// form is longer than `max` bytes.
pub open spec fn truncated_spec(title: Seq<char>, max: nat, keep: nat) -> Seq<char> {
    let b = encode_utf8(title);
    if b.len() > max {
        decode_utf8(b.subrange(0, keep as int)) + "..."@
    } else {
        title
    }
}

/// Whether cutting `title` as `truncated_spec` does falls on a character
/// boundary (slicing elsewhere panics).
/// The byte length must fit in `usize`, as that of any string in memory does.
pub open spec fn can_truncate(title: Seq<char>, max: nat, keep: nat) -> bool {
    &&& encode_utf8(title).len() <= usize::MAX
    &&& encode_utf8(title).len() > max ==> is_char_boundary(encode_utf8(title), keep as int)
}

fn truncated(title: &str, max: usize, keep: usize) -> (r: String)
    requires
        keep <= max,
        can_truncate(title@, max as nat, keep as nat),
    ensures
        r@ == truncated_spec(title@, max as nat, keep as nat),
{
    if title.len() > max {
        let (head, _) = title.split_at(keep);
        proof {
            assert(head.spec_bytes() =~= encode_utf8(title@).subrange(0, keep as int));
            assert(decode_utf8(encode_utf8(head@)) == head@);
            assert(head@ == decode_utf8(encode_utf8(title@).subrange(0, keep as int)));
        }
        concat2(head, "...")
    } else {
        String::from_str(title)
    }
}

proof fn lemma_encode_concat(a: Seq<char>, b: Seq<char>)
    ensures
        encode_utf8(a + b) == encode_utf8(a) + encode_utf8(b),
    decreases a.len(),
{
    if a.len() > 0 {
        lemma_encode_concat(a.drop_first(), b);
        assert((a + b).drop_first() =~= a.drop_first() + b);
        assert((a + b)[0] == a[0]);
        assert(encode_scalar(a[0] as u32) + (encode_utf8(a.drop_first()) + encode_utf8(b))
            =~= (encode_scalar(a[0] as u32) + encode_utf8(a.drop_first())) + encode_utf8(b));
    } else {
        assert(a + b =~= b);
        assert(encode_utf8(a) + encode_utf8(b) =~= encode_utf8(b));
    }
}

/// A cut title is never longer than `max` bytes (where `keep` and the
/// three dots fit in `max`).
pub proof fn lemma_label_fits(title: Seq<char>, max: nat, keep: nat)
    requires
        can_truncate(title, max, keep),
        keep + 3 <= max,
    ensures
        encode_utf8(truncated_spec(title, max, keep)).len() <= max,
{
    let b = encode_utf8(title);
    if b.len() > max {
        let head = b.subrange(0, keep as int);
        vstd::utf8::valid_utf8_split(b, keep as int);
        let h = decode_utf8(head);
        assert(encode_utf8(h) == head);
        reveal_strlit("...");
        assert(encode_utf8("..."@).len() == 3) by {
            reveal_with_fuel(encode_utf8, 4);
        }
        lemma_encode_concat(h, "..."@);
    }
}

/// The label of a tab in the Linux tab bar: titles over 20 bytes cut to
/// 17 bytes and `...`.
pub fn tab_bar_label(title: &str) -> (r: String)
    requires
        can_truncate(title@, 20, 17),
    ensures
        r@ == truncated_spec(title@, 20, 17),
{
    truncated(title, 20, 17)
}

/// The label of a tab in the Linux menu: a marker for the shown tab (or two
/// spaces), then the title cut at 30 bytes to 27 bytes and `...`.
pub fn menu_tab_label(title: &str, is_active: bool) -> (r: String)
    requires
        can_truncate(title@, 30, 27),
    ensures
        r@ == (if is_active {
            "\u{25b6} "@
        } else {
            "  "@
        }) + truncated_spec(title@, 30, 27),
{
    let t = truncated(title, 30, 27);
    let prefix = if is_active {
        "\u{25b6} "
    } else {
        "  "
    };
    concat2(prefix, t.as_str())
}

} // verus!
