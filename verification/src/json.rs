//! JSON framing of plain strings: the tab list that the Windows toolbar
//! receives and the commands sent to the Chromium backend. Each string is
//! quoted by `serde_json`; the framing around the quoted strings is ours.
use vstd::prelude::*;
use vstd::string::*;
use crate::tab::{Tab, TabView, tabs_view};
use crate::text::push_str;

verus! {

/// A lower-case hexadecimal digit of value `d` (`d < 16`).
pub open spec fn hex_lower(d: nat) -> char {
    if d < 10 {
        (48 + d) as char
    } else {
        (87 + d) as char
    }
}

/// How a JSON string literal written by `serde_json` holds the character
/// `c`: `"` and `\` behind a backslash, backspace, tab, line feed, form feed
/// and carriage return as `\b`, `\t`, `\n`, `\f`, `\r`, the other control
/// characters below U+0020 as `\u00` and two lower-case hex digits, and
/// every other character as itself.
pub open spec fn json_char_escape(c: char) -> Seq<char> {
    let u = c as u32;
    if c == '"' {
        "\\\""@
    } else if c == '\\' {
        "\\\\"@
    } else if u == 8 {
        "\\b"@
    } else if u == 9 {
        "\\t"@
    } else if u == 10 {
        "\\n"@
    } else if u == 12 {
        "\\f"@
    } else if u == 13 {
        "\\r"@
    } else if u < 32 {
        "\\u00"@ + seq![hex_lower((u / 16) as nat), hex_lower((u % 16) as nat)]
    } else {
        seq![c]
    }
}

/// The characters of `s`, each written as `json_char_escape` says.
pub open spec fn json_escape(s: Seq<char>) -> Seq<char>
    decreases s.len(),
{
    if s.len() == 0 {
        Seq::empty()
    } else {
        json_escape(s.drop_last()) + json_char_escape(s.last())
    }
}

/// The JSON string literal that `serde_json::to_string` writes for `s`: the
/// escaped characters between double quotes.
pub open spec fn json_string_of(s: Seq<char>) -> Seq<char> {
    "\""@ + json_escape(s) + "\""@
}

/// `serde_json::to_string` on a string: the quoted JSON literal, escaped
/// by the crate's table as `json_string_of` states (serialising a `str`
/// into memory cannot fail, so `unwrap_or_default` never gives the empty
/// string here).
#[verifier::external_body]
pub(crate) fn json_quote(s: &str) -> (r: String)
    ensures
        r@ == json_string_of(s@),
{
    serde_json::to_string(s).unwrap_or_default()
}

/// The string value under `key` in the JSON object `json`; `None` where the
/// text is not JSON or the value is missing or not a string.
pub uninterp spec fn json_string_field_of(json: Seq<char>, key: Seq<char>) -> Option<Seq<char>>;

/// `serde_json::from_str::<serde_json::Value>` on `json`, then `get(key)`
/// and `as_str`. Nothing is claimed of which texts parse.
#[verifier::external_body]
pub(crate) fn json_string_field(json: &str, key: &str) -> (r: Option<String>)
    ensures
        match r {
            Some(s) => json_string_field_of(json@, key@) == Some(s@),
            None => json_string_field_of(json@, key@) is None,
        },
{
    match serde_json::from_str::<serde_json::Value>(json) {
        Ok(v) => match v.get(key) {
            Some(x) => x.as_str().map(str::to_string),
            None => None,
        },
        Err(_) => None,
    }
}

pub open spec fn json_bool(b: bool) -> Seq<char> {
    if b {
        "true"@
    } else {
        "false"@
    }
}

/// One tab as a JSON object, keys in the order `serde_json` keeps them
/// (sorted): `active`, `id`, `title`, `url`.
pub open spec fn tab_json_spec(t: TabView) -> Seq<char> {
    "{\"active\":"@ + json_bool(t.active) + ",\"id\":"@ + json_string_of(t.id) + ",\"title\":"@
        + json_string_of(t.title) + ",\"url\":"@ + json_string_of(t.url) + "}"@
}

/// The objects of `tabs`, separated by commas.
pub open spec fn tab_objects_spec(tabs: Seq<TabView>) -> Seq<char>
    decreases tabs.len(),
{
    if tabs.len() == 0 {
        Seq::empty()
    } else if tabs.len() == 1 {
        tab_json_spec(tabs[0])
    } else {
        tab_objects_spec(tabs.drop_last()) + ","@ + tab_json_spec(tabs.last())
    }
}

/// The tabs as a compact JSON array of objects.
pub open spec fn tabs_json_spec(tabs: Seq<TabView>) -> Seq<char> {
    "["@ + tab_objects_spec(tabs) + "]"@
}

fn push_tab_json(out: &mut String, t: &Tab)
    ensures
        final(out)@ == old(out)@ + tab_json_spec(t@),
{
    push_str(out, "{\"active\":");
    if t.active {
        push_str(out, "true");
    } else {
        push_str(out, "false");
    }
    push_str(out, ",\"id\":");
    let id = json_quote(t.id.as_str());
    push_str(out, id.as_str());
    push_str(out, ",\"title\":");
    let title = json_quote(t.title.as_str());
    push_str(out, title.as_str());
    push_str(out, ",\"url\":");
    let url = json_quote(t.url.as_str());
    push_str(out, url.as_str());
    push_str(out, "}");
}

/// The tabs as the JSON array that the toolbar script reads.
pub fn tabs_json(tabs: &Vec<Tab>) -> (r: String)
    ensures
        r@ == tabs_json_spec(tabs_view(tabs@)),
{
    let mut out = String::from_str("[");
    let ghost start = out@;
    let mut i: usize = 0;
    assert(tabs_view(tabs@).take(0) =~= Seq::<TabView>::empty());
    while i < tabs.len()
        invariant
            i <= tabs.len(),
            start == "["@,
            out@ == start + tab_objects_spec(tabs_view(tabs@).take(i as int)),
        decreases tabs.len() - i,
    {
        let ghost tv = tabs_view(tabs@);
        let ghost prefix = tv.take(i as int);
        let ghost next = tv.take(i + 1);
        assert(next.drop_last() =~= prefix);
        assert(next.last() == tabs@[i as int]@);
        if i > 0 {
            push_str(&mut out, ",");
        }
        push_tab_json(&mut out, &tabs[i]);
        proof {
            if i == 0 {
                assert(prefix =~= Seq::<TabView>::empty());
                assert(start + Seq::<char>::empty() =~= start);
            }
        }
        i = i + 1;
    }
    assert(tabs_view(tabs@).take(tabs.len() as int) =~= tabs_view(tabs@));
    push_str(&mut out, "]");
    out
}

/// A command for the Chromium backend: `{"cmd":<name>,"<key>":<value>}`
/// (keys sorted, as `serde_json` writes them; `key` sorts after `cmd`).
pub open spec fn command_json_spec(cmd: Seq<char>, key: Seq<char>, value: Seq<char>) -> Seq<char> {
    "{\"cmd\":"@ + json_string_of(cmd) + ","@ + json_string_of(key) + ":"@ + json_string_of(value)
        + "}"@
}

/// Frames a backend command with one argument (see `command_json_spec`).
pub fn command_json(cmd: &str, key: &str, value: &str) -> (r: String)
    ensures
        r@ == command_json_spec(cmd@, key@, value@),
{
    let mut out = String::from_str("{\"cmd\":");
    let c = json_quote(cmd);
    push_str(&mut out, c.as_str());
    push_str(&mut out, ",");
    let k = json_quote(key);
    push_str(&mut out, k.as_str());
    push_str(&mut out, ":");
    let v = json_quote(value);
    push_str(&mut out, v.as_str());
    push_str(&mut out, "}");
    out
}

/// The backend command that closes the browser: `{"cmd":"shutdown"}`.
pub fn shutdown_command_json() -> (r: String)
    ensures
        r@ == "{\"cmd\":"@ + json_string_of("shutdown"@) + "}"@,
{
    let mut out = String::from_str("{\"cmd\":");
    let c = json_quote("shutdown");
    push_str(&mut out, c.as_str());
    push_str(&mut out, "}");
    out
}

} // verus!
