//! Browser tabs, and the outside calls that name them: a tab's title comes
//! from the host of its URL (`url`), a new tab's id from a random UUID (`uuid`).
use vstd::prelude::*;
use vstd::string::*;
use crate::text::{chars_of, str_eq, string_of_range};

verus! {

/// One browser tab.
#[derive(Clone, Debug)]
pub struct Tab {
    pub id: String,
    pub url: String,
    pub title: String,
    pub active: bool,
}

pub struct TabView {
    pub id: Seq<char>,
    pub url: Seq<char>,
    pub title: Seq<char>,
    pub active: bool,
}

impl View for Tab {
    type V = TabView;

    open spec fn view(&self) -> TabView {
        TabView { id: self.id@, url: self.url@, title: self.title@, active: self.active }
    }
}

pub open spec fn tabs_view(tabs: Seq<Tab>) -> Seq<TabView> {
    tabs.map_values(|t: Tab| t@)
}

/// The host that `url::Url::parse` finds in `url`, or the empty string where
/// the text does not parse or the URL has no host.
pub uninterp spec fn url_host_of(url: Seq<char>) -> Seq<char>;

/// `url::Url::parse` followed by `Url::host_str`; a text that does not parse,
/// or a URL without a host, gives the empty string. Nothing is claimed of the
/// host beyond its being the value that `url_host_of` names.
#[verifier::external_body]
pub(crate) fn url_host(url: &str) -> (r: String)
    ensures
        r@ == url_host_of(url@),
{
    match url::Url::parse(url) {
        Ok(u) => match u.host_str() {
            Some(h) => h.to_string(),
            None => String::new(),
        },
        Err(_) => String::new(),
    }
}

pub open spec fn is_lower_hex(c: char) -> bool {
    ('0' <= c && c <= '9') || ('a' <= c && c <= 'f')
}

/// The hyphenated lower-case form of a random (version 4) UUID: 32 hex
/// digits in groups of 8, 4, 4, 4 and 12, separated by `-`, with the version
/// digit `4` and an RFC 4122 variant digit (`8`, `9`, `a` or `b`).
pub open spec fn is_hyphenated_uuid(s: Seq<char>) -> bool {
    &&& s.len() == 36
    &&& forall|i: int|
        0 <= i < 36 ==> if i == 8 || i == 13 || i == 18 || i == 23 {
            s[i] == '-'
        } else {
            is_lower_hex(#[trigger] s[i])
        }
    &&& s[14] == '4'
    &&& (s[19] == '8' || s[19] == '9' || s[19] == 'a' || s[19] == 'b')
}

/// `uuid::Uuid::new_v4()` formatted with `to_string`: a random UUID in its
/// hyphenated lower-case form (the crate's `Display` writes `LowerHex` of the
/// hyphenated form; `new_v4` masks in the version and variant bits). Which
/// of the random digits come out is not stated.
#[verifier::external_body]
pub(crate) fn new_uuid_string() -> (r: String)
    ensures
        is_hyphenated_uuid(r@),
{
    uuid::Uuid::new_v4().to_string()
}

/// The first eight characters of `uuid`: the short id that a tab opened on
/// Linux gets from a fresh UUID.
pub fn short_id(uuid: &str) -> (r: String)
    requires
        uuid@.len() >= 8,
    ensures
        r@ == uuid@.take(8),
{
    let v = chars_of(uuid);
    string_of_range(&v, 0, 8)
}

/// The title a tab gets when it is pointed at `url`: the URL's host.
pub open spec fn title_for_url(url: Seq<char>) -> Seq<char> {
    url_host_of(url)
}

/// The tab a window starts with, and the one that replaces the last tab
/// when it is closed on Linux.
pub open spec fn start_tab_spec() -> TabView {
    TabView { id: "start"@, url: Seq::empty(), title: "New Tab"@, active: true }
}

pub fn start_tab() -> (r: Tab)
    ensures
        r@ == start_tab_spec(),
{
    Tab {
        id: String::from_str("start"),
        url: String::new(),
        title: String::from_str("New Tab"),
        active: true,
    }
}

/// `i` is the index of the first tab whose id is `id`.
pub open spec fn is_first_with_id(tabs: Seq<TabView>, id: Seq<char>, i: int) -> bool {
    &&& 0 <= i < tabs.len()
    &&& tabs[i].id == id
    &&& forall|j: int| 0 <= j < i ==> tabs[j].id != id
}

/// The index of the first tab whose id is `id`, if any tab has it.
pub open spec fn first_with_id(tabs: Seq<TabView>, id: Seq<char>) -> Option<int> {
    if exists|i: int| is_first_with_id(tabs, id, i) {
        Some(choose|i: int| is_first_with_id(tabs, id, i))
    } else {
        None
    }
}

/// Where some tab has id `id`, the first such tab is found, at or before it.
pub proof fn lemma_first_with_id_found(tabs: Seq<TabView>, id: Seq<char>, i: int)
    requires
        0 <= i < tabs.len(),
        tabs[i].id == id,
    ensures
        first_with_id(tabs, id) matches Some(k) && is_first_with_id(tabs, id, k) && k <= i,
    decreases i,
{
    if forall|j: int| 0 <= j < i ==> tabs[j].id != id {
        assert(is_first_with_id(tabs, id, i));
        let k = choose|k: int| is_first_with_id(tabs, id, k);
        assert(k == i) by {
            if k < i {
                assert(tabs[k].id != id);
            } else if k > i {
                assert(tabs[i].id != id);
            }
        }
    } else {
        let j = choose|j: int| 0 <= j < i && tabs[j].id == id;
        lemma_first_with_id_found(tabs, id, j);
    }
}

/// The position of the first tab with id `id` (`Iterator::position`).
pub fn position_of_id(tabs: &Vec<Tab>, id: &str) -> (r: Option<usize>)
    ensures
        match r {
            Some(i) => first_with_id(tabs_view(tabs@), id@) == Some(i as int) && i < tabs.len(),
            None => first_with_id(tabs_view(tabs@), id@) is None && forall|k: int|
                0 <= k < tabs.len() ==> tabs@[k].id@ != id@,
        },
{
    let ghost tv = tabs_view(tabs@);
    let mut i: usize = 0;
    while i < tabs.len()
        invariant
            i <= tabs.len(),
            tv == tabs_view(tabs@),
            forall|j: int| 0 <= j < i ==> tv[j].id != id@,
        decreases tabs.len() - i,
    {
        if str_eq(tabs[i].id.as_str(), id) {
            proof {
                assert(is_first_with_id(tv, id@, i as int));
                let k = choose|k: int| is_first_with_id(tv, id@, k);
                assert(k == i) by {
                    if k < i {
                    } else if k > i {
                        assert(tv[i as int].id != id@);
                    }
                }
            }
            return Some(i);
        }
        i = i + 1;
    }
    proof {
        assert forall|k: int| 0 <= k < tabs.len() implies tabs@[k].id@ != id@ by {
            assert(tv[k].id != id@);
        }
    }
    None
}

/// `t` marked inactive.
pub open spec fn deactivated(t: TabView) -> TabView {
    TabView { active: false, ..t }
}

/// Marks every tab inactive.
pub fn deactivate_all(tabs: &mut Vec<Tab>)
    ensures
        tabs_view(final(tabs)@) == tabs_view(old(tabs)@).map_values(|t: TabView| deactivated(t)),
{
    let ghost before = tabs_view(tabs@);
    let mut i: usize = 0;
    while i < tabs.len()
        invariant
            i <= tabs.len(),
            tabs.len() == before.len(),
            forall|j: int| 0 <= j < i ==> #[trigger] tabs_view(tabs@)[j] == deactivated(before[j]),
            forall|j: int| i <= j < tabs.len() ==> #[trigger] tabs_view(tabs@)[j] == before[j],
        decreases tabs.len() - i,
    {
        let ghost prev = tabs@;
        assert(tabs_view(prev)[i as int] == before[i as int]);
        tabs[i].active = false;
        proof {
            assert(tabs_view(tabs@)[i as int] == tabs@[i as int]@);
            assert forall|j: int| 0 <= j < tabs.len() && j != i implies tabs_view(tabs@)[j] == tabs_view(prev)[j] by {
                assert(tabs@[j] == prev[j]);
            }
            assert(tabs@[i as int]@ == deactivated(prev[i as int]@));
            assert forall|j: int| 0 <= j < tabs.len() && j != i implies tabs@[j] == prev[j] by {}
            assert(tabs_view(tabs@)[i as int] == deactivated(before[i as int]));
            assert forall|j: int| 0 <= j < i + 1 implies #[trigger] tabs_view(tabs@)[j] == deactivated(before[j]) by {
                if j < i {
                    assert(tabs_view(prev)[j] == deactivated(before[j]));
                }
            }
            assert forall|j: int| i + 1 <= j < tabs.len() implies #[trigger] tabs_view(tabs@)[j] == before[j] by {
                assert(tabs_view(prev)[j] == before[j]);
            }
        }
        i = i + 1;
    }
    assert(tabs_view(tabs@) =~= before.map_values(|t: TabView| deactivated(t)));
}

} // verus!
