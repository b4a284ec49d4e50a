//! Search engines: the query URL that each configured engine name selects.
use vstd::prelude::*;
use crate::text::{concat2, str_eq};

verus! {

/// The query prefix of the engine named `engine`; DuckDuckGo for any name
/// that is not one of the five others.
pub open spec fn search_prefix_spec(engine: Seq<char>) -> Seq<char> {
    if engine == "google"@ {
        "https://www.google.com/search?q="@
    } else if engine == "yandex"@ {
        "https://yandex.ru/search/?text="@
    } else if engine == "bing"@ {
        "https://www.bing.com/search?q="@
    } else if engine == "brave"@ {
        "https://search.brave.com/search?q="@
    } else if engine == "ecosia"@ {
        "https://www.ecosia.org/search?q="@
    } else {
        "https://duckduckgo.com/?q="@
    }
}

/// The URL prefix to which a search query for `engine` is appended.
pub fn search_url_prefix(engine: &str) -> (r: &'static str)
    ensures
        r@ == search_prefix_spec(engine@),
{
    if str_eq(engine, "google") {
        "https://www.google.com/search?q="
    } else if str_eq(engine, "yandex") {
        "https://yandex.ru/search/?text="
    } else if str_eq(engine, "bing") {
        "https://www.bing.com/search?q="
    } else if str_eq(engine, "brave") {
        "https://search.brave.com/search?q="
    } else if str_eq(engine, "ecosia") {
        "https://www.ecosia.org/search?q="
    } else {
        "https://duckduckgo.com/?q="
    }
}

/// The search URL for `query` on `engine`: the engine's prefix followed by
/// the query as given.
pub fn search_url(engine: &str, query: &str) -> (r: String)
    ensures
        r@ == search_prefix_spec(engine@) + query@,
{
    concat2(search_url_prefix(engine), query)
}

/// Every search prefix is an `https://` URL that ends in `=`.
pub proof fn lemma_prefix_shape(engine: Seq<char>)
    ensures
        "https://"@.is_prefix_of(search_prefix_spec(engine)),
        search_prefix_spec(engine).len() > 0,
        search_prefix_spec(engine)[0] == 'h',
        search_prefix_spec(engine).last() == '=',
{
    reveal_strlit("https://");
    reveal_strlit("https://www.google.com/search?q=");
    reveal_strlit("https://yandex.ru/search/?text=");
    reveal_strlit("https://www.bing.com/search?q=");
    reveal_strlit("https://search.brave.com/search?q=");
    reveal_strlit("https://www.ecosia.org/search?q=");
    reveal_strlit("https://duckduckgo.com/?q=");
    let p = search_prefix_spec(engine);
    assert("https://"@ =~= p.subrange(0, 8));
}

} // verus!
