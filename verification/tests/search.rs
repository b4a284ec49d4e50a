use ruva::search::{search_url, search_url_prefix};

#[test]
fn prefix_of_each_engine() {
    assert_eq!(search_url_prefix("google"), "https://www.google.com/search?q=");
    assert_eq!(search_url_prefix("yandex"), "https://yandex.ru/search/?text=");
    assert_eq!(search_url_prefix("bing"), "https://www.bing.com/search?q=");
    assert_eq!(search_url_prefix("brave"), "https://search.brave.com/search?q=");
    assert_eq!(search_url_prefix("ecosia"), "https://www.ecosia.org/search?q=");
    assert_eq!(search_url_prefix("duckduckgo"), "https://duckduckgo.com/?q=");
}

#[test]
fn unknown_engine_falls_back_to_duckduckgo() {
    assert_eq!(search_url_prefix(""), "https://duckduckgo.com/?q=");
    assert_eq!(search_url_prefix("Google"), "https://duckduckgo.com/?q=");
}

#[test]
fn search_url_appends_query() {
    assert_eq!(search_url("bing", "rust+lang"), "https://www.bing.com/search?q=rust+lang");
    assert_eq!(search_url("other", "x"), "https://duckduckgo.com/?q=x");
}

