use webview_ipc::url::PageUrl;

#[test]
fn parse_reads_scheme_and_domain() {
    let url = PageUrl::parse("HTTPS://Example.COM/a/b?q=1").unwrap();
    assert_eq!(url.scheme(), "https");
    assert_eq!(url.domain(), Some("example.com"));
    assert_eq!(url.as_str(), "https://example.com/a/b?q=1");
}

#[test]
fn parse_gives_no_domain_for_an_address_number() {
    let url = PageUrl::parse("http://127.0.0.1:8080/").unwrap();
    assert_eq!(url.scheme(), "http");
    assert_eq!(url.domain(), None);
}

#[test]
fn parse_reads_a_custom_protocol() {
    let url = PageUrl::parse("tauri://localhost").unwrap();
    assert_eq!(url.scheme(), "tauri");
    assert_eq!(url.domain(), Some("localhost"));
}

#[test]
fn parse_refuses_what_is_no_absolute_url() {
    assert!(PageUrl::parse("not a url").is_none());
    assert!(PageUrl::parse("/relative/path").is_none());
    assert!(PageUrl::parse("").is_none());
}

#[test]
fn new_keeps_the_parts_given() {
    let url = PageUrl::new("x://y/".to_string(), "x".to_string(), None);
    assert_eq!(url.as_str(), "x://y/");
    assert_eq!(url.scheme(), "x");
    assert_eq!(url.domain(), None);
    let copy = url.clone();
    assert_eq!(copy.as_str(), "x://y/");
}

#[test]
fn make_relative_within_one_origin() {
    let base = PageUrl::parse("https://example.com/a/b/index.html").unwrap();
    let target = PageUrl::parse("https://example.com/a/c/page.html?x=1#top").unwrap();
    assert_eq!(base.make_relative(&target), Some("../c/page.html?x=1#top".to_string()));
}

#[test]
fn make_relative_to_itself_is_empty() {
    let base = PageUrl::parse("tauri://localhost").unwrap();
    assert_eq!(base.make_relative(&base.clone()), Some("".to_string()));
}

#[test]
fn make_relative_needs_the_same_scheme_host_and_port() {
    let base = PageUrl::parse("https://example.com/").unwrap();
    assert_eq!(base.make_relative(&PageUrl::parse("http://example.com/").unwrap()), None);
    assert_eq!(base.make_relative(&PageUrl::parse("https://example.org/").unwrap()), None);
    assert_eq!(base.make_relative(&PageUrl::parse("https://example.com:8443/").unwrap()), None);
}

#[test]
fn make_relative_of_unparsable_text_is_none() {
    let base = PageUrl::new("nonsense".to_string(), "https".to_string(), None);
    let target = PageUrl::parse("https://example.com/").unwrap();
    assert_eq!(base.make_relative(&target), None);
    assert_eq!(target.make_relative(&base), None);
}
