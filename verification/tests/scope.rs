use webview_ipc::scope::{clone_texts, contains_text, IpcScope, RemoteDomainAccessScope, ScopeDecision};
use webview_ipc::url::PageUrl;

fn page(text: &str) -> PageUrl {
    PageUrl::parse(text).unwrap()
}

fn grant(domain: &str, window: &str, plugins: &[&str]) -> RemoteDomainAccessScope {
    let mut grant = RemoteDomainAccessScope::new(domain.to_string()).add_window(window.to_string());
    for plugin in plugins {
        grant = grant.add_plugin(plugin.to_string());
    }
    grant
}

#[test]
fn no_grant_denies_every_remote_origin() {
    let scope = IpcScope::new();
    let decision = scope.remote_access_for("main", &page("https://example.com/"));
    assert!(matches!(
        decision,
        ScopeDecision::Denied { matches_window: false, matches_domain: false }
    ));
}

#[test]
fn unknown_window_is_denied_with_window_flag_down() {
    let mut scope = IpcScope::new();
    scope.configure_remote_access(grant("example.com", "other", &["fs"]));
    let decision = scope.remote_access_for("main", &page("https://example.com/"));
    assert!(matches!(
        decision,
        ScopeDecision::Denied { matches_window: false, matches_domain: true }
    ));
}

#[test]
fn unknown_domain_is_denied_with_window_flag_up() {
    let mut scope = IpcScope::new();
    scope.configure_remote_access(grant("example.com", "main", &["fs"]));
    let decision = scope.remote_access_for("main", &page("https://evil.test/"));
    assert!(matches!(
        decision,
        ScopeDecision::Denied { matches_window: true, matches_domain: false }
    ));
}

#[test]
fn window_and_domain_of_different_grants_do_not_add_up() {
    let mut scope = IpcScope::new();
    scope.configure_remote_access(grant("example.com", "other", &["fs"]));
    scope.configure_remote_access(grant("tauri.app", "main", &["fs"]));
    let decision = scope.remote_access_for("main", &page("https://example.com/"));
    assert!(matches!(
        decision,
        ScopeDecision::Denied { matches_window: true, matches_domain: true }
    ));
}

#[test]
fn fitting_grant_allows_its_plugins() {
    let mut scope = IpcScope::new();
    scope.configure_remote_access(grant("example.com", "main", &["fs", "dialog"]));
    match scope.remote_access_for("main", &page("https://example.com/some/page?x=1")) {
        ScopeDecision::Allowed(plugins) => {
            assert_eq!(plugins, vec!["fs".to_string(), "dialog".to_string()])
        }
        ScopeDecision::Denied { .. } => panic!("a fitting grant must allow"),
    }
}

#[test]
fn first_fitting_grant_wins() {
    let mut scope = IpcScope::new();
    scope.configure_remote_access(grant("example.com", "other", &["shell"]));
    scope.configure_remote_access(grant("example.com", "main", &["fs"]));
    scope.configure_remote_access(grant("example.com", "main", &["dialog"]));
    match scope.remote_access_for("main", &page("https://example.com/")) {
        ScopeDecision::Allowed(plugins) => assert_eq!(plugins, vec!["fs".to_string()]),
        ScopeDecision::Denied { .. } => panic!("a fitting grant must allow"),
    }
}

#[test]
fn grant_without_scheme_fits_any_scheme() {
    let mut scope = IpcScope::new();
    scope.configure_remote_access(grant("example.com", "main", &[]));
    assert!(matches!(
        scope.remote_access_for("main", &page("http://example.com/")),
        ScopeDecision::Allowed(_)
    ));
    assert!(matches!(
        scope.remote_access_for("main", &page("https://example.com/")),
        ScopeDecision::Allowed(_)
    ));
}

#[test]
fn grant_with_scheme_fits_that_scheme_only() {
    let mut scope = IpcScope::new();
    scope.configure_remote_access(
        grant("example.com", "main", &["fs"]).allow_on_scheme("https".to_string()),
    );
    assert!(matches!(
        scope.remote_access_for("main", &page("https://example.com/")),
        ScopeDecision::Allowed(_)
    ));
    assert!(matches!(
        scope.remote_access_for("main", &page("http://example.com/")),
        ScopeDecision::Denied { matches_window: true, matches_domain: false }
    ));
}

#[test]
fn origin_without_domain_is_never_granted() {
    let mut scope = IpcScope::new();
    scope.configure_remote_access(grant("127.0.0.1", "main", &["fs"]));
    assert!(matches!(
        scope.remote_access_for("main", &page("http://127.0.0.1/")),
        ScopeDecision::Denied { matches_window: true, matches_domain: false }
    ));
}

#[test]
fn domain_must_be_equal_not_a_suffix() {
    let mut scope = IpcScope::new();
    scope.configure_remote_access(grant("example.com", "main", &["fs"]));
    assert!(matches!(
        scope.remote_access_for("main", &page("https://sub.example.com/")),
        ScopeDecision::Denied { matches_window: true, matches_domain: false }
    ));
}

#[test]
fn grant_builders_collect_their_arguments() {
    let grant = RemoteDomainAccessScope::new("example.com".to_string())
        .add_window("a".to_string())
        .add_window("b".to_string())
        .add_plugin("fs".to_string());
    assert_eq!(grant.domain(), "example.com");
    assert_eq!(grant.windows(), &vec!["a".to_string(), "b".to_string()]);
    assert_eq!(grant.plugins(), &vec!["fs".to_string()]);
}

#[test]
fn contains_text_finds_whole_texts() {
    let list = vec!["fs".to_string(), "dialog".to_string()];
    assert!(contains_text(&list, "fs"));
    assert!(contains_text(&list, "dialog"));
    assert!(!contains_text(&list, "f"));
    assert!(!contains_text(&list, "shell"));
    assert!(!contains_text(&Vec::new(), ""));
}

#[test]
fn clone_texts_copies_the_list() {
    let list = vec!["fs".to_string(), "".to_string(), "é".to_string()];
    assert_eq!(clone_texts(&list), list);
}
