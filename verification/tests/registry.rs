use webview_ipc::event::{EventSource, JsEventListenerKey, Listeners};
use webview_ipc::listeners::JsEventListeners;

fn global() -> EventSource {
    EventSource::Global
}

fn window(label: &str) -> EventSource {
    EventSource::Window { label: label.to_string() }
}

fn webview(label: &str) -> EventSource {
    EventSource::Webview { label: label.to_string() }
}

#[test]
fn event_sources_compare_by_variant_and_label() {
    assert_eq!(global(), global());
    assert_eq!(window("w"), window("w"));
    assert_eq!(webview("w"), webview("w"));
    assert_ne!(window("w"), webview("w"));
    assert_ne!(window("w"), window("v"));
    assert_ne!(global(), window(""));
}

#[test]
fn event_source_clone_is_equal() {
    let source = webview("main");
    assert_eq!(source.clone(), source);
}

#[test]
fn listener_keys_compare_by_source_and_event() {
    let key = JsEventListenerKey { source: window("w"), event: "ping".to_string() };
    assert_eq!(key.clone(), key);
    assert_ne!(key, JsEventListenerKey { source: window("w"), event: "pong".to_string() });
    assert_ne!(key, JsEventListenerKey { source: webview("w"), event: "ping".to_string() });
}

#[test]
fn listener_ids_count_up_from_zero() {
    let mut listeners = Listeners::new("emit".to_string(), "registry".to_string());
    assert_eq!(listeners.next_event_id(), 0);
    assert_eq!(listeners.next_event_id(), 1);
    assert_eq!(listeners.next_event_id(), 2);
    assert_eq!(listeners.function_name(), "emit");
    assert_eq!(listeners.listeners_object_name(), "registry");
}

#[test]
fn empty_registry_matches_nothing() {
    let registry = JsEventListeners::new();
    assert!(!registry.matches("w", &global(), "ping"));
    assert!(!registry.matches("w", &window("w"), "ping"));
    assert!(!registry.matches("w", &webview("w"), "ping"));
    assert_eq!(registry.matching_ids("w", &global(), "ping"), Vec::<u32>::new());
}

#[test]
fn unregister_removes_the_contribution_of_the_id() {
    let mut registry = JsEventListeners::new();
    registry.register(webview("main"), "ping".to_string(), 7);
    assert!(registry.matches("main", &webview("main"), "ping"));
    registry.unregister(7);
    assert!(!registry.matches("main", &webview("main"), "ping"));
    assert!(!registry.matches("main", &global(), "ping"));
}

#[test]
fn key_stays_until_its_last_id_is_removed() {
    let mut registry = JsEventListeners::new();
    registry.register(window("w"), "ping".to_string(), 1);
    registry.register(window("w"), "ping".to_string(), 2);
    registry.unregister(1);
    assert!(registry.matches("w", &window("w"), "ping"));
    assert_eq!(registry.matching_ids("w", &window("w"), "ping"), vec![2]);
    registry.unregister(2);
    assert!(!registry.matches("w", &window("w"), "ping"));
    assert!(!registry.matches("w", &global(), "ping"));
}

#[test]
fn unregister_of_a_missing_id_changes_nothing() {
    let mut registry = JsEventListeners::new();
    registry.register(global(), "ping".to_string(), 3);
    registry.unregister(4);
    registry.unregister(4);
    assert!(registry.matches("w", &global(), "ping"));
    assert_eq!(registry.matching_ids("w", &global(), "ping"), vec![3]);
}

#[test]
fn unregister_leaves_other_keys_alone() {
    let mut registry = JsEventListeners::new();
    registry.register(window("w"), "ping".to_string(), 1);
    registry.register(window("w"), "pong".to_string(), 2);
    registry.unregister(1);
    assert!(!registry.matches("w", &window("w"), "ping"));
    assert!(registry.matches("w", &window("w"), "pong"));
}

#[test]
fn registering_twice_keeps_one_listener() {
    let mut registry = JsEventListeners::new();
    registry.register(global(), "ping".to_string(), 5);
    registry.register(global(), "ping".to_string(), 5);
    assert_eq!(registry.matching_ids("w", &global(), "ping"), vec![5]);
    registry.unregister(5);
    assert!(!registry.matches("w", &global(), "ping"));
}

#[test]
fn global_emission_matches_any_source_stored() {
    for stored in [global(), window("a"), webview("b"), window("w")] {
        let mut registry = JsEventListeners::new();
        registry.register(stored, "ping".to_string(), 1);
        assert!(registry.matches("w", &global(), "ping"));
        assert!(!registry.matches("w", &global(), "pong"));
    }
}

#[test]
fn window_emission_matches_window_webview_and_global() {
    for stored in [window("w"), webview("w"), global()] {
        let mut registry = JsEventListeners::new();
        registry.register(stored, "ping".to_string(), 1);
        assert!(registry.matches("w", &window("w"), "ping"));
    }
}

#[test]
fn webview_emission_does_not_match_window_registration() {
    let mut registry = JsEventListeners::new();
    registry.register(window("w"), "ping".to_string(), 1);
    assert!(!registry.matches("w", &webview("w"), "ping"));
    registry.register(webview("w"), "ping".to_string(), 2);
    assert!(registry.matches("w", &webview("w"), "ping"));
}

#[test]
fn window_emission_from_another_window_does_not_cascade() {
    let mut registry = JsEventListeners::new();
    registry.register(webview("other"), "ping".to_string(), 1);
    // the registry belongs to a webview of window "w": "other" is another window
    assert!(!registry.matches("w", &window("other"), "ping"));
    // in a webview of window "other" the same emission cascades
    assert!(registry.matches("other", &window("other"), "ping"));
    registry.register(window("other"), "ping".to_string(), 2);
    assert!(registry.matches("w", &window("other"), "ping"));
}

#[test]
fn cross_label_emission_matches_own_key_or_global() {
    let mut registry = JsEventListeners::new();
    registry.register(webview("a"), "ping".to_string(), 1);
    assert!(!registry.matches("w", &webview("b"), "ping"));
    assert!(registry.matches("w", &webview("a"), "ping"));
    registry.register(global(), "ping".to_string(), 2);
    assert!(registry.matches("w", &webview("b"), "ping"));
}

#[test]
fn event_names_must_agree() {
    let mut registry = JsEventListeners::new();
    registry.register(webview("a"), "ping".to_string(), 1);
    assert!(!registry.matches("w", &webview("a"), "pin"));
    assert!(!registry.matches("w", &webview("a"), "ping2"));
}

#[test]
fn matching_ids_collects_each_reached_listener_once() {
    let mut registry = JsEventListeners::new();
    registry.register(window("w"), "ping".to_string(), 1);
    registry.register(webview("w"), "ping".to_string(), 2);
    registry.register(global(), "ping".to_string(), 3);
    registry.register(window("x"), "ping".to_string(), 4);
    registry.register(window("w"), "pong".to_string(), 5);
    registry.register(global(), "ping".to_string(), 1);
    let mut ids = registry.matching_ids("w", &window("w"), "ping");
    ids.sort();
    assert_eq!(ids, vec![1, 2, 3]);
    let mut all = registry.matching_ids("w", &global(), "ping");
    all.sort();
    assert_eq!(all, vec![1, 2, 3, 4]);
    let mut webview_only = registry.matching_ids("w", &webview("w"), "ping");
    webview_only.sort();
    assert_eq!(webview_only, vec![1, 2, 3]);
}
