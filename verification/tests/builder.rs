use std::path::PathBuf;
use tauri_utils::config::WebviewUrl;
use webview_ipc::builder::{
    metadata_script, metadata_script_of, window_labels_script, WebviewAttributes, WebviewBuilder,
};
use webview_ipc::url::PageUrl;
use webview_ipc::webview::{PageLoadEvent, PageLoadPayload, Webview};

fn index() -> WebviewUrl {
    WebviewUrl::App(PathBuf::from("index.html"))
}

#[test]
fn new_attributes_have_nothing_set() {
    let attributes = WebviewAttributes::new(index());
    assert_eq!(attributes.url, index());
    assert_eq!(attributes.user_agent, None);
    assert_eq!(attributes.initialization_scripts, Vec::<String>::new());
    assert_eq!(attributes.data_directory, None);
    assert!(attributes.file_drop_handler_enabled);
    assert!(!attributes.clipboard);
    assert!(!attributes.accept_first_mouse);
    assert_eq!(attributes.additional_browser_args, None);
    assert!(!attributes.incognito);
}

#[test]
fn builder_keeps_label_and_url() {
    let builder = WebviewBuilder::new("main".to_string(), index());
    assert_eq!(builder.label, "main");
    assert_eq!(builder.webview_attributes.url, index());
    let other = Webview::builder("second".to_string(), index());
    assert_eq!(other.label, "second");
    assert!(other.webview_attributes.file_drop_handler_enabled);
}

#[test]
fn builder_sets_each_attribute_alone() {
    let builder = WebviewBuilder::new("main".to_string(), index()).accept_first_mouse(true);
    assert!(builder.webview_attributes.accept_first_mouse);
    assert!(!builder.webview_attributes.incognito);
    let builder = builder.incognito(true);
    assert!(builder.webview_attributes.incognito);
    assert!(builder.webview_attributes.accept_first_mouse);
    let builder = builder.accept_first_mouse(false).incognito(false);
    assert!(!builder.webview_attributes.accept_first_mouse);
    assert!(!builder.webview_attributes.incognito);
    assert_eq!(builder.label, "main");
}

#[test]
fn builder_collects_scripts_in_order() {
    let builder = WebviewBuilder::new("main".to_string(), index())
        .initialization_script("first()")
        .initialization_script("second()");
    assert_eq!(
        builder.webview_attributes.initialization_scripts,
        vec!["first()".to_string(), "second()".to_string()]
    );
}

#[test]
fn builder_sets_texts_and_directory() {
    let builder = WebviewBuilder::new("main".to_string(), index())
        .user_agent("agent/1.0")
        .additional_browser_args("--flag")
        .data_directory(PathBuf::from("/tmp/data"));
    assert_eq!(builder.webview_attributes.user_agent, Some("agent/1.0".to_string()));
    assert_eq!(builder.webview_attributes.additional_browser_args, Some("--flag".to_string()));
    assert_eq!(builder.webview_attributes.data_directory, Some(PathBuf::from("/tmp/data")));
}

#[test]
fn builder_switches_file_drop_and_clipboard() {
    let builder = WebviewBuilder::new("main".to_string(), index())
        .disable_file_drop_handler()
        .enable_clipboard_access();
    assert!(!builder.webview_attributes.file_drop_handler_enabled);
    assert!(builder.webview_attributes.clipboard);
}

#[test]
fn metadata_script_has_its_fixed_text() {
    assert_eq!(
        metadata_script("[\"main\"]"),
        "window.__TAURI_INTERNALS__.metadata.windows = [\"main\"].map(function (label) { return { label: label } })"
    );
}

#[test]
fn metadata_script_of_a_failed_serialization_is_the_reason() {
    match metadata_script_of(Err("no".to_string())) {
        Err(error) => assert_eq!(error.message, "no"),
        Ok(_) => panic!("a failed serialization gives no script"),
    }
    assert_eq!(
        metadata_script_of(Ok("[]".to_string())).unwrap(),
        "window.__TAURI_INTERNALS__.metadata.windows = [].map(function (label) { return { label: label } })"
    );
}

#[test]
fn window_labels_are_written_as_a_json_array() {
    let labels = vec!["main".to_string(), "a\"b".to_string()];
    assert_eq!(
        window_labels_script(&labels).unwrap(),
        "window.__TAURI_INTERNALS__.metadata.windows = [\"main\",\"a\\\"b\"].map(function (label) { return { label: label } })"
    );
    assert_eq!(
        window_labels_script(&Vec::new()).unwrap(),
        "window.__TAURI_INTERNALS__.metadata.windows = [].map(function (label) { return { label: label } })"
    );
}

#[test]
fn page_load_payload_keeps_url_and_event() {
    let url = PageUrl::parse("https://example.com/").unwrap();
    let payload = PageLoadPayload::new(&url, PageLoadEvent::Finished);
    assert_eq!(payload.url().as_str(), "https://example.com/");
    assert_eq!(payload.event(), PageLoadEvent::Finished);
    assert_ne!(payload.event(), PageLoadEvent::Started);
}
