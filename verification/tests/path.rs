use std::path::PathBuf;
use webview_ipc::path::{PathError, PathResolver};

fn resolver() -> PathResolver {
    PathResolver::new("com.example.app".to_string())
}

#[test]
fn resolver_keeps_its_identifier() {
    assert_eq!(resolver().identifier(), "com.example.app");
}

#[test]
fn resource_dir_is_the_directory_found() {
    assert_eq!(
        resolver().resource_dir(Some(PathBuf::from("/usr/lib/app"))),
        Ok(PathBuf::from("/usr/lib/app"))
    );
}

#[test]
fn resource_dir_is_unknown_where_none_was_found() {
    assert_eq!(resolver().resource_dir(None), Err(PathError::UnknownPath));
}

#[test]
fn app_directories_are_named_by_the_identifier() {
    let base = PathBuf::from("base");
    let expected = PathBuf::from("base").join("com.example.app");
    assert_eq!(resolver().app_config_dir(Some(base.clone())), Ok(expected.clone()));
    assert_eq!(resolver().app_data_dir(Some(base.clone())), Ok(expected.clone()));
    assert_eq!(resolver().app_local_data_dir(Some(base.clone())), Ok(expected.clone()));
    assert_eq!(resolver().app_cache_dir(Some(base)), Ok(expected));
}

#[test]
fn app_directories_are_unknown_without_a_base() {
    assert_eq!(resolver().app_config_dir(None), Err(PathError::UnknownPath));
    assert_eq!(resolver().app_data_dir(None), Err(PathError::UnknownPath));
    assert_eq!(resolver().app_local_data_dir(None), Err(PathError::UnknownPath));
    assert_eq!(resolver().app_cache_dir(None), Err(PathError::UnknownPath));
    assert_eq!(resolver().app_log_dir(None, false), Err(PathError::UnknownPath));
    assert_eq!(resolver().app_log_dir(None, true), Err(PathError::UnknownPath));
}

#[test]
fn log_directory_lies_under_the_local_data_directory() {
    let expected = PathBuf::from("data").join("com.example.app").join("logs");
    assert_eq!(resolver().app_log_dir(Some(PathBuf::from("data")), false), Ok(expected));
}

#[test]
fn log_directory_on_macos_lies_under_the_home_directory() {
    let expected = PathBuf::from("home").join("Library/Logs").join("com.example.app");
    assert_eq!(resolver().app_log_dir(Some(PathBuf::from("home")), true), Ok(expected));
}
