use tauri_marker::paths::{resolve_tauri_path, tauri_path_parts};

#[test]
fn absolute_project_path_is_joined_directly() {
    assert_eq!(tauri_path_parts("/work/app", "tauri", true), vec!["/work/app".to_string(), "tauri".to_string()]);
    assert_eq!(resolve_tauri_path("/work/app", "tauri"), "/work/app/tauri");
}

#[test]
fn relative_project_path_is_joined_below_parent() {
    assert_eq!(
        tauri_path_parts("crates", "tauri", false),
        vec!["..".to_string(), "crates".to_string(), "tauri".to_string()]
    );
    assert_eq!(resolve_tauri_path("crates", "tauri"), "../crates/tauri");
}
