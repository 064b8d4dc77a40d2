use sidecar_supervisor::entry::{EntryKind, EntryTarget};
use sidecar_supervisor::environment::EnvVar;
use sidecar_supervisor::config::StorageOverrides;
use sidecar_supervisor::launch::{environment_with, launch_environment, launch_plan, LaunchPlan};
use sidecar_supervisor::platform::Platform;

fn var(name: &str, value: &str) -> EnvVar {
    EnvVar { name: name.to_string(), value: value.to_string() }
}

fn script() -> EntryTarget {
    EntryTarget {
        kind: EntryKind::SourceScript,
        entry_path: "/srv/python-backend/backend_gui_host.py".to_string(),
        working_dir: "/srv/python-backend".to_string(),
    }
}

fn executable() -> EntryTarget {
    EntryTarget {
        kind: EntryKind::PrebuiltExecutable,
        entry_path: "C:\\app\\bioforger-backend.exe".to_string(),
        working_dir: "C:\\app".to_string(),
    }
}

#[test]
fn script_is_run_by_the_interpreter() {
    assert_eq!(
        launch_plan(&script(), 8778, Platform::Unix, None, None),
        LaunchPlan {
            program: "python".to_string(),
            args: vec!["/srv/python-backend/backend_gui_host.py".to_string()],
            working_dir: "/srv/python-backend".to_string(),
            env: vec![var("PORT", "8778"), var("BIOFORGER_BACKEND_PORT", "8778")],
            hide_window: false,
        }
    );
}

#[test]
fn executable_runs_by_itself() {
    assert_eq!(
        launch_plan(&executable(), 9001, Platform::Windows, Some("C:\\cfg\\c.json"), None),
        LaunchPlan {
            program: "C:\\app\\bioforger-backend.exe".to_string(),
            args: vec![],
            working_dir: "C:\\app".to_string(),
            env: vec![
                var("PORT", "9001"),
                var("BIOFORGER_BACKEND_PORT", "9001"),
                var("BIOFORGER_CONFIG_PATH", "C:\\cfg\\c.json"),
            ],
            hide_window: true,
        }
    );
}

#[test]
fn console_window_is_hidden_where_there_is_one() {
    assert!(launch_plan(&script(), 1, Platform::Windows, None, None).hide_window);
    assert!(!launch_plan(&executable(), 1, Platform::Unix, None, None).hide_window);
}

#[test]
fn storage_overrides_reach_the_child() {
    let contents =
        "{\"backendPort\":9001,\"documentsDir\":\"/data/docs\",\"dbPath\":\"/data/db.sqlite\"}";
    assert_eq!(
        launch_environment(9001, Some("/cfg/bioforger-config.json"), Some(contents)),
        vec![
            var("PORT", "9001"),
            var("BIOFORGER_BACKEND_PORT", "9001"),
            var("BIOFORGER_CONFIG_PATH", "/cfg/bioforger-config.json"),
            var("BIOFORGER_DB_PATH", "/data/db.sqlite"),
            var("BIOFORGER_DOCUMENTS_DIR", "/data/docs"),
        ]
    );
}

#[test]
fn empty_or_absent_overrides_are_left_out() {
    assert_eq!(
        launch_environment(8778, Some("/cfg/c.json"), Some("{\"dbPath\":\"\",\"documentsDir\":7}")),
        vec![
            var("PORT", "8778"),
            var("BIOFORGER_BACKEND_PORT", "8778"),
            var("BIOFORGER_CONFIG_PATH", "/cfg/c.json"),
        ]
    );
    assert_eq!(
        launch_environment(8778, Some("/cfg/c.json"), Some("{\"documentsDir\":\"/d\"}")),
        vec![
            var("PORT", "8778"),
            var("BIOFORGER_BACKEND_PORT", "8778"),
            var("BIOFORGER_CONFIG_PATH", "/cfg/c.json"),
            var("BIOFORGER_DOCUMENTS_DIR", "/d"),
        ]
    );
    assert_eq!(
        launch_environment(8778, Some("/cfg/c.json"), Some("broken")),
        vec![
            var("PORT", "8778"),
            var("BIOFORGER_BACKEND_PORT", "8778"),
            var("BIOFORGER_CONFIG_PATH", "/cfg/c.json"),
        ]
    );
}

#[test]
fn overrides_need_a_known_place_of_the_configuration() {
    assert_eq!(
        launch_environment(8778, None, Some("{\"dbPath\":\"/data/db\"}")),
        vec![var("PORT", "8778"), var("BIOFORGER_BACKEND_PORT", "8778")]
    );
}

#[test]
fn overrides_are_passed_on_in_a_fixed_order() {
    assert_eq!(
        environment_with(
            1,
            None,
            StorageOverrides {
                db_path: Some("/db".to_string()),
                documents_dir: Some("/docs".to_string()),
            }
        ),
        vec![
            var("PORT", "1"),
            var("BIOFORGER_BACKEND_PORT", "1"),
            var("BIOFORGER_DB_PATH", "/db"),
            var("BIOFORGER_DOCUMENTS_DIR", "/docs"),
        ]
    );
    assert_eq!(
        environment_with(65535, Some("c"), StorageOverrides { db_path: None, documents_dir: None }),
        vec![
            var("PORT", "65535"),
            var("BIOFORGER_BACKEND_PORT", "65535"),
            var("BIOFORGER_CONFIG_PATH", "c"),
        ]
    );
}
