use sidecar_supervisor::config::ConfigFile;
use sidecar_supervisor::lifecycle::{port_to_clear, start_status, stop_status};
use sidecar_supervisor::supervisor::{Started, StartupError};

#[test]
fn start_tells_adopted_and_spawned_apart() {
    assert_eq!(
        start_status(&Ok(Started::AlreadyRunning)),
        Ok("Python backend already running".to_string())
    );
    assert_eq!(start_status(&Ok(Started::Spawned)), Ok("Python backend started".to_string()));
}

#[test]
fn start_passes_errors_on_as_their_message() {
    assert_eq!(
        start_status(&Err(StartupError::EntryNotFound)),
        Err("Python backend main.py not found. Please ensure python-backend/main.py exists or build the backend exe.".to_string())
    );
    assert_eq!(
        start_status(&Err(StartupError::StartupFailed { entry: "/srv/b/main.py".to_string() })),
        Err("Python backend failed to become healthy. Entry: /srv/b/main.py".to_string())
    );
    assert_eq!(
        start_status(&Err(StartupError::SpawnFailed { detail: "access denied".to_string() })),
        Err("Failed to start Python backend: access denied".to_string())
    );
    assert_eq!(
        start_status(&Err(StartupError::ConfinementSetupFailed {
            detail: "SetInformationJobObject failed".to_string()
        })),
        Err("SetInformationJobObject failed".to_string())
    );
}

#[test]
fn error_messages_name_what_was_tried() {
    assert_eq!(
        StartupError::StartupFailed { entry: String::new() }.message(),
        "Python backend failed to become healthy. Entry: "
    );
    assert_eq!(
        StartupError::ConfinementSetupFailed { detail: "CreateJobObject failed: 5".to_string() }
            .message(),
        "CreateJobObject failed: 5"
    );
    let error = StartupError::SpawnFailed { detail: "é".to_string() };
    assert_eq!(error.clone(), error);
    assert_eq!(error.message(), "Failed to start Python backend: é");
}

#[test]
fn stop_answers_and_clears_the_port_of_the_session() {
    assert_eq!(stop_status(), "Python backend stopped");
    assert_eq!(port_to_clear(&ConfigFile::NoPath, None), 8778);
    assert_eq!(port_to_clear(&ConfigFile::NoPath, Some("9100")), 9100);
    assert_eq!(
        port_to_clear(&ConfigFile::Contents("{\"backendPort\":9001}".to_string()), Some("9100")),
        9001
    );
    assert_eq!(port_to_clear(&ConfigFile::Unreadable, Some("0")), 8778);
}
