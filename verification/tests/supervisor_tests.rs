use backend_supervisor::logs::greet;
use backend_supervisor::supervisor::{BackendHandle, StartEvent, Supervisor, WindowEvent};

#[test]
fn single_spawn_stores_once() {
    let mut sup = Supervisor::new();
    assert!(sup.backend.is_none());
    let logs = sup.handle_start(StartEvent::Spawned(BackendHandle { pid: 7 }));
    assert_eq!(sup.backend, Some(BackendHandle { pid: 7 }));
    assert_eq!(logs, vec!["[System] Sidecar Python iniciado com sucesso".to_string()]);
    let logs_again = sup.handle_start(StartEvent::Spawned(BackendHandle { pid: 9 }));
    assert_eq!(sup.backend, Some(BackendHandle { pid: 7 }));
    assert!(logs_again.is_empty());
}

#[test]
fn handle_survives_failed_reattempts() {
    let mut sup = Supervisor::new();
    sup.handle_start(StartEvent::Spawned(BackendHandle { pid: 41 }));
    sup.handle_start(StartEvent::ResolveFailed("late".to_string()));
    sup.handle_start(StartEvent::SpawnFailed("late".to_string()));
    assert_eq!(sup.backend, Some(BackendHandle { pid: 41 }));
}

#[test]
fn resolution_failure_leaves_slot_empty() {
    let mut sup = Supervisor::new();
    let logs = sup.handle_start(StartEvent::ResolveFailed("no such resource".to_string()));
    assert!(sup.backend.is_none());
    assert_eq!(
        logs,
        vec![
            "[Erro] Falha ao configurar sidecar: no such resource".to_string(),
            "[Erro] Verifique se o binário está em src-tauri/binaries/".to_string(),
            "[Erro] Execute: pnpm compile:sidecar".to_string(),
        ]
    );
}

#[test]
fn spawn_failure_leaves_slot_empty_and_lines_distinct() {
    let mut sup = Supervisor::new();
    let logs = sup.handle_start(StartEvent::SpawnFailed("permission denied".to_string()));
    assert!(sup.backend.is_none());
    assert_eq!(logs.len(), 3);
    assert_eq!(logs[0], "[Erro] Falha ao iniciar sidecar: permission denied");
    assert_eq!(logs[1], "[Erro] Verifique se o binário está em src-tauri/binaries/");
    assert_eq!(logs[2], "[Erro] Execute: pnpm compile:sidecar");
    assert_ne!(logs[0], logs[1]);
    assert_ne!(logs[0], logs[2]);
    assert_ne!(logs[1], logs[2]);
}

#[test]
fn window_destroy_logs_one_line_without_backend() {
    let sup = Supervisor::new();
    let logs = sup.handle_window_event(&WindowEvent::Destroyed);
    assert_eq!(logs, vec!["[System]: Encerrando Backend...".to_string()]);
}

#[test]
fn window_destroy_logs_one_line_with_backend() {
    let mut sup = Supervisor::new();
    sup.handle_start(StartEvent::Spawned(BackendHandle { pid: 3 }));
    let logs = sup.handle_window_event(&WindowEvent::Destroyed);
    assert_eq!(logs, vec!["[System]: Encerrando Backend...".to_string()]);
}

#[test]
fn other_window_events_log_nothing() {
    let sup = Supervisor::new();
    let logs = sup.handle_window_event(&WindowEvent::Other);
    assert!(logs.is_empty());
}

#[test]
fn greet_formats_the_name() {
    assert_eq!(greet("World"), "Hello, World! You've been greeted from Rust!");
    assert_eq!(greet(""), "Hello, ! You've been greeted from Rust!");
}
