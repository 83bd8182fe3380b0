use backend_supervisor::config::{candidate_paths, BackendConfig, Platform};
use backend_supervisor::greeting::greet;
use backend_supervisor::window::WindowRegistry;

#[test]
fn ensuring_main_twice_creates_exactly_one_window() {
    let mut registry = WindowRegistry::new();
    let name = String::from("main");
    assert!(registry.ensure(&name));
    assert!(!registry.ensure(&name));
    assert_eq!(registry.len(), 1);
    assert!(registry.contains(&name));
}

#[test]
fn ensuring_distinct_names_creates_both() {
    let mut registry = WindowRegistry::new();
    assert!(registry.ensure(&String::from("main")));
    assert!(registry.ensure(&String::from("settings")));
    assert_eq!(registry.len(), 2);
}

#[test]
fn seeding_from_existing_names_keeps_each_once() {
    let existing: Vec<String> =
        vec![String::from("main"), String::from("splash"), String::from("main")];
    let mut registry = WindowRegistry::from_names(&existing);
    assert_eq!(registry.len(), 2);
    assert!(registry.contains(&String::from("main")));
    assert!(registry.contains(&String::from("splash")));
    assert!(!registry.ensure(&String::from("main")));
    assert_eq!(registry.len(), 2);
}

#[test]
fn empty_registry_contains_nothing() {
    let registry = WindowRegistry::new();
    assert_eq!(registry.len(), 0);
    assert!(!registry.contains(&String::from("main")));
}

#[test]
fn candidate_paths_on_posix() {
    let v = candidate_paths("/app", Platform::Posix);
    assert_eq!(v.len(), 2);
    assert_eq!(v[0], "/app/.venv/bin/python");
    assert_eq!(v[1], "/app/.venv/bin/python");
}

#[test]
fn candidate_paths_on_windows() {
    let v = candidate_paths("C:\\app", Platform::Windows);
    assert_eq!(v.len(), 2);
    assert_eq!(v[0], "C:\\app\\.venv\\Scripts\\python.exe");
    assert_eq!(v[1], "C:\\app/.venv/bin/python");
}

#[test]
fn config_keeps_its_fields() {
    let candidates = candidate_paths("/app", Platform::Posix);
    let c = BackendConfig::new(
        String::from("127.0.0.1"),
        5001,
        String::from("/app"),
        candidates,
        vec![String::from("-m"), String::from("web.app")],
        500,
        30,
    );
    assert_eq!(c.host, "127.0.0.1");
    assert_eq!(c.port, 5001);
    assert_eq!(c.base_dir, "/app");
    assert_eq!(c.candidates.len(), 2);
    assert_eq!(c.args, vec![String::from("-m"), String::from("web.app")]);
    assert_eq!(c.interval_ms, 500);
    assert_eq!(c.max_attempts, 30);
}

#[test]
fn greeting_wraps_the_name() {
    assert_eq!(greet("World"), "Hello, World!");
    assert_eq!(greet(""), "Hello, !");
}
