use lifeos_shell::launch::{LaunchPlan, Mode, StartConfig};
use lifeos_shell::path::{backend_dir, backend_dir_under, project_root};

fn pair(name: &str, value: &str) -> (String, String) {
    (name.to_string(), value.to_string())
}

#[test]
fn production_runs_the_packaged_backend() {
    let config = StartConfig::production();
    assert_eq!(config.mode, Mode::Production);
    assert_eq!(config.executable, "lifeos-backend");
    assert_eq!(config.working_dir, None);
    assert!(config.env.is_empty());
    assert_eq!(config.port, 52700);
}

#[test]
fn production_plan_has_no_arguments() {
    let plan = StartConfig::production().plan();
    assert_eq!(
        plan,
        LaunchPlan {
            program: "lifeos-backend".to_string(),
            args: vec![],
            working_dir: None,
            env: vec![pair("LIFEOS_PORT", "52700")],
        }
    );
}

#[test]
fn development_runs_the_script_in_the_backend_directory() {
    let config = StartConfig::development_in("/srv/lifeos/backend".to_string());
    assert_eq!(config.mode, Mode::Development);
    assert_eq!(config.executable, "python");
    assert_eq!(config.working_dir, Some("/srv/lifeos/backend".to_string()));
    assert!(config.env.is_empty());
    assert_eq!(config.port, 52700);
    let plan = config.plan();
    assert_eq!(
        plan,
        LaunchPlan {
            program: "python".to_string(),
            args: vec!["main.py".to_string()],
            working_dir: Some("/srv/lifeos/backend".to_string()),
            env: vec![pair("LIFEOS_PORT", "52700")],
        }
    );
}

#[test]
fn plan_takes_the_executable_from_the_configuration() {
    let mut config = StartConfig::production();
    config.executable = "nonexistent-binary".to_string();
    let plan = config.plan();
    assert_eq!(plan.program, "nonexistent-binary");
    assert!(plan.args.is_empty());
}

#[test]
fn plan_carries_the_configured_port() {
    let mut config = StartConfig::production();
    config.port = 8080;
    let plan = config.plan();
    assert_eq!(plan.env, vec![pair("LIFEOS_PORT", "8080")]);
}

#[test]
fn port_comes_after_the_configured_variables() {
    let mut config = StartConfig::development_in("backend".to_string());
    config.env = vec![pair("LIFEOS_PORT", "1"), pair("LOG", "debug")];
    let plan = config.plan();
    assert_eq!(
        plan.env,
        vec![
            pair("LIFEOS_PORT", "1"),
            pair("LOG", "debug"),
            pair("LIFEOS_PORT", "52700"),
        ]
    );
}

#[test]
fn project_root_is_two_levels_up() {
    assert_eq!(
        project_root("/home/me/lifeos/apps/desktop/src-tauri"),
        Some("/home/me/lifeos/apps".to_string())
    );
    assert_eq!(project_root("a/b/c"), Some("a".to_string()));
    assert_eq!(project_root("a/b"), Some("".to_string()));
}

#[test]
fn project_root_is_missing_near_the_top() {
    assert_eq!(project_root("/"), None);
    assert_eq!(project_root("/src-tauri"), None);
    assert_eq!(project_root("src-tauri"), None);
    assert_eq!(project_root("."), None);
    assert_eq!(project_root(""), None);
}

#[test]
fn backend_lies_beside_the_shell() {
    assert_eq!(
        backend_dir("/home/me/lifeos/apps/desktop/src-tauri"),
        Some("/home/me/lifeos/apps/backend".to_string())
    );
    assert_eq!(backend_dir("a/b"), Some("backend".to_string()));
}

#[test]
fn backend_is_missing_without_a_root() {
    assert_eq!(backend_dir("."), None);
    assert_eq!(backend_dir("/"), None);
    assert_eq!(backend_dir_under(None), None);
}

#[test]
fn backend_is_placed_under_a_given_root() {
    assert_eq!(
        backend_dir_under(Some("/opt/lifeos".to_string())),
        Some("/opt/lifeos/backend".to_string())
    );
}

#[test]
fn development_finds_the_backend_from_the_build_directory() {
    let config = StartConfig::development(Some(
        "/home/me/lifeos/apps/desktop/src-tauri".to_string(),
    ));
    assert_eq!(
        config,
        Some(StartConfig::development_in(
            "/home/me/lifeos/apps/backend".to_string()
        ))
    );
}

#[test]
fn development_without_a_build_directory_finds_nothing() {
    assert_eq!(StartConfig::development(None), None);
    assert_eq!(StartConfig::development(Some("/".to_string())), None);
}

#[test]
fn debug_builds_run_in_development() {
    assert_eq!(Mode::for_build(true), Mode::Development);
    assert_eq!(Mode::for_build(false), Mode::Production);
}

#[test]
fn production_needs_no_build_directory() {
    assert_eq!(
        StartConfig::for_mode(Mode::Production, None),
        Some(StartConfig::production())
    );
    assert_eq!(
        StartConfig::for_mode(Mode::Production, Some("/".to_string())),
        Some(StartConfig::production())
    );
}

#[test]
fn development_mode_looks_for_the_backend() {
    assert_eq!(
        StartConfig::for_mode(Mode::Development, Some("/work/apps/desktop/src-tauri".to_string())),
        Some(StartConfig::development_in("/work/apps/backend".to_string()))
    );
    assert_eq!(StartConfig::for_mode(Mode::Development, None), None);
}
