use yep_anywhere_desktop::config::AppConfig;
use yep_anywhere_desktop::server::{
    bun_path, get_desktop_token, get_server_port, get_server_status, launch_plan, plan_port,
    plan_start, record_started, resolve_port, server_entry, start_server, stop_server, ChildPoll,
    LaunchFacts, PortPlan, RunMode, ServerError, ServerState, ServerStatus,
};
use yep_anywhere_desktop::terminator::{
    setup_child_process, terminate_tree, KillAction, Platform,
};

fn dev_facts() -> LaunchFacts {
    LaunchFacts {
        platform: Platform::Unix,
        data_dir: "/home/u/.yep-anywhere-desktop".to_string(),
        dev_dir: Some("/src/yep".to_string()),
        shell: Some("/bin/bash".to_string()),
        exe_dir: None,
        runtime_exists: false,
        entry_exists: false,
    }
}

fn prod_facts() -> LaunchFacts {
    LaunchFacts {
        platform: Platform::Unix,
        data_dir: "/home/u/.yep-anywhere-desktop".to_string(),
        dev_dir: None,
        shell: None,
        exe_dir: Some("/opt/app".to_string()),
        runtime_exists: true,
        entry_exists: true,
    }
}

fn config_with_port(port: Option<u16>) -> AppConfig {
    let mut cfg = AppConfig::default();
    cfg.port = port;
    cfg
}

fn env_pairs(plan: &yep_anywhere_desktop::server::LaunchPlan) -> Vec<(String, String)> {
    plan.env.iter().map(|v| (v.name.clone(), v.value.clone())).collect()
}

fn pair(a: &str, b: &str) -> (String, String) {
    (a.to_string(), b.to_string())
}

#[test]
fn full_cycle_without_fixed_port() {
    let mut state = ServerState::new();
    let cfg = config_with_port(None);
    assert_eq!(plan_port(&cfg), PortPlan::Ephemeral);
    let plan = start_server(&state, &cfg, Some(49152), &dev_facts()).unwrap();
    assert!(record_started(&mut state, 4242, plan.token.clone(), plan.port).is_ok());
    let port = get_server_port(&state).unwrap();
    assert!(port >= 1);
    assert_eq!(port, 49152);
    assert_eq!(get_desktop_token(&state), Some(plan.token.clone()));
    assert_eq!(get_server_status(&mut state, ChildPoll::Alive), Ok(ServerStatus::Running));
    assert_eq!(stop_server(&mut state), Some(4242));
    assert_eq!(get_server_port(&state), None);
    assert_eq!(get_desktop_token(&state), None);
    assert_eq!(get_server_status(&mut state, ChildPoll::Alive), Ok(ServerStatus::Stopped));
}

#[test]
fn start_while_running_is_refused_and_changes_nothing() {
    let mut state = ServerState::new();
    record_started(&mut state, 7, "a".repeat(64), 3000).unwrap();
    let cfg = config_with_port(Some(4000));
    let r = start_server(&state, &cfg, None, &prod_facts());
    assert_eq!(r.err(), Some(ServerError::AlreadyRunning));
    let again = record_started(&mut state, 8, "b".repeat(64), 4000);
    assert_eq!(again, Err(ServerError::AlreadyRunning));
    assert_eq!(state.child_pid(), Some(7));
    assert_eq!(get_desktop_token(&state), Some("a".repeat(64)));
    assert_eq!(get_server_port(&state), Some(3000));
}

#[test]
fn stop_when_not_running_has_nothing_to_kill() {
    let mut state = ServerState::new();
    assert_eq!(stop_server(&mut state), None);
    assert_eq!(stop_server(&mut state), None);
    assert!(!state.is_running());
    assert_eq!(get_server_port(&state), None);
}

#[test]
fn exit_seen_by_status_clears_the_state() {
    let mut state = ServerState::new();
    record_started(&mut state, 99, "c".repeat(64), 5000).unwrap();
    assert_eq!(get_server_status(&mut state, ChildPoll::Exited), Ok(ServerStatus::Stopped));
    assert_eq!(state.child_pid(), None);
    assert_eq!(get_desktop_token(&state), None);
    assert_eq!(get_server_port(&state), None);
    assert_eq!(get_server_status(&mut state, ChildPoll::Exited), Ok(ServerStatus::Stopped));
    assert_eq!(get_server_status(&mut state, ChildPoll::Failed), Ok(ServerStatus::Stopped));
    assert_eq!(stop_server(&mut state), None);
}

#[test]
fn failed_poll_is_reported_and_keeps_the_child() {
    let mut state = ServerState::new();
    record_started(&mut state, 5, "d".repeat(64), 5001).unwrap();
    assert_eq!(get_server_status(&mut state, ChildPoll::Failed), Err(ServerError::PollFailed));
    assert_eq!(state.child_pid(), Some(5));
    assert_eq!(get_server_port(&state), Some(5001));
}

#[test]
fn fixed_port_is_used_exactly() {
    let state = ServerState::new();
    let cfg = config_with_port(Some(8080));
    assert_eq!(plan_port(&cfg), PortPlan::Fixed(8080));
    let plan = start_server(&state, &cfg, Some(1234), &prod_facts()).unwrap();
    assert_eq!(plan.port, 8080);
    assert!(env_pairs(&plan).contains(&pair("PORT", "8080")));
    assert_eq!(resolve_port(Some(8080), None), Ok(8080));
    assert_eq!(resolve_port(None, Some(1234)), Ok(1234));
    assert_eq!(resolve_port(None, None), Err(ServerError::PortBindFailed));
}

#[test]
fn start_without_any_port_fails() {
    let state = ServerState::new();
    let cfg = config_with_port(None);
    let r = start_server(&state, &cfg, None, &prod_facts());
    assert_eq!(r.err(), Some(ServerError::PortBindFailed));
}

#[test]
fn development_plan_is_exact() {
    let plan = launch_plan(&dev_facts(), 3400, "tok".to_string()).unwrap();
    assert_eq!(plan.mode, RunMode::Development);
    assert_eq!(plan.program, "/bin/bash");
    assert_eq!(plan.args, vec!["--login".to_string(), "-c".to_string(), "exec pnpm dev".to_string()]);
    assert_eq!(plan.cwd, Some("/src/yep".to_string()));
    assert_eq!(
        env_pairs(&plan),
        vec![
            pair("PORT", "3400"),
            pair("YEP_ANYWHERE_DATA_DIR", "/home/u/.yep-anywhere-desktop"),
            pair("DESKTOP_AUTH_TOKEN", "tok"),
        ]
    );
    assert!(plan.setup.kill_on_drop);
    assert!(plan.setup.new_process_group);
    assert_eq!(plan.token, "tok");
    assert_eq!(plan.port, 3400);
}

#[test]
fn development_plan_falls_back_to_zsh() {
    let mut facts = dev_facts();
    facts.shell = None;
    let plan = launch_plan(&facts, 1, "t".to_string()).unwrap();
    assert_eq!(plan.program, "/bin/zsh");
}

#[test]
fn production_plan_is_exact() {
    let plan = launch_plan(&prod_facts(), 65535, "tok".to_string()).unwrap();
    assert_eq!(plan.mode, RunMode::Production);
    assert_eq!(plan.program, "/opt/app/bun");
    assert_eq!(
        plan.args,
        vec![
            "run".to_string(),
            "/home/u/.yep-anywhere-desktop/node_modules/yepanywhere/dist/index.js".to_string()
        ]
    );
    assert_eq!(plan.cwd, None);
    assert_eq!(
        env_pairs(&plan),
        vec![
            pair("NODE_ENV", "production"),
            pair("PORT", "65535"),
            pair("YEP_ANYWHERE_DATA_DIR", "/home/u/.yep-anywhere-desktop"),
            pair("DESKTOP_AUTH_TOKEN", "tok"),
        ]
    );
}

#[test]
fn production_plan_needs_runtime_and_entry() {
    let mut facts = prod_facts();
    facts.runtime_exists = false;
    assert_eq!(launch_plan(&facts, 1, String::new()).err(), Some(ServerError::RuntimeNotFound));
    facts.runtime_exists = true;
    facts.entry_exists = false;
    assert_eq!(launch_plan(&facts, 1, String::new()).err(), Some(ServerError::EntryNotFound));
    facts.exe_dir = None;
    assert_eq!(
        launch_plan(&facts, 1, String::new()).err(),
        Some(ServerError::ExecutableUnresolved)
    );
}

#[test]
fn plan_start_checks_in_order() {
    let mut state = ServerState::new();
    let mut facts = prod_facts();
    facts.entry_exists = false;
    let cfg = config_with_port(None);
    let r = plan_start(&state, &cfg, None, &facts, "t".to_string());
    assert_eq!(r.err(), Some(ServerError::PortBindFailed));
    let r = plan_start(&state, &cfg, Some(9), &facts, "t".to_string());
    assert_eq!(r.err(), Some(ServerError::EntryNotFound));
    record_started(&mut state, 1, "t".to_string(), 9).unwrap();
    let r = plan_start(&state, &cfg, None, &facts, "t".to_string());
    assert_eq!(r.err(), Some(ServerError::AlreadyRunning));
}

#[test]
fn windows_plan_uses_exe_and_no_process_group() {
    let mut facts = prod_facts();
    facts.platform = Platform::Windows;
    let plan = launch_plan(&facts, 80, "t".to_string()).unwrap();
    assert_eq!(plan.program, "/opt/app/bun.exe");
    assert!(plan.setup.kill_on_drop);
    assert!(!plan.setup.new_process_group);
    assert_eq!(bun_path("C:/app", Platform::Windows), "C:/app/bun.exe");
    assert_eq!(bun_path("/a/", Platform::Unix), "/a/bun");
}

#[test]
fn server_entry_path() {
    assert_eq!(server_entry("/d"), "/d/node_modules/yepanywhere/dist/index.js");
}

#[test]
fn kill_sync_signals_the_group_on_unix() {
    let mut state = ServerState::new();
    record_started(&mut state, 4321, "t".to_string(), 80).unwrap();
    assert_eq!(state.kill_sync(Platform::Unix), KillAction::SignalGroup { target: -4321 });
    assert!(!state.is_running());
    assert_eq!(get_server_port(&state), None);
    assert_eq!(get_desktop_token(&state), None);
    assert_eq!(state.kill_sync(Platform::Unix), KillAction::Nothing);
}

#[test]
fn kill_sync_kills_the_child_elsewhere() {
    let mut state = ServerState::new();
    record_started(&mut state, 4321, "t".to_string(), 80).unwrap();
    assert_eq!(state.kill_sync(Platform::Windows), KillAction::KillChild);
    assert!(!state.is_running());
    assert_eq!(state.kill_sync(Platform::Windows), KillAction::Nothing);
}

#[test]
fn terminate_tree_edges() {
    assert_eq!(terminate_tree(Platform::Unix, 1), KillAction::SignalGroup { target: -1 });
    assert_eq!(
        terminate_tree(Platform::Unix, 2147483647),
        KillAction::SignalGroup { target: -2147483647 }
    );
    assert_eq!(terminate_tree(Platform::Unix, 0), KillAction::Nothing);
    assert_eq!(terminate_tree(Platform::Unix, 2147483648), KillAction::Nothing);
    assert_eq!(terminate_tree(Platform::Windows, 0), KillAction::KillChild);
    assert!(setup_child_process(Platform::Unix).new_process_group);
    assert!(!setup_child_process(Platform::Windows).new_process_group);
    assert!(setup_child_process(Platform::Windows).kill_on_drop);
}

#[test]
fn status_and_error_texts() {
    assert_eq!(ServerStatus::Running.label(), "running");
    assert_eq!(ServerStatus::Stopped.label(), "stopped");
    assert_eq!(ServerError::AlreadyRunning.message(), "Server is already running");
    assert_eq!(
        ServerError::EntryNotFound.message(),
        "Yep Anywhere server not found. Run setup first."
    );
    assert_eq!(ServerError::PortBindFailed.message(), "Failed to find free port");
    assert_eq!(ServerError::ExecutableUnresolved.message(), "Could not resolve executable");
    assert_eq!(ServerError::RuntimeNotFound.message(), "Bun sidecar not found");
    assert_eq!(ServerError::SpawnFailed.message(), "Failed to start server");
    assert_eq!(ServerError::KillFailed.message(), "Failed to stop server");
    assert_eq!(ServerError::PollFailed.message(), "Failed to poll server");
    assert_eq!(ServerError::LockPoisoned.message(), "poisoned lock: another task failed inside");
}
