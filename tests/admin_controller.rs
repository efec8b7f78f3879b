use suibase_daemon::config::{Link, WorkdirProxyConfig};
use suibase_daemon::controller::{
    apply_config, next_loop_action, resolve_config_msg, ApplyOutcome, LoopAction, MsgRejection,
};
use suibase_daemon::message::{AdminControllerMsg, EVENT_NOTIF_CONFIG_FILE_CHANGE};
use suibase_daemon::registry::{GlobalPortRegistry, InputPort, InsertError};
use suibase_daemon::workdirs::Workdirs;

const HOME: &str = "/home/user/suibase";

fn link(alias: &str, rpc: Option<&str>, ws: Option<&str>) -> Link {
    Link {
        alias: alias.to_string(),
        rpc: rpc.map(|s| s.to_string()),
        ws: ws.map(|s| s.to_string()),
    }
}

fn localnet_default_config() -> WorkdirProxyConfig {
    let mut config = WorkdirProxyConfig::new();
    config.insert_link(link(
        "localnet",
        Some("http://0.0.0.0:9000"),
        Some("ws://0.0.0.0:9000"),
    ));
    config
}

fn change_msg(path: &str) -> AdminControllerMsg {
    AdminControllerMsg::notif_config_file_change(path.to_string())
}

fn default_path(name: &str) -> String {
    format!("{}/scripts/defaults/{}/suibase.yaml", HOME, name)
}

#[test]
fn test_load_config_from_suibase_default() {
    // Test a known "standard" localnet suibase.yaml
    let workdirs = Workdirs::new(HOME);
    let mut path = std::path::PathBuf::from(workdirs.suibase_home());
    path.push("scripts");
    path.push("defaults");
    path.push("localnet");
    path.push("suibase.yaml");

    let workdir_search_result = workdirs.find_workdir(&path.to_string_lossy().to_string());
    assert!(workdir_search_result.is_some());
    let (_workdir_idx, workdir) = workdir_search_result.unwrap();
    assert_eq!(workdir.suibase_yaml_default, path.to_string_lossy().to_string());

    // What the loader yields for the default localnet suibase.yaml:
    // - alias: "localnet"
    //   rpc: "http://0.0.0.0:9000"
    //   ws: "ws://0.0.0.0:9000"
    let config = localnet_default_config();
    assert_eq!(config.links_overrides(), false);
    assert_eq!(config.links.len(), 1);
    assert!(config.contains_key("localnet"));
    assert!(config.get("localnet").unwrap().rpc.is_some());
    assert!(config.get("localnet").unwrap().ws.is_some());
    let link = config.get("localnet").unwrap();
    assert_eq!(link.rpc.as_ref().unwrap(), "http://0.0.0.0:9000");
    assert_eq!(link.ws.as_ref().unwrap(), "ws://0.0.0.0:9000");
}

#[test]
fn msg_new_is_empty() {
    let msg = AdminControllerMsg::new();
    assert_eq!(msg.event_id, 0);
    assert_eq!(msg.workdir_idx, None);
    assert_eq!(msg.data_string(), None);
}

#[test]
fn msg_config_change_carries_path() {
    let msg = change_msg("/a/b.yaml");
    assert_eq!(msg.event_id, EVENT_NOTIF_CONFIG_FILE_CHANGE);
    assert_eq!(msg.data_string(), Some("/a/b.yaml".to_string()));
}

#[test]
fn workdir_paths_and_ports() {
    let workdirs = Workdirs::new(HOME);
    assert_eq!(workdirs.workdirs.len(), 4);
    assert_eq!(workdirs.workdirs[0].name, "localnet");
    assert_eq!(workdirs.workdirs[3].name, "mainnet");
    assert_eq!(
        workdirs.workdirs[2].suibase_yaml_user,
        "/home/user/suibase/workdirs/testnet/suibase.yaml"
    );
    assert_eq!(workdirs.default_proxy_port(0), 44340);
    assert_eq!(workdirs.default_proxy_port(1), 44341);
    assert_eq!(workdirs.default_proxy_port(2), 44342);
    assert_eq!(workdirs.default_proxy_port(3), 44343);
}

#[test]
fn find_workdir_by_user_path() {
    let workdirs = Workdirs::new(HOME);
    let (idx, w) = workdirs
        .find_workdir("/home/user/suibase/workdirs/devnet/suibase.yaml")
        .unwrap();
    assert_eq!(idx, 1);
    assert_eq!(w.name, "devnet");
    assert!(workdirs.find_workdir("/home/user/suibase/workdirs/devnet").is_none());
}

#[test]
fn resolve_rejects_unknown_kind() {
    let workdirs = Workdirs::new(HOME);
    let mut msg = change_msg(&default_path("localnet"));
    msg.event_id = 7;
    assert_eq!(
        resolve_config_msg(&workdirs, &msg),
        Err(MsgRejection::UnknownEvent(7))
    );
    assert_eq!(
        resolve_config_msg(&workdirs, &AdminControllerMsg::new()),
        Err(MsgRejection::UnknownEvent(0))
    );
}

#[test]
fn resolve_rejects_missing_path() {
    let workdirs = Workdirs::new(HOME);
    let mut msg = AdminControllerMsg::new();
    msg.event_id = EVENT_NOTIF_CONFIG_FILE_CHANGE;
    assert_eq!(
        resolve_config_msg(&workdirs, &msg),
        Err(MsgRejection::MissingPath)
    );
}

#[test]
fn resolve_rejects_unknown_path() {
    let workdirs = Workdirs::new(HOME);
    let msg = change_msg("/elsewhere/suibase.yaml");
    assert_eq!(
        resolve_config_msg(&workdirs, &msg),
        Err(MsgRejection::WorkdirNotFound)
    );
}

#[test]
fn resolve_finds_workdir() {
    let workdirs = Workdirs::new(HOME);
    assert_eq!(
        resolve_config_msg(&workdirs, &change_msg(&default_path("testnet"))),
        Ok(2)
    );
}

#[test]
fn localnet_event_end_to_end() {
    let workdirs = Workdirs::new(HOME);
    let mut registry = GlobalPortRegistry::new(8);
    let msg = change_msg(&default_path("localnet"));
    let idx = resolve_config_msg(&workdirs, &msg).unwrap();
    assert_eq!(idx, 0);
    let config = localnet_default_config();
    let outcome = apply_config(&mut registry, &workdirs, idx, &config);
    assert_eq!(outcome, ApplyOutcome::Spawn(0));
    assert_eq!(registry.len(), 1);
    let port = registry.get(0).unwrap();
    assert_eq!(port.workdir_idx(), 0);
    assert_eq!(port.workdir_name, "localnet");
    assert_eq!(port.port_number(), 44340);
    assert_eq!(port.target_servers.len(), 1);
    assert_eq!(port.target_servers[0].alias, "localnet");
    assert_eq!(port.target_servers[0].rpc, "http://0.0.0.0:9000");
    assert_eq!(
        port.target_servers[0].ws,
        Some("ws://0.0.0.0:9000".to_string())
    );
    assert_eq!(registry.find_by_workdir(0), Some(0));
    assert!(registry.get(1).is_none());
}

#[test]
fn links_without_rpc_are_skipped() {
    let workdirs = Workdirs::new(HOME);
    let mut registry = GlobalPortRegistry::new(8);
    let mut config = WorkdirProxyConfig::new();
    config.insert_link(link("a", Some("http://a:1"), None));
    config.insert_link(link("b", None, Some("ws://b:1")));
    config.insert_link(link("c", Some(""), None));
    config.insert_link(link("d", Some("http://d:1"), Some("ws://d:1")));
    assert_eq!(
        apply_config(&mut registry, &workdirs, 1, &config),
        ApplyOutcome::Spawn(0)
    );
    let port = registry.get(0).unwrap();
    let aliases: Vec<&str> = port
        .target_servers
        .iter()
        .map(|t| t.alias.as_str())
        .collect();
    assert_eq!(aliases, vec!["a", "d"]);
    assert_eq!(port.port_number(), 44341);
}

#[test]
fn port_override_is_used() {
    let workdirs = Workdirs::new(HOME);
    let mut registry = GlobalPortRegistry::new(8);
    let mut config = localnet_default_config();
    config.proxy_port_number = Some(45000);
    apply_config(&mut registry, &workdirs, 3, &config);
    assert_eq!(registry.get(0).unwrap().port_number(), 45000);
}

#[test]
fn replaying_event_adds_no_entry() {
    let workdirs = Workdirs::new(HOME);
    let mut registry = GlobalPortRegistry::new(8);
    let config = localnet_default_config();
    assert_eq!(
        apply_config(&mut registry, &workdirs, 0, &config),
        ApplyOutcome::Spawn(0)
    );
    assert_eq!(
        apply_config(&mut registry, &workdirs, 0, &config),
        ApplyOutcome::Reloaded(0)
    );
    assert_eq!(registry.len(), 1);
    assert_eq!(registry.get(0).unwrap().target_servers.len(), 1);
}

#[test]
fn reload_updates_entry_in_place() {
    let workdirs = Workdirs::new(HOME);
    let mut registry = GlobalPortRegistry::new(8);
    apply_config(&mut registry, &workdirs, 2, &localnet_default_config());
    apply_config(&mut registry, &workdirs, 0, &localnet_default_config());
    let mut config = WorkdirProxyConfig::new();
    config.proxy_port_number = Some(50000);
    config.insert_link(link("x", Some("http://x:1"), None));
    config.insert_link(link("y", Some("http://y:1"), None));
    assert_eq!(
        apply_config(&mut registry, &workdirs, 2, &config),
        ApplyOutcome::Reloaded(0)
    );
    assert_eq!(registry.len(), 2);
    let port = registry.get(0).unwrap();
    assert_eq!(port.workdir_idx(), 2);
    assert_eq!(port.port_number(), 50000);
    assert_eq!(port.target_servers.len(), 2);
    assert_eq!(registry.get(1).unwrap().workdir_idx(), 0);
}

#[test]
fn two_events_take_consecutive_slots() {
    let workdirs = Workdirs::new(HOME);
    let mut registry = GlobalPortRegistry::new(8);
    let config = localnet_default_config();
    let a = resolve_config_msg(&workdirs, &change_msg(&default_path("devnet"))).unwrap();
    let b = resolve_config_msg(&workdirs, &change_msg(&default_path("localnet"))).unwrap();
    assert_eq!(
        apply_config(&mut registry, &workdirs, a, &config),
        ApplyOutcome::Spawn(0)
    );
    assert_eq!(
        apply_config(&mut registry, &workdirs, b, &config),
        ApplyOutcome::Spawn(1)
    );
    assert_eq!(registry.get(0).unwrap().workdir_name, "devnet");
    assert_eq!(registry.get(1).unwrap().workdir_name, "localnet");
}

#[test]
fn port_conflict_is_refused() {
    let workdirs = Workdirs::new(HOME);
    let mut registry = GlobalPortRegistry::new(8);
    apply_config(&mut registry, &workdirs, 0, &localnet_default_config());
    let mut config = localnet_default_config();
    config.proxy_port_number = Some(44340);
    assert_eq!(
        apply_config(&mut registry, &workdirs, 1, &config),
        ApplyOutcome::Rejected(InsertError::PortInUse)
    );
    assert_eq!(registry.len(), 1);
}

#[test]
fn reload_onto_taken_port_is_refused() {
    let workdirs = Workdirs::new(HOME);
    let mut registry = GlobalPortRegistry::new(8);
    apply_config(&mut registry, &workdirs, 0, &localnet_default_config());
    apply_config(&mut registry, &workdirs, 1, &localnet_default_config());
    let mut config = localnet_default_config();
    config.proxy_port_number = Some(44340);
    assert_eq!(
        apply_config(&mut registry, &workdirs, 1, &config),
        ApplyOutcome::Rejected(InsertError::PortInUse)
    );
    assert_eq!(registry.get(1).unwrap().port_number(), 44341);
}

#[test]
fn full_registry_is_refused() {
    let workdirs = Workdirs::new(HOME);
    let mut registry = GlobalPortRegistry::new(1);
    apply_config(&mut registry, &workdirs, 0, &localnet_default_config());
    assert_eq!(
        apply_config(&mut registry, &workdirs, 1, &localnet_default_config()),
        ApplyOutcome::Rejected(InsertError::Full)
    );
    assert_eq!(registry.len(), 1);
    assert_eq!(registry.capacity(), 1);
}

#[test]
fn registry_insert_refuses_same_workdir() {
    let mut registry = GlobalPortRegistry::new(4);
    assert_eq!(
        registry.insert(InputPort::new(0, "localnet".to_string(), 1)),
        Ok(0)
    );
    assert_eq!(
        registry.insert(InputPort::new(0, "localnet".to_string(), 2)),
        Err(InsertError::WorkdirTaken)
    );
    assert_eq!(
        registry.replace(0, InputPort::new(0, "localnet".to_string(), 3)),
        Ok(())
    );
    assert_eq!(registry.get(0).unwrap().port_number(), 3);
}

#[test]
fn loop_exits_on_shutdown_or_closed_channel() {
    assert_eq!(next_loop_action(false, true), LoopAction::Process);
    assert_eq!(next_loop_action(true, true), LoopAction::Exit);
    assert_eq!(next_loop_action(true, false), LoopAction::Exit);
    assert_eq!(next_loop_action(false, false), LoopAction::Exit);
}

#[test]
fn priming_sends_one_event_per_started_workdir() {
    let mut workdirs = Workdirs::new(HOME);
    assert!(workdirs.priming_msgs().is_empty());
    workdirs.set_user_request_start(2, true);
    workdirs.set_user_request_start(0, true);
    let msgs = workdirs.priming_msgs();
    assert_eq!(msgs.len(), 2);
    assert_eq!(msgs[0].data_string(), Some(default_path("localnet")));
    assert_eq!(msgs[1].data_string(), Some(default_path("testnet")));
    assert_eq!(msgs[1].event_id, EVENT_NOTIF_CONFIG_FILE_CHANGE);
}

#[test]
fn config_insert_replaces_same_alias() {
    let mut config = localnet_default_config();
    config.insert_link(link("localnet", Some("http://1.2.3.4:9000"), None));
    config.insert_link(link("other", None, None));
    assert_eq!(config.links_len(), 2);
    assert_eq!(
        config.get("localnet").unwrap().rpc,
        Some("http://1.2.3.4:9000".to_string())
    );
    assert!(config.get("localnet").unwrap().ws.is_none());
    assert!(!config.contains_key("missing"));
    config.set_links_overrides(true);
    assert!(config.links_overrides());
}
