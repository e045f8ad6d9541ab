use server_blueprint::config::{launch_plan, ServerConfig, ServerRuntime, SupportedTransportAdapter};
use server_blueprint::manager::{endpoint_for_port, AccountId, ServerManager};
use server_blueprint::{Error, IoErrorKind};
use tokio_util::sync::CancellationToken;

fn config(runtime: ServerRuntime, package: &str) -> ServerConfig {
    ServerConfig {
        runtime,
        package: package.to_string(),
        args: None,
        env: None,
        transport_adapter: SupportedTransportAdapter::BridgeStdioToStream,
    }
}

fn owner(b: u8) -> AccountId {
    AccountId { bytes: [b; 32] }
}

#[test]
fn stop_unknown_id_returns_false() {
    let mut m = ServerManager::new();
    assert!(!m.stop_server(99));
    assert_eq!(m.len(), 0);
}

#[test]
fn stop_never_started_ids_after_other_starts() {
    let mut m = ServerManager::new();
    let plan = launch_plan(config(ServerRuntime::Python, "echo-mcp@1.0"), 4000).unwrap();
    m.start_server(1, owner(1), plan, Ok(CancellationToken::new())).unwrap();
    for id in [0u64, 2, 3, 1000, u64::MAX] {
        assert!(!m.stop_server(id));
    }
    assert!(m.is_running(1));
}

#[test]
fn start_then_stop_leaves_no_residue() {
    let mut m = ServerManager::new();
    let token = CancellationToken::new();
    let plan = launch_plan(config(ServerRuntime::Javascript, "pkg@2.0"), 5123).unwrap();
    let endpoint = m.start_server(7, owner(7), plan, Ok(token.clone())).unwrap();
    assert_eq!(endpoint, "http://127.0.0.1:5123");
    assert_eq!(m.endpoint(7), Some("http://127.0.0.1:5123".to_string()));
    assert_eq!(m.owner(7).map(|o| o.bytes), Some([7u8; 32]));
    assert!(!token.is_cancelled());
    assert!(m.stop_server(7));
    assert!(token.is_cancelled());
    assert!(!m.is_running(7));
    assert_eq!(m.endpoint(7), None);
    assert!(m.owner(7).is_none());
    assert!(m.servers.is_empty() && m.owners.is_empty() && m.endpoints.is_empty());
}

#[test]
fn two_starts_have_distinct_endpoints() {
    let mut m = ServerManager::new();
    let p1 = launch_plan(config(ServerRuntime::Python, "a@1"), 40001).unwrap();
    let p2 = launch_plan(config(ServerRuntime::Docker, "demo:latest"), 40002).unwrap();
    let e1 = m.start_server(1, owner(1), p1, Ok(CancellationToken::new())).unwrap();
    let e2 = m.start_server(2, owner(2), p2, Ok(CancellationToken::new())).unwrap();
    assert_ne!(e1, e2);
    assert_eq!(m.endpoint(1), Some(e1));
    assert_eq!(m.endpoint(2), Some(e2));
    assert_eq!(m.len(), 2);
}

#[test]
fn unknown_runtime_is_refused() {
    let r = launch_plan(config(ServerRuntime::Unknown, "x"), 3000);
    assert!(matches!(r, Err(Error::UnknownRuntime)));
    let m = ServerManager::new();
    assert_eq!(m.len(), 0);
}

#[test]
fn failed_backend_inserts_nothing() {
    let mut m = ServerManager::new();
    let plan = launch_plan(config(ServerRuntime::Python, "x@1"), 3000).unwrap();
    let r = m.start_server(5, owner(5), plan, Err(Error::Io(IoErrorKind::Other, "spawn failed".to_string())));
    assert!(matches!(r, Err(Error::Io(IoErrorKind::Other, ref s)) if s == "spawn failed"));
    assert!(!m.is_running(5));
    assert_eq!(m.endpoint(5), None);
    assert_eq!(m.len(), 0);
}

#[test]
fn restart_overwrites_record_without_stopping() {
    let mut m = ServerManager::new();
    let first = CancellationToken::new();
    let p1 = launch_plan(config(ServerRuntime::Python, "first@1"), 3001).unwrap();
    let p2 = launch_plan(config(ServerRuntime::Python, "second@1"), 3002).unwrap();
    m.start_server(3, owner(1), p1, Ok(first.clone())).unwrap();
    let e2 = m.start_server(3, owner(2), p2, Ok(CancellationToken::new())).unwrap();
    assert_eq!(e2, "http://127.0.0.1:3002");
    assert_eq!(m.len(), 1);
    assert_eq!(m.servers[&3].package, "second@1");
    assert_eq!(m.owner(3).map(|o| o.bytes), Some([2u8; 32]));
    assert!(!first.is_cancelled());
}

#[test]
fn launch_plan_materializes_lists_and_port() {
    let mut c = config(ServerRuntime::Python, "echo-mcp@1.0");
    c.args = Some(vec!["--verbose".to_string()]);
    c.env = Some(vec![
        ("A".to_string(), "1".to_string()),
        ("PORT".to_string(), "1".to_string()),
        ("A".to_string(), "2".to_string()),
    ]);
    let p = launch_plan(c, 8080).unwrap();
    assert_eq!(p.args, vec!["--verbose".to_string()]);
    assert_eq!(p.port, 8080);
    assert_eq!(p.env_vars.get(&"A".to_string()), Some(&"2".to_string()));
    assert_eq!(p.env_vars.get(&"PORT".to_string()), Some(&"8080".to_string()));
    assert_eq!(p.env_vars.len(), 2);
    let empty = launch_plan(config(ServerRuntime::Docker, "img"), 1).unwrap();
    assert!(empty.args.is_empty());
    assert_eq!(empty.env_vars.len(), 1);
}

#[test]
fn endpoint_format() {
    assert_eq!(endpoint_for_port(0), "http://127.0.0.1:0");
    assert_eq!(endpoint_for_port(65535), "http://127.0.0.1:65535");
}

#[test]
fn runtime_tags() {
    assert_eq!(ServerRuntime::from_tag("python"), ServerRuntime::Python);
    assert_eq!(ServerRuntime::from_tag("javascript"), ServerRuntime::Javascript);
    assert_eq!(ServerRuntime::from_tag("docker"), ServerRuntime::Docker);
    assert_eq!(ServerRuntime::from_tag("Docker"), ServerRuntime::Unknown);
    assert_eq!(ServerRuntime::from_tag(""), ServerRuntime::Unknown);
    assert_eq!(ServerRuntime::default(), ServerRuntime::Unknown);
}

#[test]
fn unknown_runtime_leaves_running_services_alone() {
    let mut m = ServerManager::new();
    let plan = launch_plan(config(ServerRuntime::Docker, "demo:latest"), 4100).unwrap();
    m.start_server(1, owner(1), plan, Ok(CancellationToken::new())).unwrap();
    let refused = launch_plan(config(ServerRuntime::Unknown, "demo:latest"), 4101);
    assert!(matches!(refused, Err(Error::UnknownRuntime)));
    assert_eq!(m.len(), 1);
    assert_eq!(m.endpoint(1), Some("http://127.0.0.1:4100".to_string()));
}
