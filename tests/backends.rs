use server_blueprint::config::{launch_plan, ServerConfig, ServerRuntime, SupportedTransportAdapter};
use server_blueprint::decimal::{decimal_string, parse_u16};
use server_blueprint::docker::{ImageAction, ImageEvent, ImageState, STOP_GRACE_SECONDS};
use server_blueprint::manager::{AccountId, ServerManager};
use server_blueprint::ports::{exposed_ports, port_of_spec};
use server_blueprint::teardown::{Teardown, TeardownAction, TeardownStep};
use server_blueprint::tooling::{
    install_step_outcome, tooling_start, tooling_step, ToolingAction, ToolingEvent, ToolingState,
};
use server_blueprint::{DockerRunner, EnvVars, Error, IoErrorKind, JsRunner, PythonRunner};
use tokio_util::sync::CancellationToken;

fn strings(v: &[&str]) -> Vec<String> {
    v.iter().map(|s| s.to_string()).collect()
}

fn docker_config(image: &str) -> ServerConfig {
    ServerConfig {
        runtime: ServerRuntime::Docker,
        package: image.to_string(),
        args: None,
        env: None,
        transport_adapter: SupportedTransportAdapter::Direct,
    }
}

#[test]
fn python_missing_tool_is_installed_then_launched() {
    let missing = "uv is not installed and could not be installed";
    let (s, a) = tooling_start();
    assert_eq!(s, ToolingState::Checking);
    assert!(matches!(a, ToolingAction::RunCheck));
    let (s, a) = tooling_step(s, ToolingEvent::Checked(Ok(false)), missing);
    assert_eq!(s, ToolingState::Installing);
    assert!(matches!(a, ToolingAction::RunInstall));
    let (s, a) = tooling_step(s, ToolingEvent::Installed(Ok(())), missing);
    assert_eq!(s, ToolingState::Rechecking);
    assert!(matches!(a, ToolingAction::RunCheck));
    let (s, a) = tooling_step(s, ToolingEvent::Checked(Ok(true)), missing);
    assert_eq!(s, ToolingState::Ready);
    assert!(matches!(a, ToolingAction::Proceed));

    let config = ServerConfig {
        runtime: ServerRuntime::Python,
        package: "echo-mcp@1.0".to_string(),
        args: None,
        env: None,
        transport_adapter: SupportedTransportAdapter::BridgeStdioToStream,
    };
    let plan = launch_plan(config, 43210).unwrap();
    assert_eq!(plan.env_vars.get(&"PORT".to_string()), Some(&"43210".to_string()));
    let argv = PythonRunner.launch_command(&plan.package, &plan.args);
    assert_eq!(argv, strings(&["uvx", "run", "echo-mcp@1.0", "--"]));
    let mut m = ServerManager::new();
    let e = m
        .start_server(7, AccountId { bytes: [0; 32] }, plan, Ok(CancellationToken::new()))
        .unwrap();
    assert_eq!(e, "http://127.0.0.1:43210");
}

#[test]
fn tooling_fails_after_one_install() {
    let missing = "bun is not installed and could not be installed";
    let (s, _) = tooling_step(ToolingState::Checking, ToolingEvent::Checked(Err(Error::Io(IoErrorKind::Other, "x".into()))), missing);
    assert_eq!(s, ToolingState::Installing);
    let (s, _) = tooling_step(s, ToolingEvent::Installed(Ok(())), missing);
    let (s, a) = tooling_step(s, ToolingEvent::Checked(Ok(false)), missing);
    assert_eq!(s, ToolingState::Failed);
    assert!(matches!(a, ToolingAction::Fail(Error::Io(IoErrorKind::Other, ref m)) if m == missing));
    let (s, a) = tooling_step(ToolingState::Installing, ToolingEvent::Installed(Err(Error::Io(IoErrorKind::Other, "script".into()))), missing);
    assert_eq!(s, ToolingState::Failed);
    assert!(matches!(a, ToolingAction::Fail(Error::Io(IoErrorKind::Other, ref m)) if m == "script"));
    let (s, a) = tooling_step(ToolingState::Checking, ToolingEvent::Checked(Ok(true)), missing);
    assert_eq!(s, ToolingState::Ready);
    assert!(matches!(a, ToolingAction::Proceed));
}

#[test]
fn runner_commands() {
    assert_eq!(PythonRunner.check_command(), strings(&["uv", "--version"]));
    assert_eq!(JsRunner.check_command(), strings(&["bun", "--version"]));
    assert_eq!(DockerRunner.check_command(), strings(&["docker", "--version"]));
    assert_eq!(DockerRunner.os_command(), strings(&["uname", "-s"]));
    let argv = JsRunner.launch_command(&"tool@3".to_string(), &strings(&["a", "b"]));
    assert_eq!(argv, strings(&["bunx", "-y", "tool@3", "--", "a", "b"]));
    let py = PythonRunner.install_steps();
    assert_eq!(py.len(), 2);
    assert_eq!(py[1].argv, strings(&["uv", "python", "install"]));
    assert_eq!(JsRunner.install_steps().len(), 1);
    assert_eq!(PythonRunner.missing_tool_message(), "uv is not installed and could not be installed");
    assert_eq!(JsRunner.missing_tool_message(), "bun is not installed and could not be installed");
    assert_eq!(DockerRunner.missing_tool_message(), "Docker is not available and could not be installed");
}

#[test]
fn install_step_outcomes() {
    let steps = DockerRunner.install_steps("linux").unwrap();
    assert_eq!(steps.len(), 3);
    assert!(matches!(install_step_outcome(&steps[0], false), Err(Error::Io(IoErrorKind::Other, ref m)) if m == "Docker installation script failed on Linux"));
    assert!(install_step_outcome(&steps[0], true).is_ok());
    assert!(install_step_outcome(&steps[1], false).is_ok());
    let r = DockerRunner.install_steps("darwin");
    assert!(matches!(r, Err(Error::Io(IoErrorKind::Unsupported, ref m)) if m == "Docker installation only supported on Linux, detected platform: darwin"));
}

#[test]
fn os_name_is_trimmed_lower_case() {
    assert_eq!(DockerRunner.os_name(b"Linux\n"), "linux");
    assert_eq!(DockerRunner.os_name(b"  Darwin "), "darwin");
    assert_eq!(DockerRunner.os_name(b"\tFreeBSD\r\n"), "freebsd");
}

#[test]
fn present_image_is_not_pulled() {
    let (s, a) = DockerRunner.image_start();
    assert_eq!(s, ImageState::Listing);
    assert!(matches!(a, ImageAction::ListImages));
    let (s, a) = DockerRunner.image_step(s, ImageEvent::Listed(Ok(true)), "demo:latest");
    assert_eq!(s, ImageState::Available);
    assert!(matches!(a, ImageAction::Ready));
}

#[test]
fn absent_image_is_pulled_once() {
    let image = "demo:latest";
    let (s, a) = DockerRunner.image_step(ImageState::Listing, ImageEvent::Listed(Ok(false)), image);
    assert_eq!(s, ImageState::Pulling);
    assert!(matches!(a, ImageAction::PullImage));
    let (s, a) = DockerRunner.image_step(s, ImageEvent::PullProgress(None), image);
    assert_eq!(s, ImageState::Pulling);
    assert!(matches!(a, ImageAction::Wait));
    let (s, a) = DockerRunner.image_step(s, ImageEvent::PullFinished, image);
    assert_eq!(s, ImageState::Available);
    assert!(matches!(a, ImageAction::Ready));
}

#[test]
fn pull_errors_fail_at_once() {
    let image = "demo:latest";
    let (s, a) = DockerRunner.image_step(ImageState::Pulling, ImageEvent::PullProgress(Some("layer broke".into())), image);
    assert_eq!(s, ImageState::Failed);
    assert!(matches!(a, ImageAction::Fail(Error::Io(IoErrorKind::Other, ref m)) if m == "Failed to pull Docker image demo:latest: layer broke"));
    let (s, _) = DockerRunner.image_step(ImageState::Pulling, ImageEvent::PullStreamError("reset".into()), image);
    assert_eq!(s, ImageState::Failed);
    let (s, a) = DockerRunner.image_step(ImageState::Listing, ImageEvent::Listed(Err("down".into())), image);
    assert_eq!(s, ImageState::Failed);
    assert!(matches!(a, ImageAction::Fail(Error::Io(IoErrorKind::Other, ref m)) if m == "Failed to list Docker images: down"));
    let (s, _) = DockerRunner.image_step(ImageState::Failed, ImageEvent::PullFinished, image);
    assert_eq!(s, ImageState::Failed);
}

#[test]
fn container_binds_allocated_port_to_first_exposed() {
    let plan = launch_plan(docker_config("demo:latest"), 41000).unwrap();
    let ports = exposed_ports(&strings(&["8080/tcp", "3000/tcp", "3000/udp", "x/tcp"]));
    assert_eq!(ports, vec![3000, 8080]);
    let c = DockerRunner.container_spec(7, &plan, &ports).unwrap();
    assert_eq!(c.name, "server-7");
    assert_eq!(c.image, "demo:latest");
    assert_eq!(c.env, strings(&["PORT=3000"]));
    let b = c.port_binding.unwrap();
    assert_eq!(b.container_port, "3000/tcp");
    assert_eq!(b.host_ip, "127.0.0.1");
    assert_eq!(b.host_port, "41000");
    assert!(c.restart_on_failure);
    assert!(!c.attach);
    assert_eq!(c.bridge_port, None);
}

#[test]
fn container_without_exposed_ports_has_no_binding() {
    let mut config = docker_config("plain:1");
    config.env = Some(vec![("A".to_string(), "b".to_string())]);
    config.args = Some(strings(&["serve"]));
    config.transport_adapter = SupportedTransportAdapter::BridgeStdioToStream;
    let plan = launch_plan(config, 41001).unwrap();
    let c = DockerRunner.container_spec(12, &plan, &vec![]).unwrap();
    assert!(c.port_binding.is_none());
    assert_eq!(c.env, strings(&["A=b"]));
    assert_eq!(c.cmd, strings(&["serve"]));
    assert!(c.attach);
}

#[test]
fn bridged_container_keeps_binding() {
    let mut config = docker_config("demo:latest");
    config.transport_adapter = SupportedTransportAdapter::BridgeStdioToStream;
    let plan = launch_plan(config, 41002).unwrap();
    let c = DockerRunner.container_spec(8, &plan, &vec![9000, 9100]).unwrap();
    let b = c.port_binding.unwrap();
    assert_eq!(b.container_port, "9000/tcp");
    assert_eq!(b.host_port, "41002");
    assert_eq!(c.env, strings(&["PORT=9000"]));
    assert!(c.attach);
    assert_eq!(c.bridge_port, None);
}

#[test]
fn bridged_container_without_ports_is_served_on_allocated_port() {
    let mut config = docker_config("stdio:1");
    config.transport_adapter = SupportedTransportAdapter::BridgeStdioToStream;
    let plan = launch_plan(config, 41003).unwrap();
    let c = DockerRunner.container_spec(9, &plan, &vec![]).unwrap();
    assert!(c.port_binding.is_none());
    assert_eq!(c.bridge_port, Some(41003));
}

#[test]
fn os_detection_failure_message() {
    assert!(matches!(DockerRunner.os_detection_failure(), Error::Io(IoErrorKind::Other, ref m) if m == "Failed to detect operating system"));
}

#[test]
fn container_without_port_variable_is_refused() {
    let plan = launch_plan(docker_config("demo"), 1).unwrap();
    let mut bare = plan.clone();
    bare.env_vars = EnvVars::new();
    assert!(matches!(DockerRunner.container_spec(1, &bare, &vec![80]), Err(Error::MissingPortBinding)));
    let mut bad = plan;
    bad.env_vars.insert("PORT".to_string(), "70000".to_string());
    assert!(matches!(DockerRunner.allocated_port(&bad.env_vars), Err(Error::MissingPortBinding)));
}

#[test]
fn port_specs_and_numbers() {
    assert_eq!(port_of_spec("3000/tcp"), Some(3000));
    assert_eq!(port_of_spec("53/udp"), Some(53));
    assert_eq!(port_of_spec("65535"), Some(65535));
    assert_eq!(port_of_spec("65536/tcp"), None);
    assert_eq!(port_of_spec("/tcp"), None);
    assert_eq!(parse_u16("+80"), Some(80));
    assert_eq!(parse_u16("+"), None);
    assert_eq!(parse_u16("-1"), None);
    assert_eq!(parse_u16("0007"), Some(7));
    assert_eq!(parse_u16("99999999999"), None);
    assert_eq!(decimal_string(0), "0");
    assert_eq!(decimal_string(1234567890123), "1234567890123");
    assert!(exposed_ports(&vec![]).is_empty());
}

#[test]
fn container_teardown_stops_then_removes_whatever_fails() {
    let t = Teardown::Container("abc".to_string());
    let s = t.first_step();
    assert_eq!(s, TeardownStep::Stop);
    assert!(matches!(t.action(s), TeardownAction::StopContainer { ref id, grace_seconds } if id == "abc" && grace_seconds == STOP_GRACE_SECONDS));
    let s = t.next_step(s, false);
    assert_eq!(s, TeardownStep::Remove);
    assert!(matches!(t.action(s), TeardownAction::RemoveContainer { ref id, force: true, volumes: true } if id == "abc"));
    let s = t.next_step(s, false);
    assert_eq!(s, TeardownStep::Done);
    assert!(matches!(t.action(s), TeardownAction::Finished));
}

#[test]
fn process_teardown_kills_once() {
    let t = Teardown::Process(Some(4242));
    let s = t.first_step();
    assert_eq!(s, TeardownStep::Kill);
    assert!(matches!(t.action(s), TeardownAction::KillProcess(4242)));
    assert_eq!(t.next_step(s, true), TeardownStep::Done);
    assert_eq!(Teardown::Process(None).first_step(), TeardownStep::Done);
}

#[test]
fn launch_port_is_read_back_by_container_backend() {
    for port in [0u16, 1, 80, 3000, 65535] {
        let plan = launch_plan(docker_config("demo"), port).unwrap();
        assert_eq!(DockerRunner.allocated_port(&plan.env_vars).unwrap(), port);
    }
}
