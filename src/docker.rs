use vstd::prelude::*;

use crate::config::{port_key, LaunchPlan, SupportedTransportAdapter};
use crate::decimal::{
    decimal_of, decimal_string, lemma_parse_decimal_u16, parse_u16, parse_u16_spec, push_decimal,
};
use crate::env::EnvVars;
use crate::error::{Error, IoErrorKind};
use crate::text::{concat, push_str, strings_view, text_eq};
use crate::tooling::InstallStep;

verus! {

/// The container backend.
#[derive(Debug, Clone, Copy)]
pub struct DockerRunner;

/// Seconds that a container is given to stop before it is removed.
pub const STOP_GRACE_SECONDS: i64 = 10;

/// A host port bound to a container port.
#[derive(Debug, Clone)]
pub struct PortBinding {
    /// The container side, as `<port>/tcp`.
    pub container_port: String,
    pub host_ip: String,
    pub host_port: String,
}

/// How a workload's container is created.
#[derive(Debug, Clone)]
pub struct ContainerSpec {
    pub name: String,
    pub image: String,
    pub cmd: Vec<String>,
    /// `KEY=value` assignments.
    pub env: Vec<String>,
    pub port_binding: Option<PortBinding>,
    /// The container is restarted when it fails.
    pub restart_on_failure: bool,
    /// Whether its standard streams are attached for the bridge.
    pub attach: bool,
    /// The host port on which the bridge serves the attached streams.
    pub bridge_port: Option<u16>,
}

/// The name of the container of a service.
pub open spec fn container_name_of(service_id: u64) -> Seq<char> {
    "server-"@ + decimal_of(service_id as nat)
}

/// The `KEY=value` form of a variable.
pub open spec fn assignment_of(p: (Seq<char>, Seq<char>)) -> Seq<char> {
    p.0 + "="@ + p.1
}

/// The variables of a container: those of the launch but `PORT`, which is
/// set to the container port when the image declares one.
pub open spec fn container_env_of(
    env: Map<Seq<char>, Seq<char>>,
    exposed: Seq<u16>,
) -> Map<Seq<char>, Seq<char>> {
    if exposed.len() > 0 {
        env.remove(port_key()).insert(port_key(), decimal_of(exposed[0] as nat))
    } else {
        env.remove(port_key())
    }
}

/// The port that the manager allocated, as `PORT` of the launch holds it.
pub open spec fn allocated_port_of(env: Map<Seq<char>, Seq<char>>) -> Option<u16> {
    if env.contains_key(port_key()) {
        parse_u16_spec(env[port_key()])
    } else {
        None
    }
}

/// The port that a launch carries in its `PORT` variable is the one that the
/// container backend reads back from it.
pub proof fn lemma_launch_port_read_back(
    env: Map<Seq<char>, Seq<char>>,
    plan_env: Map<Seq<char>, Seq<char>>,
    port: u16,
)
    requires
        plan_env == env.insert(port_key(), decimal_of(port as nat)),
    ensures
        allocated_port_of(plan_env) == Some(port),
{
    lemma_parse_decimal_u16(port);
}

impl DockerRunner {
    /// The port that the manager allocated to the launch, read back from its
    /// `PORT` variable.
    pub fn allocated_port(&self, env_vars: &EnvVars) -> (r: Result<u16, Error>)
        requires
            env_vars.wf(),
        ensures
            match allocated_port_of(env_vars@) {
                Some(p) => r == Ok::<u16, Error>(p),
                None => r matches Err(Error::MissingPortBinding),
            },
    {
        let key = "PORT".to_string();
        match env_vars.get(&key) {
            Some(v) => match parse_u16(v.as_str()) {
                Some(p) => Ok(p),
                None => Err(Error::MissingPortBinding),
            },
            None => Err(Error::MissingPortBinding),
        }
    }

    /// The variables of `env_vars` as `KEY=value` assignments, in order.
    pub fn env_assignments(&self, env_vars: &EnvVars) -> (r: Vec<String>)
        ensures
            r@.len() == env_vars.entries_view().len(),
            forall|i: int|
                0 <= i < r@.len() ==> #[trigger] r@[i]@ == assignment_of(env_vars.entries_view()[i]),
    {
        let mut r: Vec<String> = Vec::new();
        let mut i: usize = 0;
        while i < env_vars.len()
            invariant
                i <= env_vars.entries_view().len(),
                r@.len() == i,
                forall|j: int|
                    0 <= j < i ==> #[trigger] r@[j]@ == assignment_of(env_vars.entries_view()[j]),
            decreases env_vars.entries_view().len() - i,
        {
            let e = env_vars.entry(i);
            let mut s = concat(e.0.as_str(), "=");
            push_str(&mut s, e.1.as_str());
            r.push(s);
            i = i + 1;
        }
        r
    }

    /// The container of service `service_id` that runs `plan`, given the
    /// ports that its image declares in ascending order. The host port is the
    /// allocated one, bound on the loopback address to the first declared
    /// port, whatever the adapter; an image that declares none gets no
    /// binding. A bridged container is attached, and its bridge serves the
    /// allocated port only where no binding holds that port already.
    pub fn container_spec(
        &self,
        service_id: u64,
        plan: &LaunchPlan,
        exposed_ports: &Vec<u16>,
    ) -> (r: Result<ContainerSpec, Error>)
        requires
            plan.env_vars.wf(),
        ensures
            allocated_port_of(plan.env_vars@) is None <==> r is Err,
            r is Err ==> r->Err_0 is MissingPortBinding,
            r matches Ok(c) ==> {
                &&& c.name@ == container_name_of(service_id)
                &&& c.image@ == plan.package@
                &&& strings_view(c.cmd@) == strings_view(plan.args@)
                &&& exists|e: EnvVars|
                    {
                        &&& e.wf()
                        &&& e@ == container_env_of(plan.env_vars@, exposed_ports@)
                        &&& c.env@.len() == e.entries_view().len()
                        &&& forall|i: int|
                            0 <= i < c.env@.len() ==> #[trigger] c.env@[i]@ == assignment_of(
                                e.entries_view()[i],
                            )
                    }
                &&& match c.port_binding {
                    Some(b) => exposed_ports@.len() > 0
                        && b.container_port@ == decimal_of(exposed_ports@[0] as nat) + "/tcp"@
                        && b.host_ip@ == "127.0.0.1"@
                        && b.host_port@ == decimal_of(
                        allocated_port_of(plan.env_vars@)->Some_0 as nat,
                    ),
                    None => exposed_ports@.len() == 0,
                }
                &&& c.bridge_port == if c.attach && exposed_ports@.len() == 0 {
                    allocated_port_of(plan.env_vars@)
                } else {
                    None
                }
                &&& c.restart_on_failure
                &&& c.attach == (plan.transport_adapter
                    == SupportedTransportAdapter::BridgeStdioToStream)
            },
    {
        let allocated = match self.allocated_port(&plan.env_vars) {
            Ok(p) => p,
            Err(e) => return Err(e),
        };
        let mut env = plan.env_vars.without(&"PORT".to_string());
        let attach = plan.transport_adapter == SupportedTransportAdapter::BridgeStdioToStream;
        if exposed_ports.len() > 0 {
            env.insert("PORT".to_string(), decimal_string(exposed_ports[0] as u64));
        }
        let port_binding = if exposed_ports.len() > 0 {
            let container_port = exposed_ports[0];
            let mut key = decimal_string(container_port as u64);
            push_str(&mut key, "/tcp");
            Some(
                PortBinding {
                    container_port: key,
                    host_ip: "127.0.0.1".to_string(),
                    host_port: decimal_string(allocated as u64),
                },
            )
        } else {
            None
        };
        let assignments = self.env_assignments(&env);
        let mut name = "server-".to_string();
        push_decimal(&mut name, service_id);
        Ok(
            ContainerSpec {
                name,
                image: plan.package.clone(),
                cmd: plan.args.clone(),
                env: assignments,
                port_binding,
                bridge_port: if attach && exposed_ports.len() == 0 {
                    Some(allocated)
                } else {
                    None
                },
                restart_on_failure: true,
                attach,
            },
        )
    }
}

/// Where a launch stands in making its image available locally.
#[derive(Debug, Clone, Copy, PartialEq, Eq, Structural)]
pub enum ImageState {
    /// The local images are listed by the image's reference.
    Listing,
    /// The image is pulled from its registry.
    Pulling,
    /// The image is present; the container can be created.
    Available,
    /// Listing or pulling failed.
    Failed,
}

/// What the container engine reported.
#[derive(Debug)]
pub enum ImageEvent {
    /// Whether the listing found the image, or the engine's error.
    Listed(Result<bool, String>),
    /// A progress record of the pull, with the error it carries, if any.
    PullProgress(Option<String>),
    /// The pull's stream broke with this error.
    PullStreamError(String),
    /// The pull's stream ended.
    PullFinished,
}

/// What the launch does next.
#[derive(Debug)]
pub enum ImageAction {
    ListImages,
    PullImage,
    /// Wait for the pull's next record.
    Wait,
    /// The image is there: go on with the container.
    Ready,
    Fail(Error),
}

/// The state after `event`. A pull starts only when the listing misses the
/// image; any error of the pull, a layer's included, ends it in failure.
pub open spec fn image_next(state: ImageState, event: ImageEvent) -> ImageState {
    match state {
        ImageState::Listing => match event {
            ImageEvent::Listed(Ok(true)) => ImageState::Available,
            ImageEvent::Listed(Ok(false)) => ImageState::Pulling,
            _ => ImageState::Failed,
        },
        ImageState::Pulling => match event {
            ImageEvent::PullProgress(None) => ImageState::Pulling,
            ImageEvent::PullFinished => ImageState::Available,
            _ => ImageState::Failed,
        },
        _ => ImageState::Failed,
    }
}

/// The message of a failed listing.
pub open spec fn list_failure(err: Seq<char>) -> Seq<char> {
    "Failed to list Docker images: "@ + err
}

/// The message of a failed pull of `image`.
pub open spec fn pull_failure(image: Seq<char>, err: Seq<char>) -> Seq<char> {
    "Failed to pull Docker image "@ + image + ": "@ + err
}

/// The message of an event that the state does not wait for.
pub open spec fn unexpected_image_event() -> Seq<char> {
    "unexpected container engine event"@
}

/// Whether `action` is what the launch of `image` does on leaving `state`
/// by `event`.
pub open spec fn image_action_of(
    state: ImageState,
    event: ImageEvent,
    image: Seq<char>,
    action: ImageAction,
) -> bool {
    let fails_with = |m: Seq<char>| action matches ImageAction::Fail(Error::Io(IoErrorKind::Other, s)) && s@ == m;
    match image_next(state, event) {
        ImageState::Listing => action is ListImages,
        ImageState::Pulling => if state == ImageState::Listing {
            action is PullImage
        } else {
            action is Wait
        },
        ImageState::Available => action is Ready,
        ImageState::Failed => match (state, event) {
            (ImageState::Listing, ImageEvent::Listed(Err(e))) => fails_with(list_failure(e@)),
            (ImageState::Pulling, ImageEvent::PullProgress(Some(e))) => fails_with(
                pull_failure(image, e@),
            ),
            (ImageState::Pulling, ImageEvent::PullStreamError(e)) => fails_with(
                pull_failure(image, e@),
            ),
            _ => fails_with(unexpected_image_event()),
        },
    }
}

/// How many pulls a run of `events` from `state` starts.
pub open spec fn image_pulls(state: ImageState, events: Seq<ImageEvent>) -> nat
    decreases events.len(),
{
    if events.len() == 0 {
        0
    } else {
        let n = image_next(state, events[0]);
        (if n == ImageState::Pulling && state != ImageState::Pulling {
            1nat
        } else {
            0nat
        }) + image_pulls(n, events.drop_first())
    }
}

proof fn lemma_no_pull_after_listing(state: ImageState, events: Seq<ImageEvent>)
    requires
        state != ImageState::Listing,
    ensures
        image_pulls(state, events) == 0,
    decreases events.len(),
{
    if events.len() > 0 {
        lemma_no_pull_after_listing(image_next(state, events[0]), events.drop_first());
    }
}

/// An image that the listing finds is never pulled; one that it misses is
/// pulled exactly once, whatever the engine reports afterwards.
pub proof fn lemma_pull_only_when_missing(events: Seq<ImageEvent>)
    requires
        events.len() > 0,
        events[0] is Listed,
        events[0]->Listed_0 is Ok,
    ensures
        image_pulls(ImageState::Listing, events) == if events[0]->Listed_0->Ok_0 {
            0nat
        } else {
            1nat
        },
{
    let n = image_next(ImageState::Listing, events[0]);
    lemma_no_pull_after_listing(n, events.drop_first());
}

/// A failed listing or pull never makes the image available.
pub proof fn lemma_failure_is_final(state: ImageState)
    requires
        state == ImageState::Failed,
    ensures
        forall|e: ImageEvent| image_next(state, e) == ImageState::Failed,
{
}

impl DockerRunner {
    /// The first step of making `image` available: list it.
    pub fn image_start(&self) -> (r: (ImageState, ImageAction))
        ensures
            r.0 == ImageState::Listing,
            r.1 is ListImages,
    {
        (ImageState::Listing, ImageAction::ListImages)
    }

    /// The next state and action of making `image` available, after `event`.
    pub fn image_step(&self, state: ImageState, event: ImageEvent, image: &str) -> (r: (
        ImageState,
        ImageAction,
    ))
        ensures
            r.0 == image_next(state, event),
            image_action_of(state, event, image@, r.1),
    {
        match state {
            ImageState::Listing => match event {
                ImageEvent::Listed(Ok(true)) => (ImageState::Available, ImageAction::Ready),
                ImageEvent::Listed(Ok(false)) => (ImageState::Pulling, ImageAction::PullImage),
                ImageEvent::Listed(Err(e)) => {
                    let m = concat("Failed to list Docker images: ", e.as_str());
                    (ImageState::Failed, ImageAction::Fail(Error::Io(IoErrorKind::Other, m)))
                },
                _ => (ImageState::Failed, unexpected_event()),
            },
            ImageState::Pulling => match event {
                ImageEvent::PullProgress(None) => (ImageState::Pulling, ImageAction::Wait),
                ImageEvent::PullFinished => (ImageState::Available, ImageAction::Ready),
                ImageEvent::PullProgress(Some(e)) => (
                    ImageState::Failed,
                    ImageAction::Fail(Error::Io(IoErrorKind::Other, pull_failure_message(image, e.as_str()))),
                ),
                ImageEvent::PullStreamError(e) => (
                    ImageState::Failed,
                    ImageAction::Fail(Error::Io(IoErrorKind::Other, pull_failure_message(image, e.as_str()))),
                ),
                _ => (ImageState::Failed, unexpected_event()),
            },
            _ => (ImageState::Failed, unexpected_event()),
        }
    }
}

fn unexpected_event() -> (r: ImageAction)
    ensures
        r matches ImageAction::Fail(Error::Io(IoErrorKind::Other, s)) && s@ == unexpected_image_event(),
{
    ImageAction::Fail(Error::Io(IoErrorKind::Other, "unexpected container engine event".to_string()))
}

fn pull_failure_message(image: &str, err: &str) -> (r: String)
    ensures
        r@ == pull_failure(image@, err@),
{
    let mut m = concat("Failed to pull Docker image ", image);
    push_str(&mut m, ": ");
    push_str(&mut m, err);
    m
}

/// What `String::from_utf8_lossy` makes of some bytes.
pub uninterp spec fn lossy_text_of(b: Seq<u8>) -> Seq<char>;

/// Whether `c` has the Unicode property `White_Space`, as
/// `char::is_whitespace` tests it.
pub open spec fn is_white_space(c: char) -> bool {
    ||| '\u{9}' <= c <= '\u{d}'
    ||| c == ' '
    ||| c == '\u{85}'
    ||| c == '\u{a0}'
    ||| c == '\u{1680}'
    ||| '\u{2000}' <= c <= '\u{200a}'
    ||| c == '\u{2028}'
    ||| c == '\u{2029}'
    ||| c == '\u{202f}'
    ||| c == '\u{205f}'
    ||| c == '\u{3000}'
}

/// `s` without its leading white space.
pub open spec fn trim_start_of(s: Seq<char>) -> Seq<char>
    decreases s.len(),
{
    if s.len() > 0 && is_white_space(s[0]) {
        trim_start_of(s.drop_first())
    } else {
        s
    }
}

/// `s` without its trailing white space.
pub open spec fn trim_end_of(s: Seq<char>) -> Seq<char>
    decreases s.len(),
{
    if s.len() > 0 && is_white_space(s.last()) {
        trim_end_of(s.drop_last())
    } else {
        s
    }
}

/// `s` without its leading and trailing white space.
pub open spec fn trimmed_of(s: Seq<char>) -> Seq<char> {
    trim_end_of(trim_start_of(s))
}

/// What `str::to_lowercase` makes of some text.
pub uninterp spec fn lower_of(s: Seq<char>) -> Seq<char>;

/// Relies on `String::from_utf8_lossy`: the text depends on the bytes alone.
#[verifier::external_body]
fn utf8_lossy(b: &[u8]) -> (r: String)
    ensures
        r@ == lossy_text_of(b@),
{
    String::from_utf8_lossy(b).into_owned()
}

/// Relies on `str::trim`: the text less its leading and trailing characters
/// for which `char::is_whitespace` holds.
#[verifier::external_body]
fn trim(s: &str) -> (r: String)
    ensures
        r@ == trimmed_of(s@),
{
    s.trim().to_string()
}

/// Relies on `str::to_lowercase`: the text depends on its argument alone.
#[verifier::external_body]
fn lowercase(s: &str) -> (r: String)
    ensures
        r@ == lower_of(s@),
{
    s.to_lowercase()
}

/// The operating system that `uname -s` printed: its output trimmed and in
/// lower case.
pub open spec fn os_name_of(stdout: Seq<u8>) -> Seq<char> {
    lower_of(trimmed_of(lossy_text_of(stdout)))
}

/// The message of an installer that the platform lacks.
pub open spec fn unsupported_platform(os: Seq<char>) -> Seq<char> {
    "Docker installation only supported on Linux, detected platform: "@ + os
}

impl DockerRunner {
    /// The command that tells whether Docker is present.
    pub fn check_command(&self) -> (r: Vec<String>)
        ensures
            strings_view(r@) == seq!["docker"@, "--version"@],
    {
        let r = vec!["docker".to_string(), "--version".to_string()];
        assert(strings_view(r@) =~= seq!["docker"@, "--version"@]);
        r
    }

    /// The command whose output names the operating system.
    pub fn os_command(&self) -> (r: Vec<String>)
        ensures
            strings_view(r@) == seq!["uname"@, "-s"@],
    {
        let r = vec!["uname".to_string(), "-s".to_string()];
        assert(strings_view(r@) =~= seq!["uname"@, "-s"@]);
        r
    }

    /// The operating system named by the output of the command of
    /// `os_command`.
    pub fn os_name(&self, stdout: &[u8]) -> (r: String)
        ensures
            r@ == os_name_of(stdout@),
    {
        let text = utf8_lossy(stdout);
        let trimmed = trim(text.as_str());
        lowercase(trimmed.as_str())
    }

    /// The installer on the operating system `os`: Docker's install script,
    /// after which the service is started and enabled where that works. Only
    /// Linux has one.
    pub fn install_steps(&self, os: &str) -> (r: Result<Vec<InstallStep>, Error>)
        ensures
            r is Ok <==> os@ == "linux"@,
            r matches Err(Error::Io(kind, m)) ==> kind == IoErrorKind::Unsupported && m@ == unsupported_platform(os@),
            r is Err ==> r->Err_0 is Io,
            r matches Ok(steps) ==> {
                &&& steps@.len() == 3
                &&& strings_view(steps@[0].argv@) == seq![
                    "sh"@,
                    "-c"@,
                    "curl -fsSL https://get.docker.com -o get-docker.sh && sh get-docker.sh"@,
                ]
                &&& steps@[0].failure matches Some(m) && m@
                    == "Docker installation script failed on Linux"@
                &&& strings_view(steps@[1].argv@) == seq![
                    "sudo"@,
                    "systemctl"@,
                    "start"@,
                    "docker"@,
                ]
                &&& steps@[1].failure is None
                &&& strings_view(steps@[2].argv@) == seq![
                    "sudo"@,
                    "systemctl"@,
                    "enable"@,
                    "docker"@,
                ]
                &&& steps@[2].failure is None
            },
    {
        if !text_eq(os, "linux") {
            return Err(Error::Io(IoErrorKind::Unsupported, concat("Docker installation only supported on Linux, detected platform: ", os)));
        }
        let script = vec![
            "sh".to_string(),
            "-c".to_string(),
            "curl -fsSL https://get.docker.com -o get-docker.sh && sh get-docker.sh".to_string(),
        ];
        let start = vec![
            "sudo".to_string(),
            "systemctl".to_string(),
            "start".to_string(),
            "docker".to_string(),
        ];
        let enable = vec![
            "sudo".to_string(),
            "systemctl".to_string(),
            "enable".to_string(),
            "docker".to_string(),
        ];
        assert(strings_view(script@) =~= seq![
            "sh"@,
            "-c"@,
            "curl -fsSL https://get.docker.com -o get-docker.sh && sh get-docker.sh"@,
        ]);
        assert(strings_view(start@) =~= seq!["sudo"@, "systemctl"@, "start"@, "docker"@]);
        assert(strings_view(enable@) =~= seq!["sudo"@, "systemctl"@, "enable"@, "docker"@]);
        Ok(
            vec![
                InstallStep {
                    argv: script,
                    failure: Some("Docker installation script failed on Linux".to_string()),
                },
                InstallStep { argv: start, failure: None },
                InstallStep { argv: enable, failure: None },
            ],
        )
    }

    /// The error of a failed command of `os_command`.
    pub fn os_detection_failure(&self) -> (r: Error)
        ensures
            r matches Error::Io(kind, m) && kind == IoErrorKind::Other
                && m@ == "Failed to detect operating system"@,
    {
        Error::Io(IoErrorKind::Other, "Failed to detect operating system".to_string())
    }

    /// The message of a launch whose tool is still missing after its install.
    pub fn missing_tool_message(&self) -> (r: String)
        ensures
            r@ == "Docker is not available and could not be installed"@,
    {
        "Docker is not available and could not be installed".to_string()
    }
}

} // verus!
