use vstd::prelude::*;

use crate::decimal::{decimal_of, decimal_string};
use crate::env::{pairs_map, pairs_view, EnvVars};
use crate::error::Error;
use crate::text::{strings_view, text_eq};

verus! {

/// The runtime that runs a workload.
#[derive(Clone, Copy, Debug, PartialEq, Eq, Structural)]
pub enum ServerRuntime {
    /// A runtime that the supervisor does not know.
    Unknown,
    /// A Python package run with `uvx`.
    Python,
    /// A JavaScript package run with `bunx`.
    Javascript,
    /// A container image.
    Docker,
}

/// The runtime that a wire tag names; a tag that names none is `Unknown`.
pub open spec fn runtime_of_tag(tag: Seq<char>) -> ServerRuntime {
    if tag == "python"@ {
        ServerRuntime::Python
    } else if tag == "javascript"@ {
        ServerRuntime::Javascript
    } else if tag == "docker"@ {
        ServerRuntime::Docker
    } else {
        ServerRuntime::Unknown
    }
}

impl Default for ServerRuntime {
    fn default() -> (r: ServerRuntime)
        ensures
            r == ServerRuntime::Unknown,
    {
        ServerRuntime::Unknown
    }
}

impl ServerRuntime {
    /// Reads a runtime from its lower-case wire tag.
    pub fn from_tag(tag: &str) -> (r: ServerRuntime)
        ensures
            r == runtime_of_tag(tag@),
    {
        if text_eq(tag, "python") {
            ServerRuntime::Python
        } else if text_eq(tag, "javascript") {
            ServerRuntime::Javascript
        } else if text_eq(tag, "docker") {
            ServerRuntime::Docker
        } else {
            ServerRuntime::Unknown
        }
    }
}

/// How a workload's message protocol reaches the network.
#[derive(Clone, Copy, Debug, PartialEq, Eq, Structural)]
pub enum SupportedTransportAdapter {
    /// The workload's standard input and output are bridged to a network stream.
    BridgeStdioToStream,
    /// The workload serves its own network endpoint.
    Direct,
}

/// What a start request asks for.
#[derive(Debug, Clone)]
pub struct ServerConfig {
    pub runtime: ServerRuntime,
    /// A package reference (`name@version`) or a container image (`repo[:tag]`).
    pub package: String,
    pub args: Option<Vec<String>>,
    pub env: Option<Vec<(String, String)>>,
    pub transport_adapter: SupportedTransportAdapter,
}

/// The parameters of a start request.
#[derive(Debug, Clone)]
pub struct RequestParams {
    pub config: ServerConfig,
}

/// The name of the variable that carries a workload's port.
pub open spec fn port_key() -> Seq<char> {
    "PORT"@
}

/// The arguments that a request gives: none when the list is absent.
pub open spec fn requested_args(args: Option<Vec<String>>) -> Seq<Seq<char>> {
    match args {
        Some(v) => strings_view(v@),
        None => Seq::empty(),
    }
}

/// The environment that a request gives: later pairs override earlier ones.
pub open spec fn requested_env(env: Option<Vec<(String, String)>>) -> Map<Seq<char>, Seq<char>> {
    match env {
        Some(v) => pairs_map(pairs_view(v@)),
        None => Map::empty(),
    }
}

/// Everything a backend needs to launch one workload.
#[derive(Debug, Clone)]
pub struct LaunchPlan {
    pub runtime: ServerRuntime,
    pub package: String,
    pub args: Vec<String>,
    /// The requested variables, with `PORT` set to the allocated port.
    pub env_vars: EnvVars,
    /// The port allocated to the workload.
    pub port: u16,
    pub transport_adapter: SupportedTransportAdapter,
}

/// Builds the launch of `config` on the port `allocated_port`: the optional
/// lists become concrete ones and `PORT` is set to the port. An unknown
/// runtime is refused.
pub fn launch_plan(config: ServerConfig, allocated_port: u16) -> (r: Result<LaunchPlan, Error>)
    ensures
        r is Err <==> config.runtime == ServerRuntime::Unknown,
        r is Err ==> r->Err_0 is UnknownRuntime,
        r matches Ok(p) ==> {
            &&& p.runtime == config.runtime
            &&& p.package@ == config.package@
            &&& strings_view(p.args@) == requested_args(config.args)
            &&& p.env_vars.wf()
            &&& p.env_vars@ == requested_env(config.env).insert(
                port_key(),
                decimal_of(allocated_port as nat),
            )
            &&& p.port == allocated_port
            &&& p.transport_adapter == config.transport_adapter
        },
{
    if config.runtime == ServerRuntime::Unknown {
        return Err(Error::UnknownRuntime);
    }
    let args = match config.args {
        Some(v) => v,
        None => Vec::new(),
    };
    proof {
        assert(strings_view(args@) =~= requested_args(config.args));
    }
    let pairs = match config.env {
        Some(v) => v,
        None => Vec::new(),
    };
    let ghost pv = pairs_view(pairs@);
    proof {
        assert(pairs_map(pv) == requested_env(config.env)) by {
            if config.env is None {
                assert(pv =~= Seq::<(Seq<char>, Seq<char>)>::empty());
            }
        }
    }
    let mut env_vars = EnvVars::new();
    let mut i: usize = 0;
    while i < pairs.len()
        invariant
            i <= pairs@.len(),
            pv == pairs_view(pairs@),
            env_vars.wf(),
            env_vars@ == pairs_map(pv.take(i as int)),
        decreases pairs@.len() - i,
    {
        proof {
            assert(pv.take(i + 1).drop_last() =~= pv.take(i as int));
        }
        let k = pairs[i].0.clone();
        let v = pairs[i].1.clone();
        env_vars.insert(k, v);
        i = i + 1;
    }
    proof {
        assert(pv.take(pairs@.len() as int) =~= pv);
    }
    env_vars.insert("PORT".to_string(), decimal_string(allocated_port as u64));
    Ok(LaunchPlan {
        runtime: config.runtime,
        package: config.package,
        args,
        env_vars,
        port: allocated_port,
        transport_adapter: config.transport_adapter,
    })
}

} // verus!
