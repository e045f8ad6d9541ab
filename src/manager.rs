use vstd::prelude::*;

use std::collections::BTreeMap;
use tokio_util::sync::CancellationToken;

use crate::config::{LaunchPlan, ServerRuntime};
use crate::decimal::{decimal_of, lemma_decimal_injective, push_decimal};
use crate::env::EnvVars;
use crate::error::Error;
use crate::text::strings_view;

verus! {

broadcast use vstd::std_specs::btree::group_btree_axioms;

#[verifier::external_type_specification]
#[verifier::external_body]
pub struct ExCancellationToken(CancellationToken);

/// The tokens whose stop was requested, in the order of the requests.
pub struct CancelLog {
    pub requested: Ghost<Seq<CancellationToken>>,
}

/// Relies on `CancellationToken::cancel` to request the stop of the token's
/// workload; the log records that the request was made.
#[verifier::external_body]
fn request_stop(log: &mut CancelLog, token: &CancellationToken)
    ensures
        final(log).requested@ == old(log).requested@.push(*token),
{
    token.cancel()
}

/// The identity of the account that owns a service.
#[derive(Clone, Copy, Debug)]
pub struct AccountId {
    pub bytes: [u8; 32],
}

/// A running workload.
#[derive(Debug)]
pub struct Server {
    pub runtime: ServerRuntime,
    pub package: String,
    pub args: Vec<String>,
    pub env_vars: EnvVars,
    /// Stops the workload's backend when cancelled.
    pub cancellation_token: Option<CancellationToken>,
}

/// The endpoint through which a workload on `port` is reached.
pub open spec fn endpoint_of(port: u16) -> Seq<char> {
    "http://127.0.0.1:"@ + decimal_of(port as nat)
}

/// The endpoint through which a workload on `port` is reached.
pub fn endpoint_for_port(port: u16) -> (r: String)
    ensures
        r@ == endpoint_of(port),
{
    let mut r = "http://127.0.0.1:".to_string();
    push_decimal(&mut r, port as u64);
    r
}

/// The live workloads, keyed by service id, with their owners and endpoints.
pub struct ServerManager {
    pub servers: BTreeMap<u64, Server>,
    pub owners: BTreeMap<u64, AccountId>,
    pub endpoints: BTreeMap<u64, String>,
    /// Every service id that was ever started here.
    pub started: Ghost<Set<u64>>,
    /// The stops requested of the workloads' backends.
    pub cancels: CancelLog,
}

impl ServerManager {
    /// The three collections hold the same ids, each of them started here,
    /// and every record's variables are well formed.
    pub open spec fn wf(&self) -> bool {
        &&& self.owners@.dom() == self.servers@.dom()
        &&& self.endpoints@.dom() == self.servers@.dom()
        &&& self.servers@.dom().subset_of(self.started@)
        &&& forall|id: u64| #[trigger] self.servers@.contains_key(id) ==> self.servers@[id].env_vars.wf()
    }

    /// The record of `id` is the launch `plan`, now running.
    pub open spec fn holds_launch(&self, id: u64, plan: LaunchPlan) -> bool {
        &&& self.servers@.contains_key(id)
        &&& self.servers@[id].runtime == plan.runtime
        &&& self.servers@[id].package@ == plan.package@
        &&& strings_view(self.servers@[id].args@) == strings_view(plan.args@)
        &&& self.servers@[id].env_vars@ == plan.env_vars@
        &&& self.servers@[id].cancellation_token is Some
    }

    /// `new` is `old` with the launch `plan` of `id` committed for `owner`,
    /// stopped by `token` and reached at `endpoint`; whatever `old` held for
    /// `id` is replaced, and no stop is requested.
    pub open spec fn start_committed(
        old: &Self,
        new: &Self,
        id: u64,
        owner: AccountId,
        plan: LaunchPlan,
        token: CancellationToken,
        endpoint: Seq<char>,
    ) -> bool {
        &&& new.holds_launch(id, plan)
        &&& new.servers@[id].cancellation_token == Some(token)
        &&& new.cancels.requested@ == old.cancels.requested@
        &&& new.servers@ == old.servers@.insert(id, new.servers@[id])
        &&& new.owners@ == old.owners@.insert(id, owner)
        &&& new.endpoints@.contains_key(id)
        &&& new.endpoints@[id]@ == endpoint
        &&& new.endpoints@ == old.endpoints@.insert(id, new.endpoints@[id])
        &&& endpoint == endpoint_of(plan.port)
        &&& new.started@ == old.started@.insert(id)
    }

    /// `new` is `old` without `id` in any collection; `stopped` tells
    /// whether `old` held it, and the stop of its token, if it had one, is
    /// requested once.
    pub open spec fn stop_done(old: &Self, new: &Self, id: u64, stopped: bool) -> bool {
        &&& stopped == old.servers@.contains_key(id)
        &&& new.cancels.requested@ == if stopped && old.servers@[id].cancellation_token is Some {
            old.cancels.requested@.push(old.servers@[id].cancellation_token->Some_0)
        } else {
            old.cancels.requested@
        }
        &&& new.servers@ == old.servers@.remove(id)
        &&& new.owners@ == old.owners@.remove(id)
        &&& new.endpoints@ == old.endpoints@.remove(id)
        &&& new.started@ == old.started@
    }

    pub fn new() -> (r: ServerManager)
        ensures
            r.wf(),
            r.servers@ == Map::<u64, Server>::empty(),
            r.started@ == Set::<u64>::empty(),
            r.cancels.requested@ == Seq::<CancellationToken>::empty(),
    {
        ServerManager {
            servers: BTreeMap::new(),
            owners: BTreeMap::new(),
            endpoints: BTreeMap::new(),
            started: Ghost(Set::empty()),
            cancels: CancelLog { requested: Ghost(Seq::empty()) },
        }
    }

    /// Records the outcome of launching `plan` for `service_id`. When the
    /// backend started, the record, its owner and its endpoint are inserted
    /// together and the endpoint is returned; when it failed, nothing changes
    /// and its error is returned as it came.
    pub fn start_server(
        &mut self,
        service_id: u64,
        owner: AccountId,
        plan: LaunchPlan,
        started: Result<CancellationToken, Error>,
    ) -> (r: Result<String, Error>)
        requires
            old(self).wf(),
            plan.env_vars.wf(),
            plan.runtime != ServerRuntime::Unknown,
        ensures
            final(self).wf(),
            match started {
                Ok(token) => r matches Ok(e) && Self::start_committed(
                    old(self),
                    final(self),
                    service_id,
                    owner,
                    plan,
                    token,
                    e@,
                ),
                Err(err) => r == Err::<String, Error>(err) && *final(self) == *old(self),
            },
    {
        match started {
            Err(err) => Err(err),
            Ok(token) => {
                let endpoint = endpoint_for_port(plan.port);
                let server = Server {
                    runtime: plan.runtime,
                    package: plan.package,
                    args: plan.args,
                    env_vars: plan.env_vars,
                    cancellation_token: Some(token),
                };
                self.servers.insert(service_id, server);
                self.owners.insert(service_id, owner);
                self.endpoints.insert(service_id, endpoint.clone());
                self.started = Ghost(self.started@.insert(service_id));
                Ok(endpoint)
            },
        }
    }

    /// Removes `service_id` from the three collections and signals its
    /// backend to stop. Returns whether the id was running; an unknown id is
    /// no error.
    pub fn stop_server(&mut self, service_id: u64) -> (r: bool)
        requires
            old(self).wf(),
        ensures
            final(self).wf(),
            Self::stop_done(old(self), final(self), service_id, r),
    {
        match self.servers.remove(&service_id) {
            Some(server) => {
                if let Some(token) = &server.cancellation_token {
                    request_stop(&mut self.cancels, token);
                }
                self.owners.remove(&service_id);
                self.endpoints.remove(&service_id);
                true
            },
            None => {
                self.owners.remove(&service_id);
                self.endpoints.remove(&service_id);
                false
            },
        }
    }

    /// Whether `service_id` is running.
    pub fn is_running(&self, service_id: u64) -> (r: bool)
        ensures
            r == self.servers@.contains_key(service_id),
    {
        self.servers.contains_key(&service_id)
    }

    /// The endpoint of `service_id`, if it is running.
    pub fn endpoint(&self, service_id: u64) -> (r: Option<String>)
        ensures
            match r {
                Some(e) => self.endpoints@.contains_key(service_id) && e@ == self.endpoints@[service_id]@,
                None => !self.endpoints@.contains_key(service_id),
            },
    {
        match self.endpoints.get(&service_id) {
            Some(e) => Some(e.clone()),
            None => None,
        }
    }

    /// The owner of `service_id`, if it is running.
    pub fn owner(&self, service_id: u64) -> (r: Option<AccountId>)
        ensures
            match r {
                Some(o) => self.owners@.contains_key(service_id) && o == self.owners@[service_id],
                None => !self.owners@.contains_key(service_id),
            },
    {
        match self.owners.get(&service_id) {
            Some(o) => Some(*o),
            None => None,
        }
    }

    /// The number of running workloads.
    pub fn len(&self) -> (r: usize)
        requires
            self.wf(),
        ensures
            r == self.servers@.len(),
    {
        self.servers.len()
    }
}

/// A service id that was never started is not running, so stopping it
/// reports `false` and changes nothing.
pub proof fn lemma_stop_never_started(m: &ServerManager, after: &ServerManager, id: u64, r: bool)
    requires
        m.wf(),
        !m.started@.contains(id),
        ServerManager::stop_done(m, after, id, r),
    ensures
        !r,
        after.servers@ == m.servers@,
        after.owners@ == m.owners@,
        after.endpoints@ == m.endpoints@,
{
    assert(!m.servers@.contains_key(id));
    assert(after.servers@ =~= m.servers@);
    assert(after.owners@ =~= m.owners@);
    assert(after.endpoints@ =~= m.endpoints@);
}

/// Stopping a service right after it started reports `true`, requests the
/// stop of the token that its backend returned, once, and leaves no trace of
/// it in any of the three collections: they are as before the start, less
/// that id.
pub proof fn lemma_start_then_stop(
    m0: &ServerManager,
    m1: &ServerManager,
    m2: &ServerManager,
    id: u64,
    owner: AccountId,
    plan: LaunchPlan,
    token: CancellationToken,
    endpoint: Seq<char>,
    r: bool,
)
    requires
        m0.wf(),
        ServerManager::start_committed(m0, m1, id, owner, plan, token, endpoint),
        ServerManager::stop_done(m1, m2, id, r),
    ensures
        r,
        !m2.servers@.contains_key(id),
        !m2.owners@.contains_key(id),
        !m2.endpoints@.contains_key(id),
        m2.servers@ == m0.servers@.remove(id),
        m2.owners@ == m0.owners@.remove(id),
        m2.endpoints@ == m0.endpoints@.remove(id),
        m2.cancels.requested@ == m0.cancels.requested@.push(token),
{
    assert(m2.servers@ =~= m0.servers@.remove(id));
    assert(m2.owners@ =~= m0.owners@.remove(id));
    assert(m2.endpoints@ =~= m0.endpoints@.remove(id));
}

/// Two starts of different ids on different ports leave both running at
/// once, with two different endpoints, each on its own port.
pub proof fn lemma_two_starts_distinct(
    m0: &ServerManager,
    m1: &ServerManager,
    m2: &ServerManager,
    id1: u64,
    id2: u64,
    owner1: AccountId,
    owner2: AccountId,
    plan1: LaunchPlan,
    plan2: LaunchPlan,
    token1: CancellationToken,
    token2: CancellationToken,
    endpoint1: Seq<char>,
    endpoint2: Seq<char>,
)
    requires
        m0.wf(),
        id1 != id2,
        plan1.port != plan2.port,
        ServerManager::start_committed(m0, m1, id1, owner1, plan1, token1, endpoint1),
        ServerManager::start_committed(m1, m2, id2, owner2, plan2, token2, endpoint2),
    ensures
        m2.servers@.contains_key(id1),
        m2.servers@.contains_key(id2),
        m2.endpoints@[id1]@ == endpoint_of(plan1.port),
        m2.endpoints@[id2]@ == endpoint_of(plan2.port),
        m2.endpoints@[id1]@ != m2.endpoints@[id2]@,
{
    lemma_decimal_injective(plan1.port as nat, plan2.port as nat);
    let p = "http://127.0.0.1:"@;
    if endpoint1 == endpoint2 {
        assert(decimal_of(plan1.port as nat) =~= endpoint1.subrange(p.len() as int, endpoint1.len() as int));
        assert(decimal_of(plan2.port as nat) =~= endpoint2.subrange(p.len() as int, endpoint2.len() as int));
    }
}

/// Starting a running id again replaces its record: the new token is held,
/// the first one is held no more, and no stop of the first instance is
/// requested.
pub proof fn lemma_restart_overwrites(
    m0: &ServerManager,
    m1: &ServerManager,
    m2: &ServerManager,
    id: u64,
    owner1: AccountId,
    owner2: AccountId,
    plan1: LaunchPlan,
    plan2: LaunchPlan,
    token1: CancellationToken,
    token2: CancellationToken,
    endpoint1: Seq<char>,
    endpoint2: Seq<char>,
)
    requires
        m0.wf(),
        ServerManager::start_committed(m0, m1, id, owner1, plan1, token1, endpoint1),
        ServerManager::start_committed(m1, m2, id, owner2, plan2, token2, endpoint2),
    ensures
        m2.servers@.dom() == m0.servers@.dom().insert(id),
        m2.servers@[id].cancellation_token == Some(token2),
        m2.owners@[id] == owner2,
        m2.endpoints@[id]@ == endpoint_of(plan2.port),
        m2.cancels.requested@ == m0.cancels.requested@,
{
    assert(m2.servers@.dom() =~= m0.servers@.dom().insert(id));
}

} // verus!
