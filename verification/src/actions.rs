//! The boundary between the verified orchestrator and the unverified
//! driver: actions the orchestrator emits, and outcomes the driver reports.

use vstd::prelude::*;
use crate::genesis::{CopyAction, GenesisCall};
use crate::instance::{ApplicationConfig, Instance, InstanceConfig, NodeHandle};
use crate::names::{node_name_seq, url_of, NodeId};
use crate::errors::ErrorKind;
use crate::keys::init_key_list;
use crate::settings::{BuilderSettings, RetryPolicy};

verus! {

/// One remote effect for the driver to perform.
#[derive(Clone, Debug)]
pub enum Action {
    /// Reset the scheduler to an empty state.
    Cleanup,
    /// Ask the scheduler for the workspace name.
    GetWorkspace,
    /// Resize the compute pool and wait as requested.
    Resize {
        asg_name: String,
        target: u32,
        min_healthy_percent: u32,
        wait_scale_up: bool,
        wait_scale_down: bool,
    },
    /// Allocate the uniquely-named node slot for `id`.
    AllocateNode { id: NodeId, name: String },
    /// Materialize one workload on an allocated node, optionally wiping its
    /// persistent state first.
    SpawnInstance { node_name: String, wipe_data: bool, config: InstanceConfig },
    /// Create the key slots of one secret-store node, under the batch's
    /// retry policy; the only retried call of the whole run.
    CreateKeySlots {
        validator_index: u32,
        url: String,
        token: String,
        keys: Vec<String>,
        retry: RetryPolicy,
    },
    /// One step of the genesis ceremony.
    Genesis(GenesisCall),
    /// One copy of the finalized artifact into a validator node.
    CopyToNode(CopyAction),
}

/// What the driver reports back for one action.
#[derive(Clone, Debug)]
pub enum StepOutcome {
    /// The action completed; it returns no value.
    Success,
    /// The workspace name.
    Workspace(String),
    /// The node handle an allocation returned.
    Allocated(NodeHandle),
    /// The instance a spawn returned.
    Spawned(Instance),
    /// The bytes a read of the genesis artifact returned.
    ArtifactBytes(Vec<u8>),
    /// The action failed, after any applicable retries.
    Failure(ErrorKind, String),
}

/// One phase's worth of actions. A sequential batch must be performed one
/// action at a time, in order, stopping at the first failure; a concurrent
/// batch may be fanned out, but the driver must await every started action
/// before reporting, and must report one outcome per action, in order.
#[derive(Clone, Debug)]
pub struct Batch {
    pub sequential: bool,
    pub actions: Vec<Action>,
}

/// `a` allocates exactly the slot `id`, under its deterministic name.
pub open spec fn alloc_ok(a: Action, id: NodeId) -> bool {
    match a {
        Action::AllocateNode { id: aid, name } => aid == id && name@ == node_name_seq(id),
        _ => false,
    }
}

/// `a` resizes the pool as the phase demands.
pub open spec fn resize_ok(
    a: Action,
    asg: Seq<char>,
    target: u32,
    min_healthy_percent: u32,
    wait_scale_up: bool,
    wait_scale_down: bool,
) -> bool {
    match a {
        Action::Resize {
            asg_name,
            target: t,
            min_healthy_percent: m,
            wait_scale_up: up,
            wait_scale_down: down,
        } => {
            &&& asg_name@ == asg
            &&& t == target
            &&& m == min_healthy_percent
            &&& up == wait_scale_up
            &&& down == wait_scale_down
        },
        _ => false,
    }
}

/// `a` initializes the secret-store node of validator `i`: it creates, in
/// order, exactly the key slots that node must hold, addressed at the
/// node's URL with the fixed token, retried under the run's policy.
pub open spec fn init_vault_ok(a: Action, i: u32, vault_ip: Seq<char>, s: BuilderSettings) -> bool {
    match a {
        Action::CreateKeySlots { validator_index, url, token, keys, retry } => {
            &&& validator_index == i
            &&& url@ == url_of(vault_ip, s.vault_port as nat)
            &&& token@ == s.vault_token@
            &&& keys@.len() == init_key_list(s.libra_root_name@, i).len()
            &&& forall|k: int|
                0 <= k < keys@.len() ==> (#[trigger] keys@[k])@ == init_key_list(
                    s.libra_root_name@,
                    i,
                )[k]
            &&& retry == s.retry
        },
        _ => false,
    }
}

/// `a` spawns the workload `app` for validator group `group` on the node
/// named `node_name`, wiping persistent state exactly on a clean run.
pub open spec fn spawn_shape_ok(
    a: Action,
    node_name: Seq<char>,
    wipe: bool,
    group: u32,
) -> bool {
    match a {
        Action::SpawnInstance { node_name: nn, wipe_data, config } => {
            &&& nn@ == node_name
            &&& wipe_data == wipe
            &&& config.validator_group == group
        },
        _ => false,
    }
}

/// The application configuration carried by a spawn action.
pub open spec fn spawn_app_config(a: Action) -> ApplicationConfig
    recommends
        a is SpawnInstance,
{
    match a {
        Action::SpawnInstance { config, .. } => config.application_config,
        _ => vstd::pervasive::arbitrary(),
    }
}

/// The genesis call carried by a genesis action.
pub open spec fn genesis_call_of(a: Action) -> GenesisCall
    recommends
        a is Genesis,
{
    match a {
        Action::Genesis(c) => c,
        _ => vstd::pervasive::arbitrary(),
    }
}

/// The genesis calls of a batch that consists of genesis actions.
pub open spec fn genesis_calls_of(actions: Seq<Action>) -> Seq<GenesisCall> {
    actions.map_values(|a: Action| genesis_call_of(a))
}

/// The copy carried by a distribution action.
pub open spec fn copy_of(a: Action) -> CopyAction
    recommends
        a is CopyToNode,
{
    match a {
        Action::CopyToNode(c) => c,
        _ => vstd::pervasive::arbitrary(),
    }
}

/// The copies of a batch that consists of distribution actions.
pub open spec fn copies_of(actions: Seq<Action>) -> Seq<CopyAction> {
    actions.map_values(|a: Action| copy_of(a))
}

/// The handles of a batch of allocation outcomes.
pub open spec fn handles_of(results: Seq<StepOutcome>) -> Seq<NodeHandle> {
    results.map_values(
        |r: StepOutcome|
            match r {
                StepOutcome::Allocated(h) => h,
                _ => vstd::pervasive::arbitrary(),
            },
    )
}

/// The instances of a batch of spawn outcomes.
pub open spec fn instances_of(results: Seq<StepOutcome>) -> Seq<Instance> {
    results.map_values(
        |r: StepOutcome|
            match r {
                StepOutcome::Spawned(inst) => inst,
                _ => vstd::pervasive::arbitrary(),
            },
    )
}

/// There is a failure among `results`, and the first one stands at `k`.
pub open spec fn first_failure_at(results: Seq<StepOutcome>, k: int) -> bool {
    &&& 0 <= k < results.len()
    &&& results[k] is Failure
    &&& forall|j: int| 0 <= j < k ==> !((#[trigger] results[j]) is Failure)
}

/// Finds the first failed outcome, if any: its position, kind and message.
pub fn first_failure(results: &Vec<StepOutcome>) -> (r: Option<(usize, ErrorKind, String)>)
    ensures
        match r {
            Some((k, kind, detail)) => {
                &&& first_failure_at(results@, k as int)
                &&& results@[k as int] == StepOutcome::Failure(kind, detail)
            },
            None => forall|j: int| 0 <= j < results@.len() ==> !((#[trigger] results@[j]) is Failure),
        },
{
    let mut k: usize = 0;
    while k < results.len()
        invariant
            k <= results@.len(),
            forall|j: int| 0 <= j < k ==> !((#[trigger] results@[j]) is Failure),
        decreases results@.len() - k,
    {
        match &results[k] {
            StepOutcome::Failure(kind, detail) => {
                return Some((k, *kind, detail.clone()));
            },
            _ => {},
        }
        k = k + 1;
    }
    None
}

} // verus!
