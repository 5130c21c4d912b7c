//! The bootstrap orchestrator: a phase-by-phase state machine that owns
//! provisioning order, fan-out, inter-phase barriers and failure policy.
//! The driver repeatedly asks for the next batch of actions, performs them
//! (concurrently or sequentially, as the batch says), and feeds the
//! outcomes back; the orchestrator decides everything else.

use vstd::prelude::*;
use crate::actions::{
    alloc_ok, copies_of, first_failure, first_failure_at, genesis_calls_of, handles_of,
    init_vault_ok, instances_of, resize_ok, spawn_app_config, spawn_shape_ok, Action, Batch,
    StepOutcome,
};
use crate::errors::{ErrorKind, FailedOp, ProvisionError};
use crate::genesis::{
    build_genesis_plan, distribution_actions, distribution_ok, genesis_plan_ok, ips_of,
};
use crate::instance::{
    ApplicationConfig, Cluster, FullnodeConfig, Instance, InstanceConfig, LSRConfig, NodeHandle,
    ValidatorConfig, VaultConfig,
};
use crate::keys::vault_init_key_names;
use crate::names::{
    asg_name, asg_name_of, fullnode_pod_name, lsr_pod_name, node_url, validator_pod_name,
    vault_pod_name, NodeId,
};
use crate::params::{parse_lsr_backend, spec_backend_of, spec_enable_lsr, ClusterBuilderParams, LsrBackend};
use crate::settings::BuilderSettings;
use crate::topology::{required_instance_count, spec_required_instance_count};

verus! {

/// The owner of a bootstrap run: the workload version tag and the run's
/// fixed settings.
pub struct ClusterBuilder {
    pub current_tag: String,
    pub settings: BuilderSettings,
}

impl ClusterBuilder {
    pub fn new(current_tag: String, settings: BuilderSettings) -> (b: ClusterBuilder)
        ensures
            b.current_tag == current_tag,
            b.settings == settings,
    {
        ClusterBuilder { current_tag, settings }
    }
}

/// The phases of a run, in their strict order. Between two phases stands a
/// full barrier: no action of a later phase is emitted before every outcome
/// of the current one has been applied.
#[derive(Clone, Copy, PartialEq, Eq, Structural, Debug)]
pub enum Phase {
    /// Reset the scheduler; fatal if it fails.
    Cleanup,
    /// Learn the workspace name the compute pool is derived from.
    Workspace,
    /// On a clean run, drain the pool completely first.
    ScaleDown,
    /// On a clean run, scale up to the required capacity.
    ScaleUp,
    /// One secret-store node per validator (remote backend only).
    AllocateVaults,
    /// One signing-proxy node per validator (secret tier enabled).
    AllocateLsrs,
    /// Spawn secret-store and signing-proxy workloads.
    SpawnSecretTier,
    AllocateValidators,
    AllocateFullnodes,
    /// Create each secret-store node's key slots, with bounded retry.
    InitializeVaults,
    /// The strictly sequential genesis ceremony.
    RunGenesis,
    /// Fan the finalized artifact out to every validator node.
    DistributeGenesis,
    SpawnValidatorsAndFullnodes,
    Complete,
    Failed,
}

/// The full state of one bootstrap run.
#[derive(Debug)]
pub struct Orchestrator {
    pub num_validators: u32,
    pub fullnodes_per_validator: u32,
    pub enable_lsr: bool,
    pub backend: LsrBackend,
    /// The backend's name as given, passed through to signing-proxy configs.
    pub backend_name: String,
    pub image_tag: String,
    pub config_overrides: Vec<String>,
    pub clean_data: bool,
    pub settings: BuilderSettings,
    pub phase: Phase,
    pub workspace: String,
    pub vault_nodes: Vec<NodeHandle>,
    pub lsr_nodes: Vec<NodeHandle>,
    pub validator_nodes: Vec<NodeHandle>,
    pub fullnode_nodes: Vec<NodeHandle>,
    pub vault_instances: Vec<Instance>,
    pub lsr_instances: Vec<Instance>,
    pub validator_instances: Vec<Instance>,
    pub fullnode_instances: Vec<Instance>,
    pub artifact: Option<Vec<u8>>,
    pub failure: Option<ProvisionError>,
}

impl Orchestrator {
    pub open spec fn n(self) -> nat {
        self.num_validators as nat
    }

    pub open spec fn f(self) -> nat {
        self.fullnodes_per_validator as nat
    }

    /// Secret-store nodes the run allocates: one per validator, only when
    /// the tier is enabled with the remote backend.
    pub open spec fn vault_count(self) -> nat {
        if self.enable_lsr && self.backend == LsrBackend::Vault {
            self.n()
        } else {
            0
        }
    }

    /// Signing-proxy nodes the run allocates: one per validator when the
    /// tier is enabled.
    pub open spec fn lsr_count(self) -> nat {
        if self.enable_lsr {
            self.n()
        } else {
            0
        }
    }

    pub open spec fn fullnode_count(self) -> nat {
        self.n() * self.f()
    }

    /// Whether the run performs secret-tier initialization and the genesis
    /// ceremony: exactly when secret-store nodes exist.
    pub open spec fn uses_genesis(self) -> bool {
        self.vault_count() > 0
    }

    /// Before any allocation phase, no node or secret-tier instance list
    /// has been filled.
    pub open spec fn early_empty(self) -> bool {
        &&& self.vault_nodes@.len() == 0
        &&& self.lsr_nodes@.len() == 0
        &&& self.vault_instances@.len() == 0
        &&& self.lsr_instances@.len() == 0
    }

    /// Well-formedness: parameters in range, and every phase entered only
    /// with the node and instance lists its actions and successors need.
    pub open spec fn wf(self) -> bool {
        &&& self.num_validators >= 1
        &&& spec_required_instance_count(self.n(), self.f(), self.enable_lsr, self.backend)
            <= u32::MAX
        &&& (self.uses_genesis() ==> self.fullnodes_per_validator >= 1)
        &&& spec_backend_of(self.backend_name@) == Some(self.backend)
        &&& (self.failure is Some <==> self.phase is Failed)
        &&& match self.phase {
            Phase::Cleanup | Phase::Workspace => self.early_empty(),
            Phase::ScaleDown | Phase::ScaleUp => self.clean_data && self.early_empty(),
            Phase::AllocateVaults => self.vault_count() == self.n(),
            Phase::AllocateLsrs => {
                &&& self.enable_lsr
                &&& self.vault_nodes@.len() == self.vault_count()
            },
            Phase::SpawnSecretTier => {
                &&& self.enable_lsr
                &&& self.vault_nodes@.len() == self.vault_count()
                &&& self.lsr_nodes@.len() == self.lsr_count()
            },
            Phase::AllocateValidators => {
                &&& self.vault_nodes@.len() == self.vault_count()
                &&& self.lsr_nodes@.len() == self.lsr_count()
                &&& self.vault_instances@.len() == self.vault_count()
                &&& self.lsr_instances@.len() == self.lsr_count()
            },
            Phase::AllocateFullnodes => {
                &&& self.vault_nodes@.len() == self.vault_count()
                &&& self.lsr_nodes@.len() == self.lsr_count()
                &&& self.vault_instances@.len() == self.vault_count()
                &&& self.lsr_instances@.len() == self.lsr_count()
                &&& self.validator_nodes@.len() == self.n()
            },
            Phase::InitializeVaults | Phase::RunGenesis => {
                &&& self.uses_genesis()
                &&& self.vault_nodes@.len() == self.vault_count()
                &&& self.lsr_nodes@.len() == self.lsr_count()
                &&& self.vault_instances@.len() == self.vault_count()
                &&& self.lsr_instances@.len() == self.lsr_count()
                &&& self.validator_nodes@.len() == self.n()
                &&& self.fullnode_nodes@.len() == self.fullnode_count()
            },
            Phase::DistributeGenesis => {
                &&& self.uses_genesis()
                &&& self.vault_nodes@.len() == self.vault_count()
                &&& self.lsr_nodes@.len() == self.lsr_count()
                &&& self.vault_instances@.len() == self.vault_count()
                &&& self.lsr_instances@.len() == self.lsr_count()
                &&& self.validator_nodes@.len() == self.n()
                &&& self.fullnode_nodes@.len() == self.fullnode_count()
                &&& self.artifact is Some
            },
            Phase::SpawnValidatorsAndFullnodes => {
                &&& self.vault_nodes@.len() == self.vault_count()
                &&& self.lsr_nodes@.len() == self.lsr_count()
                &&& self.vault_instances@.len() == self.vault_count()
                &&& self.lsr_instances@.len() == self.lsr_count()
                &&& self.validator_nodes@.len() == self.n()
                &&& self.fullnode_nodes@.len() == self.fullnode_count()
            },
            Phase::Complete => {
                &&& self.vault_instances@.len() == self.vault_count()
                &&& self.lsr_instances@.len() == self.lsr_count()
                &&& self.validator_instances@.len() == self.n()
                &&& self.fullnode_instances@.len() == self.fullnode_count()
            },
            Phase::Failed => true,
        }
    }
}

/// The first allocation phase of a run: secret-store nodes when the remote
/// backend is in play, else signing-proxy nodes when the tier is enabled,
/// else validators.
pub open spec fn alloc_entry_phase(o: Orchestrator) -> Phase {
    if o.enable_lsr && o.backend == LsrBackend::Vault {
        Phase::AllocateVaults
    } else if o.enable_lsr {
        Phase::AllocateLsrs
    } else {
        Phase::AllocateValidators
    }
}

/// After the workspace is known: scale only on a clean run.
pub open spec fn after_workspace_phase(o: Orchestrator) -> Phase {
    if o.clean_data {
        Phase::ScaleDown
    } else {
        alloc_entry_phase(o)
    }
}

/// After fullnode allocation: initialize the secret tier when it exists,
/// else go straight to spawning.
pub open spec fn after_fullnode_alloc_phase(o: Orchestrator) -> Phase {
    if o.uses_genesis() {
        Phase::InitializeVaults
    } else {
        Phase::SpawnValidatorsAndFullnodes
    }
}

/// The parameters and settings of a run never change once it starts.
pub open spec fn params_preserved(pre: Orchestrator, post: Orchestrator) -> bool {
    &&& post.num_validators == pre.num_validators
    &&& post.fullnodes_per_validator == pre.fullnodes_per_validator
    &&& post.enable_lsr == pre.enable_lsr
    &&& post.backend == pre.backend
    &&& post.backend_name == pre.backend_name
    &&& post.image_tag == pre.image_tag
    &&& post.config_overrides == pre.config_overrides
    &&& post.clean_data == pre.clean_data
    &&& post.settings == pre.settings
}

/// The operation the error names when outcome `k` of the current phase's
/// batch is the one that failed.
pub open spec fn failed_op_for(pre: Orchestrator, k: int) -> FailedOp {
    if !(0 <= k <= u32::MAX) {
        FailedOp::DriverProtocol
    } else {
        failed_op_in_range(pre, k)
    }
}

pub open spec fn failed_op_in_range(pre: Orchestrator, k: int) -> FailedOp {
    match pre.phase {
        Phase::Cleanup => FailedOp::Cleanup,
        Phase::Workspace => FailedOp::GetWorkspace,
        Phase::ScaleDown => FailedOp::ScaleDown,
        Phase::ScaleUp => FailedOp::ScaleUp,
        Phase::AllocateVaults => FailedOp::Allocate(NodeId::Vault(k as u32)),
        Phase::AllocateLsrs => FailedOp::Allocate(NodeId::Lsr(k as u32)),
        Phase::SpawnSecretTier => {
            if k < pre.vault_count() {
                FailedOp::Spawn(NodeId::Vault(k as u32))
            } else {
                FailedOp::Spawn(NodeId::Lsr((k - pre.vault_count()) as u32))
            }
        },
        Phase::AllocateValidators => FailedOp::Allocate(NodeId::Validator(k as u32)),
        Phase::AllocateFullnodes => {
            if pre.f() == 0 {
                FailedOp::DriverProtocol
            } else {
                FailedOp::Allocate(
                    NodeId::Fullnode((k / pre.f() as int) as u32, (k % pre.f() as int) as u32),
                )
            }
        },
        Phase::InitializeVaults => FailedOp::VaultInit(k as u32),
        Phase::RunGenesis => FailedOp::GenesisStep(k as u32),
        Phase::DistributeGenesis => FailedOp::Distribute(k as u32),
        Phase::SpawnValidatorsAndFullnodes => {
            if k < pre.n() {
                FailedOp::Spawn(NodeId::Validator(k as u32))
            } else if pre.f() == 0 {
                FailedOp::DriverProtocol
            } else {
                FailedOp::Spawn(
                    NodeId::Fullnode(
                        ((k - pre.n()) / pre.f() as int) as u32,
                        ((k - pre.n()) % pre.f() as int) as u32,
                    ),
                )
            }
        },
        Phase::Complete | Phase::Failed => FailedOp::DriverProtocol,
    }
}

/// The run has moved to its failed state: the first failing outcome's kind
/// and message are kept, the error names the exact operation, and nothing
/// else of the state is touched.
pub open spec fn fail_with(pre: Orchestrator, results: Seq<StepOutcome>, post: Orchestrator) -> bool {
    &&& post == (Orchestrator { phase: Phase::Failed, failure: post.failure, ..pre })
    &&& post.failure is Some
    &&& exists|k: int|
        {
            &&& #[trigger] first_failure_at(results, k)
            &&& post.failure->Some_0.op == failed_op_for(pre, k)
            &&& post.failure->Some_0.kind == results[k]->Failure_0
            &&& post.failure->Some_0.detail == results[k]->Failure_1
        }
}

/// The driver handed outcomes of the wrong shape or number for the phase.
pub open spec fn protocol_fail(pre: Orchestrator, post: Orchestrator) -> bool {
    &&& post == (Orchestrator { phase: Phase::Failed, failure: post.failure, ..pre })
    &&& post.failure is Some
    &&& post.failure->Some_0.op == FailedOp::DriverProtocol
    &&& post.failure->Some_0.kind == ErrorKind::Configuration
}

pub open spec fn all_success(results: Seq<StepOutcome>) -> bool {
    forall|j: int| 0 <= j < results.len() ==> (#[trigger] results[j]) is Success
}

pub open spec fn all_allocated(results: Seq<StepOutcome>) -> bool {
    forall|j: int| 0 <= j < results.len() ==> (#[trigger] results[j]) is Allocated
}

pub open spec fn all_spawned(results: Seq<StepOutcome>) -> bool {
    forall|j: int| 0 <= j < results.len() ==> (#[trigger] results[j]) is Spawned
}

/// A successful genesis batch: every remote call succeeded and the final
/// read-back returned the artifact's bytes.
pub open spec fn genesis_results_ok(pre: Orchestrator, results: Seq<StepOutcome>) -> bool {
    &&& results.len() == 7 + 5 * pre.n()
    &&& forall|j: int| 0 <= j < results.len() - 1 ==> (#[trigger] results[j]) is Success
    &&& results[results.len() - 1] is ArtifactBytes
}

/// How one `apply` step moves the run from `pre` to `post`, given the
/// outcomes of the current phase's batch: a failure anywhere in the batch
/// fails the whole run naming the first failing operation; otherwise the
/// phase's results are recorded and the next phase is entered.
pub open spec fn transition_ok(
    pre: Orchestrator,
    results: Seq<StepOutcome>,
    post: Orchestrator,
) -> bool {
    if pre.phase is Complete || pre.phase is Failed {
        post == pre
    } else if exists|k: int| #[trigger] first_failure_at(results, k) {
        fail_with(pre, results, post)
    } else {
        match pre.phase {
            Phase::Cleanup => {
                if results.len() == 1 && results[0] is Success {
                    post == (Orchestrator { phase: Phase::Workspace, ..pre })
                } else {
                    protocol_fail(pre, post)
                }
            },
            Phase::Workspace => {
                if results.len() == 1 && results[0] is Workspace {
                    &&& post == (Orchestrator {
                        phase: after_workspace_phase(pre),
                        workspace: post.workspace,
                        ..pre
                    })
                    &&& post.workspace == results[0]->Workspace_0
                } else {
                    protocol_fail(pre, post)
                }
            },
            Phase::ScaleDown => {
                if results.len() == 1 && results[0] is Success {
                    post == (Orchestrator { phase: Phase::ScaleUp, ..pre })
                } else {
                    protocol_fail(pre, post)
                }
            },
            Phase::ScaleUp => {
                if results.len() == 1 && results[0] is Success {
                    post == (Orchestrator { phase: alloc_entry_phase(pre), ..pre })
                } else {
                    protocol_fail(pre, post)
                }
            },
            Phase::AllocateVaults => {
                if results.len() == pre.n() && all_allocated(results) {
                    &&& post == (Orchestrator {
                        phase: Phase::AllocateLsrs,
                        vault_nodes: post.vault_nodes,
                        ..pre
                    })
                    &&& post.vault_nodes@ == handles_of(results)
                } else {
                    protocol_fail(pre, post)
                }
            },
            Phase::AllocateLsrs => {
                if results.len() == pre.n() && all_allocated(results) {
                    &&& post == (Orchestrator {
                        phase: Phase::SpawnSecretTier,
                        lsr_nodes: post.lsr_nodes,
                        ..pre
                    })
                    &&& post.lsr_nodes@ == handles_of(results)
                } else {
                    protocol_fail(pre, post)
                }
            },
            Phase::SpawnSecretTier => {
                if results.len() == pre.vault_count() + pre.lsr_count() && all_spawned(results) {
                    &&& post == (Orchestrator {
                        phase: Phase::AllocateValidators,
                        vault_instances: post.vault_instances,
                        lsr_instances: post.lsr_instances,
                        ..pre
                    })
                    &&& post.vault_instances@ == instances_of(
                        results.subrange(0, pre.vault_count() as int),
                    )
                    &&& post.lsr_instances@ == instances_of(
                        results.subrange(pre.vault_count() as int, results.len() as int),
                    )
                } else {
                    protocol_fail(pre, post)
                }
            },
            Phase::AllocateValidators => {
                if results.len() == pre.n() && all_allocated(results) {
                    &&& post == (Orchestrator {
                        phase: Phase::AllocateFullnodes,
                        validator_nodes: post.validator_nodes,
                        ..pre
                    })
                    &&& post.validator_nodes@ == handles_of(results)
                } else {
                    protocol_fail(pre, post)
                }
            },
            Phase::AllocateFullnodes => {
                if results.len() == pre.fullnode_count() && all_allocated(results) {
                    &&& post == (Orchestrator {
                        phase: after_fullnode_alloc_phase(pre),
                        fullnode_nodes: post.fullnode_nodes,
                        ..pre
                    })
                    &&& post.fullnode_nodes@ == handles_of(results)
                } else {
                    protocol_fail(pre, post)
                }
            },
            Phase::InitializeVaults => {
                if results.len() == pre.n() && all_success(results) {
                    post == (Orchestrator { phase: Phase::RunGenesis, ..pre })
                } else {
                    protocol_fail(pre, post)
                }
            },
            Phase::RunGenesis => {
                if genesis_results_ok(pre, results) {
                    &&& post == (Orchestrator {
                        phase: Phase::DistributeGenesis,
                        artifact: post.artifact,
                        ..pre
                    })
                    &&& post.artifact is Some
                    &&& post.artifact->Some_0@ == results[results.len() - 1]->ArtifactBytes_0@
                } else {
                    protocol_fail(pre, post)
                }
            },
            Phase::DistributeGenesis => {
                if results.len() == pre.n() && all_success(results) {
                    post == (Orchestrator { phase: Phase::SpawnValidatorsAndFullnodes, ..pre })
                } else {
                    protocol_fail(pre, post)
                }
            },
            Phase::SpawnValidatorsAndFullnodes => {
                if results.len() == pre.n() + pre.fullnode_count() && all_spawned(results) {
                    &&& post == (Orchestrator {
                        phase: Phase::Complete,
                        validator_instances: post.validator_instances,
                        fullnode_instances: post.fullnode_instances,
                        ..pre
                    })
                    &&& post.validator_instances@ == instances_of(
                        results.subrange(0, pre.n() as int),
                    )
                    &&& post.fullnode_instances@ == instances_of(
                        results.subrange(pre.n() as int, results.len() as int),
                    )
                } else {
                    protocol_fail(pre, post)
                }
            },
            Phase::Complete | Phase::Failed => false,
        }
    }
}

/// An equal copy of a list of strings.
fn clone_strings(v: &Vec<String>) -> (r: Vec<String>)
    ensures
        r@ == v@,
{
    let mut r: Vec<String> = Vec::new();
    let mut k: usize = 0;
    while k < v.len()
        invariant
            k <= v@.len(),
            r@.len() == k,
            forall|j: int| 0 <= j < k ==> r@[j] == v@[j],
        decreases v@.len() - k,
    {
        r.push(v[k].clone());
        k = k + 1;
    }
    proof {
        assert(r@ =~= v@);
    }
    r
}

/// `a` spawns validator `i`'s secret-store workload on its allocated node.
pub open spec fn spawn_vault_ok(a: Action, o: Orchestrator, i: int) -> bool {
    &&& spawn_shape_ok(a, o.vault_nodes@[i].name@, o.clean_data, i as u32)
    &&& spawn_app_config(a) is Vault
}

/// `a` spawns validator `i`'s signing-proxy workload on its allocated node.
pub open spec fn spawn_lsr_ok(a: Action, o: Orchestrator, i: int) -> bool {
    &&& spawn_shape_ok(a, o.lsr_nodes@[i].name@, o.clean_data, i as u32)
    &&& match spawn_app_config(a) {
        ApplicationConfig::LSR(c) => {
            &&& c.num_validators == o.num_validators
            &&& c.image_tag@ == o.image_tag@
            &&& c.lsr_backend@ == o.backend_name@
        },
        _ => false,
    }
}

pub open spec fn spawn_lsr_at(acts: Seq<Action>, base: int, i: int, o: Orchestrator) -> bool {
    spawn_lsr_ok(acts[base + i], o, i)
}

/// `a` spawns validator `i` on its allocated node: peer-seeded from
/// validator 0's address, with a signing-proxy address exactly when the
/// tier is enabled, and the run's overrides passed through verbatim.
pub open spec fn spawn_validator_ok(a: Action, o: Orchestrator, i: int) -> bool {
    &&& spawn_shape_ok(a, o.validator_nodes@[i].name@, o.clean_data, i as u32)
    &&& match spawn_app_config(a) {
        ApplicationConfig::Validator(c) => {
            &&& c.num_validators == o.num_validators
            &&& c.num_fullnodes == o.fullnodes_per_validator
            &&& c.enable_lsr == o.enable_lsr
            &&& c.image_tag@ == o.image_tag@
            &&& c.config_overrides@ == o.config_overrides@
            &&& c.seed_peer_ip@ == o.validator_nodes@[0].internal_ip@
            &&& (o.enable_lsr ==> c.safety_rules_addr is Some && c.safety_rules_addr->Some_0@
                == o.lsr_nodes@[i].internal_ip@)
            &&& (!o.enable_lsr ==> c.safety_rules_addr is None)
        },
        _ => false,
    }
}

/// `a` spawns fullnode `k % f` of validator `k / f` on the node allocated
/// at flat index `k`, peer-seeded from its own validator's address.
pub open spec fn spawn_fullnode_ok(a: Action, o: Orchestrator, k: int) -> bool {
    let v = k / o.f() as int;
    let fi = k % o.f() as int;
    &&& spawn_shape_ok(a, o.fullnode_nodes@[k].name@, o.clean_data, v as u32)
    &&& match spawn_app_config(a) {
        ApplicationConfig::Fullnode(c) => {
            &&& c.fullnode_index == fi as u32
            &&& c.num_fullnodes_per_validator == o.fullnodes_per_validator
            &&& c.num_validators == o.num_validators
            &&& c.image_tag@ == o.image_tag@
            &&& c.config_overrides@ == o.config_overrides@
            &&& c.seed_peer_ip@ == o.validator_nodes@[v].internal_ip@
        },
        _ => false,
    }
}

pub open spec fn spawn_fullnode_at(acts: Seq<Action>, base: int, k: int, o: Orchestrator) -> bool {
    spawn_fullnode_ok(acts[base + k], o, k)
}

pub open spec fn fullnode_alloc_at(acts: Seq<Action>, k: int, o: Orchestrator) -> bool {
    alloc_ok(
        acts[k],
        NodeId::Fullnode((k / o.f() as int) as u32, (k % o.f() as int) as u32),
    )
}

pub open spec fn init_vault_at(acts: Seq<Action>, i: int, o: Orchestrator) -> bool {
    init_vault_ok(acts[i], i as u32, ips_of(o.vault_nodes@)[i], o.settings)
}

/// What the current phase's batch holds, action by action.
pub open spec fn batch_ok(o: Orchestrator, b: Batch) -> bool {
    let acts = b.actions@;
    match o.phase {
        Phase::Cleanup => !b.sequential && acts == seq![Action::Cleanup],
        Phase::Workspace => !b.sequential && acts == seq![Action::GetWorkspace],
        Phase::ScaleDown => {
            &&& !b.sequential
            &&& acts.len() == 1
            &&& resize_ok(acts[0], asg_name_of(o.workspace@), 0, 0, true, true)
        },
        Phase::ScaleUp => {
            &&& !b.sequential
            &&& acts.len() == 1
            &&& resize_ok(
                acts[0],
                asg_name_of(o.workspace@),
                spec_required_instance_count(o.n(), o.f(), o.enable_lsr, o.backend) as u32,
                5,
                true,
                false,
            )
        },
        Phase::AllocateVaults => {
            &&& !b.sequential
            &&& acts.len() == o.n()
            &&& forall|i: int| 0 <= i < o.n() ==> alloc_ok(#[trigger] acts[i], NodeId::Vault(i as u32))
        },
        Phase::AllocateLsrs => {
            &&& !b.sequential
            &&& acts.len() == o.n()
            &&& forall|i: int| 0 <= i < o.n() ==> alloc_ok(#[trigger] acts[i], NodeId::Lsr(i as u32))
        },
        Phase::SpawnSecretTier => {
            &&& !b.sequential
            &&& acts.len() == o.vault_count() + o.lsr_count()
            &&& forall|i: int| 0 <= i < o.vault_count() ==> spawn_vault_ok(#[trigger] acts[i], o, i)
            &&& forall|i: int|
                0 <= i < o.lsr_count() ==> #[trigger] spawn_lsr_at(
                    acts,
                    o.vault_count() as int,
                    i,
                    o,
                )
        },
        Phase::AllocateValidators => {
            &&& !b.sequential
            &&& acts.len() == o.n()
            &&& forall|i: int|
                0 <= i < o.n() ==> alloc_ok(#[trigger] acts[i], NodeId::Validator(i as u32))
        },
        Phase::AllocateFullnodes => {
            &&& !b.sequential
            &&& acts.len() == o.fullnode_count()
            &&& forall|k: int| 0 <= k < o.fullnode_count() ==> #[trigger] fullnode_alloc_at(acts, k, o)
        },
        Phase::InitializeVaults => {
            &&& !b.sequential
            &&& acts.len() == o.n()
            &&& forall|i: int| 0 <= i < o.n() ==> #[trigger] init_vault_at(acts, i, o)
        },
        Phase::RunGenesis => {
            &&& b.sequential
            &&& forall|k: int| 0 <= k < acts.len() ==> (#[trigger] acts[k]) is Genesis
            &&& genesis_plan_ok(
                genesis_calls_of(acts),
                o.n(),
                ips_of(o.vault_nodes@),
                ips_of(o.validator_nodes@),
                ips_of(o.fullnode_nodes@),
                o.settings,
            )
        },
        Phase::DistributeGenesis => {
            &&& !b.sequential
            &&& forall|k: int| 0 <= k < acts.len() ==> (#[trigger] acts[k]) is CopyToNode
            &&& distribution_ok(
                copies_of(acts),
                o.validator_nodes@,
                o.artifact->Some_0@,
                o.settings,
            )
        },
        Phase::SpawnValidatorsAndFullnodes => {
            &&& !b.sequential
            &&& acts.len() == o.n() + o.fullnode_count()
            &&& forall|i: int| 0 <= i < o.n() ==> spawn_validator_ok(#[trigger] acts[i], o, i)
            &&& forall|k: int|
                0 <= k < o.fullnode_count() ==> #[trigger] spawn_fullnode_at(
                    acts,
                    o.n() as int,
                    k,
                    o,
                )
        },
        Phase::Complete | Phase::Failed => acts.len() == 0,
    }
}

/// Collects the handles of a batch of allocation outcomes, or reports that
/// some outcome is not an allocation.
fn collect_handles(results: &Vec<StepOutcome>) -> (r: Option<Vec<NodeHandle>>)
    ensures
        match r {
            Some(v) => all_allocated(results@) && v@ == handles_of(results@),
            None => !all_allocated(results@),
        },
{
    let mut v: Vec<NodeHandle> = Vec::new();
    let mut k: usize = 0;
    while k < results.len()
        invariant
            k <= results@.len(),
            v@.len() == k,
            forall|j: int| 0 <= j < k ==> (#[trigger] results@[j]) is Allocated,
            forall|j: int| 0 <= j < k ==> v@[j] == handles_of(results@)[j],
        decreases results@.len() - k,
    {
        match &results[k] {
            StepOutcome::Allocated(h) => {
                v.push(h.duplicate());
            },
            _ => {
                return None;
            },
        }
        k = k + 1;
    }
    proof {
        assert(v@ =~= handles_of(results@));
    }
    Some(v)
}

/// Collects the instances of the outcomes at positions `from..to`, or
/// reports that one of them is not a spawn result.
fn collect_instances_range(results: &Vec<StepOutcome>, from: usize, to: usize) -> (r: Option<
    Vec<Instance>,
>)
    requires
        from <= to <= results@.len(),
    ensures
        match r {
            Some(v) => {
                &&& forall|j: int| from <= j < to ==> (#[trigger] results@[j]) is Spawned
                &&& v@ == instances_of(results@.subrange(from as int, to as int))
            },
            None => !(forall|j: int| from <= j < to ==> (#[trigger] results@[j]) is Spawned),
        },
{
    let mut v: Vec<Instance> = Vec::new();
    let mut k: usize = from;
    while k < to
        invariant
            from <= k <= to <= results@.len(),
            v@.len() == k - from,
            forall|j: int| from <= j < k ==> (#[trigger] results@[j]) is Spawned,
            forall|j: int| from <= j < k ==> v@[j - from] == instances_of(results@)[j],
        decreases to - k,
    {
        match &results[k] {
            StepOutcome::Spawned(inst) => {
                v.push(inst.duplicate());
            },
            _ => {
                return None;
            },
        }
        k = k + 1;
    }
    proof {
        assert forall|m: int| 0 <= m < v@.len() implies v@[m] == instances_of(
            results@.subrange(from as int, to as int),
        )[m] by {
            assert(results@.subrange(from as int, to as int)[m] == results@[from + m]);
            assert(v@[m] == instances_of(results@)[from + m]);
        }
        assert(v@ =~= instances_of(results@.subrange(from as int, to as int)));
    }
    Some(v)
}

/// Whether every outcome is a plain success.
fn check_all_success(results: &Vec<StepOutcome>) -> (b: bool)
    ensures
        b == all_success(results@),
{
    let mut k: usize = 0;
    while k < results.len()
        invariant
            k <= results@.len(),
            forall|j: int| 0 <= j < k ==> (#[trigger] results@[j]) is Success,
        decreases results@.len() - k,
    {
        match &results[k] {
            StepOutcome::Success => {},
            _ => {
                return false;
            },
        }
        k = k + 1;
    }
    true
}

/// An equal copy of a byte vector.
fn clone_bytes(v: &Vec<u8>) -> (r: Vec<u8>)
    ensures
        r@ == v@,
{
    let mut r: Vec<u8> = Vec::new();
    let mut k: usize = 0;
    while k < v.len()
        invariant
            k <= v@.len(),
            r@.len() == k,
            forall|j: int| 0 <= j < k ==> r@[j] == v@[j],
        decreases v@.len() - k,
    {
        r.push(v[k]);
        k = k + 1;
    }
    proof {
        assert(r@ =~= v@);
    }
    r
}

/// Law: with the secret tier disabled, no well-formed run state stands in a
/// secret-tier or genesis phase: the tier's nodes are never allocated or
/// spawned, its stores are never initialized, and the genesis ceremony and
/// distribution never run.
pub proof fn lemma_disabled_tier_never_initializes(o: Orchestrator)
    requires
        o.wf(),
        !o.enable_lsr,
    ensures
        !(o.phase is AllocateVaults),
        !(o.phase is AllocateLsrs),
        !(o.phase is SpawnSecretTier),
        !(o.phase is InitializeVaults),
        !(o.phase is RunGenesis),
        !(o.phase is DistributeGenesis),
{
}

/// Law: with the secret tier enabled but a local backend, no secret-store
/// node exists, so initialization, genesis and distribution still never run.
pub proof fn lemma_local_backend_never_initializes(o: Orchestrator)
    requires
        o.wf(),
        o.backend != LsrBackend::Vault,
    ensures
        !(o.phase is AllocateVaults),
        !(o.phase is InitializeVaults),
        !(o.phase is RunGenesis),
        !(o.phase is DistributeGenesis),
{
}

/// Position of a phase in the run's strict order.
pub open spec fn phase_rank(p: Phase) -> nat {
    match p {
        Phase::Cleanup => 0,
        Phase::Workspace => 1,
        Phase::ScaleDown => 2,
        Phase::ScaleUp => 3,
        Phase::AllocateVaults => 4,
        Phase::AllocateLsrs => 5,
        Phase::SpawnSecretTier => 6,
        Phase::AllocateValidators => 7,
        Phase::AllocateFullnodes => 8,
        Phase::InitializeVaults => 9,
        Phase::RunGenesis => 10,
        Phase::DistributeGenesis => 11,
        Phase::SpawnValidatorsAndFullnodes => 12,
        Phase::Complete => 13,
        Phase::Failed => 14,
    }
}

/// Law: the phases form a strict order with a full barrier between them.
/// Applying a batch's outcomes always moves the run strictly forward —
/// no phase is ever re-entered, and no phase is entered before every
/// outcome of the one before it has been applied.
pub proof fn lemma_phases_strictly_ordered(
    pre: Orchestrator,
    results: Seq<StepOutcome>,
    post: Orchestrator,
)
    requires
        transition_ok(pre, results, post),
        !(pre.phase is Complete),
        !(pre.phase is Failed),
    ensures
        phase_rank(post.phase) > phase_rank(pre.phase),
{
}

/// Law: the genesis artifact is produced exactly once and never mutated
/// after the ceremony that read it back; every other step of the run
/// leaves it untouched.
pub proof fn lemma_artifact_immutable(
    pre: Orchestrator,
    results: Seq<StepOutcome>,
    post: Orchestrator,
)
    requires
        transition_ok(pre, results, post),
        !(pre.phase is RunGenesis),
    ensures
        post.artifact == pre.artifact,
{
}

/// Law: failure propagation. Whatever the phase, if outcome `k` of its
/// batch is the first failure, the run moves to its failed state, keeps the
/// failing outcome's kind and message, names the exact operation — the
/// role and indices of outcome `k` — and touches nothing else of the run's
/// state; no later phase's action is ever emitted from a failed run.
pub proof fn lemma_failure_identifies_operation(
    pre: Orchestrator,
    results: Seq<StepOutcome>,
    post: Orchestrator,
    k: int,
)
    requires
        transition_ok(pre, results, post),
        !(pre.phase is Complete),
        !(pre.phase is Failed),
        first_failure_at(results, k),
    ensures
        post.phase is Failed,
        post.failure is Some,
        post.failure->Some_0.op == failed_op_for(pre, k),
        post.failure->Some_0.kind == results[k]->Failure_0,
        post.failure->Some_0.detail == results[k]->Failure_1,
        params_preserved(pre, post),
        post.vault_nodes == pre.vault_nodes,
        post.lsr_nodes == pre.lsr_nodes,
        post.validator_nodes == pre.validator_nodes,
        post.fullnode_nodes == pre.fullnode_nodes,
{
    assert(exists|j: int| #[trigger] first_failure_at(results, j));
    let j = choose|j: int| #[trigger] first_failure_at(results, j)
        && post.failure->Some_0.op == failed_op_for(pre, j)
        && post.failure->Some_0.kind == results[j]->Failure_0
        && post.failure->Some_0.detail == results[j]->Failure_1;
    if j < k {
        assert(!(results[j] is Failure));
        assert(false);
    } else if k < j {
        assert(!(results[k] is Failure));
        assert(false);
    }
}

impl Orchestrator {
    /// Begins a bootstrap run. Rejects an unknown backend name as a fatal
    /// configuration error before anything is provisioned.
    pub fn start(
        builder: &ClusterBuilder,
        params: &ClusterBuilderParams,
        clean_data: bool,
    ) -> (r: Result<Orchestrator, ProvisionError>)
        requires
            params.num_validators >= 1,
            spec_required_instance_count(
                params.num_validators as nat,
                params.fullnodes_per_validator as nat,
                spec_enable_lsr(params),
                LsrBackend::Vault,
            ) <= u32::MAX,
            (spec_enable_lsr(params) && spec_backend_of(params.lsr_backend@) == Some(
                LsrBackend::Vault,
            )) ==> params.fullnodes_per_validator >= 1,
        ensures
            match r {
                Ok(o) => {
                    &&& o.wf()
                    &&& o.phase is Cleanup
                    &&& o.num_validators == params.num_validators
                    &&& o.fullnodes_per_validator == params.fullnodes_per_validator
                    &&& o.enable_lsr == spec_enable_lsr(params)
                    &&& Some(o.backend) == spec_backend_of(params.lsr_backend@)
                    &&& o.backend_name@ == params.lsr_backend@
                    &&& o.image_tag == builder.current_tag
                    &&& o.settings == builder.settings
                    &&& o.clean_data == clean_data
                    &&& o.config_overrides@.len() == params.cfg@.len() + 1
                    &&& o.config_overrides@[0]@ == "prune_window=50000"@
                    &&& o.config_overrides@.skip(1) == params.cfg@
                },
                Err(e) => {
                    &&& spec_backend_of(params.lsr_backend@) is None
                    &&& e.kind == ErrorKind::Configuration
                },
            },
    {
        let backend = match parse_lsr_backend(&params.lsr_backend) {
            Ok(b) => b,
            Err(e) => {
                return Err(e);
            },
        };
        let o = Orchestrator {
            num_validators: params.num_validators,
            fullnodes_per_validator: params.fullnodes_per_validator,
            enable_lsr: params.enable_lsr(),
            backend,
            backend_name: params.lsr_backend.clone(),
            image_tag: builder.current_tag.clone(),
            config_overrides: params.cfg_overrides(),
            clean_data,
            settings: builder.settings.duplicate(),
            phase: Phase::Cleanup,
            workspace: String::new(),
            vault_nodes: Vec::new(),
            lsr_nodes: Vec::new(),
            validator_nodes: Vec::new(),
            fullnode_nodes: Vec::new(),
            vault_instances: Vec::new(),
            lsr_instances: Vec::new(),
            validator_instances: Vec::new(),
            fullnode_instances: Vec::new(),
            artifact: None,
            failure: None,
        };
        Ok(o)
    }

    /// The actions of the current phase. The driver performs them — all of
    /// them, concurrently unless the batch is sequential — and hands the
    /// outcomes, one per action in order, to `apply`. A completed or failed
    /// run emits nothing.
    pub fn next_batch(&self) -> (b: Batch)
        requires
            self.wf(),
        ensures
            batch_ok(*self, b),
    {
        match self.phase {
            Phase::Cleanup => {
                let mut actions: Vec<Action> = Vec::new();
                actions.push(Action::Cleanup);
                proof {
                    assert(actions@ =~= seq![Action::Cleanup]);
                }
                Batch { sequential: false, actions }
            },
            Phase::Workspace => {
                let mut actions: Vec<Action> = Vec::new();
                actions.push(Action::GetWorkspace);
                proof {
                    assert(actions@ =~= seq![Action::GetWorkspace]);
                }
                Batch { sequential: false, actions }
            },
            Phase::ScaleDown => {
                let mut actions: Vec<Action> = Vec::new();
                actions.push(Action::Resize {
                    asg_name: asg_name(&self.workspace),
                    target: 0,
                    min_healthy_percent: 0,
                    wait_scale_up: true,
                    wait_scale_down: true,
                });
                Batch { sequential: false, actions }
            },
            Phase::ScaleUp => {
                let target = required_instance_count(
                    self.num_validators,
                    self.fullnodes_per_validator,
                    self.enable_lsr,
                    self.backend,
                );
                let mut actions: Vec<Action> = Vec::new();
                actions.push(Action::Resize {
                    asg_name: asg_name(&self.workspace),
                    target,
                    min_healthy_percent: 5,
                    wait_scale_up: true,
                    wait_scale_down: false,
                });
                Batch { sequential: false, actions }
            },
            Phase::AllocateVaults => {
                let mut actions: Vec<Action> = Vec::new();
                let mut i: u32 = 0;
                while i < self.num_validators
                    invariant
                        i <= self.num_validators,
                        actions@.len() == i,
                        forall|j: int|
                            0 <= j < i ==> alloc_ok(#[trigger] actions@[j], NodeId::Vault(j as u32)),
                    decreases self.num_validators - i,
                {
                    actions.push(Action::AllocateNode { id: NodeId::Vault(i), name: vault_pod_name(i) });
                    i = i + 1;
                }
                Batch { sequential: false, actions }
            },
            Phase::AllocateLsrs => {
                let mut actions: Vec<Action> = Vec::new();
                let mut i: u32 = 0;
                while i < self.num_validators
                    invariant
                        i <= self.num_validators,
                        actions@.len() == i,
                        forall|j: int|
                            0 <= j < i ==> alloc_ok(#[trigger] actions@[j], NodeId::Lsr(j as u32)),
                    decreases self.num_validators - i,
                {
                    actions.push(Action::AllocateNode { id: NodeId::Lsr(i), name: lsr_pod_name(i) });
                    i = i + 1;
                }
                Batch { sequential: false, actions }
            },
            Phase::SpawnSecretTier => {
                let vault_total: usize = self.vault_nodes.len();
                let mut actions: Vec<Action> = Vec::new();
                let mut i: usize = 0;
                while i < vault_total
                    invariant
                        i <= vault_total,
                        vault_total == self.vault_count(),
                        self.vault_nodes@.len() == self.vault_count(),
                        actions@.len() == i,
                        forall|j: int| 0 <= j < i ==> spawn_vault_ok(#[trigger] actions@[j], *self, j),
                    decreases vault_total - i,
                {
                    proof {
                        assert(self.vault_count() <= self.n() <= u32::MAX);
                    }
                    actions.push(Action::SpawnInstance {
                        node_name: self.vault_nodes[i].name.clone(),
                        wipe_data: self.clean_data,
                        config: InstanceConfig {
                            validator_group: i as u32,
                            application_config: ApplicationConfig::Vault(VaultConfig {}),
                        },
                    });
                    i = i + 1;
                }
                let lsr_total: usize = self.lsr_nodes.len();
                let mut l: usize = 0;
                while l < lsr_total
                    invariant
                        l <= lsr_total,
                        vault_total == self.vault_count(),
                        lsr_total == self.lsr_count(),
                        self.vault_nodes@.len() == self.vault_count(),
                        self.lsr_nodes@.len() == self.lsr_count(),
                        actions@.len() == vault_total + l,
                        forall|j: int|
                            0 <= j < vault_total ==> spawn_vault_ok(#[trigger] actions@[j], *self, j),
                        forall|j: int|
                            0 <= j < l ==> #[trigger] spawn_lsr_at(
                                actions@,
                                vault_total as int,
                                j,
                                *self,
                            ),
                    decreases lsr_total - l,
                {
                    let ghost before = actions@;
                    proof {
                        assert(self.lsr_count() <= self.n() <= u32::MAX);
                    }
                    actions.push(Action::SpawnInstance {
                        node_name: self.lsr_nodes[l].name.clone(),
                        wipe_data: self.clean_data,
                        config: InstanceConfig {
                            validator_group: l as u32,
                            application_config: ApplicationConfig::LSR(LSRConfig {
                                num_validators: self.num_validators,
                                image_tag: self.image_tag.clone(),
                                lsr_backend: self.backend_name.clone(),
                            }),
                        },
                    });
                    proof {
                        assert forall|j: int| 0 <= j < l + 1 implies #[trigger] spawn_lsr_at(
                            actions@,
                            vault_total as int,
                            j,
                            *self,
                        ) by {
                            if j < l {
                                assert(spawn_lsr_at(before, vault_total as int, j, *self));
                                assert(actions@[vault_total + j] == before[vault_total + j]);
                            } else {
                                assert(actions@[vault_total + j] == actions@[actions@.len() - 1]);
                            }
                        }
                    }
                    l = l + 1;
                }
                Batch { sequential: false, actions }
            },
            Phase::AllocateValidators => {
                let mut actions: Vec<Action> = Vec::new();
                let mut i: u32 = 0;
                while i < self.num_validators
                    invariant
                        i <= self.num_validators,
                        actions@.len() == i,
                        forall|j: int|
                            0 <= j < i ==> alloc_ok(
                                #[trigger] actions@[j],
                                NodeId::Validator(j as u32),
                            ),
                    decreases self.num_validators - i,
                {
                    actions.push(Action::AllocateNode {
                        id: NodeId::Validator(i),
                        name: validator_pod_name(i),
                    });
                    i = i + 1;
                }
                Batch { sequential: false, actions }
            },
            Phase::AllocateFullnodes => {
                proof {
                    crate::topology::lemma_fullnode_count_fits(
                        self.n(),
                        self.f(),
                        self.enable_lsr,
                        self.backend,
                    );
                }
                let total: u32 = self.num_validators * self.fullnodes_per_validator;
                let mut actions: Vec<Action> = Vec::new();
                let mut k: u32 = 0;
                while k < total
                    invariant
                        k <= total,
                        total == self.fullnode_count(),
                        actions@.len() == k,
                        forall|j: int| 0 <= j < k ==> #[trigger] fullnode_alloc_at(actions@, j, *self),
                    decreases total - k,
                {
                    proof {
                        if self.fullnodes_per_validator == 0 {
                            vstd::arithmetic::mul::lemma_mul_basics(self.n() as int);
                            assert(self.fullnode_count() == 0);
                            assert(false);
                        }
                    }
                    let v = k / self.fullnodes_per_validator;
                    let fi = k % self.fullnodes_per_validator;
                    let ghost before = actions@;
                    actions.push(Action::AllocateNode {
                        id: NodeId::Fullnode(v, fi),
                        name: fullnode_pod_name(v, fi),
                    });
                    proof {
                        assert forall|j: int| 0 <= j < k + 1 implies #[trigger] fullnode_alloc_at(
                            actions@,
                            j,
                            *self,
                        ) by {
                            if j < k {
                                assert(fullnode_alloc_at(before, j, *self));
                                assert(actions@[j] == before[j]);
                            } else {
                                assert(actions@[j] == actions@[actions@.len() - 1]);
                            }
                        }
                    }
                    k = k + 1;
                }
                Batch { sequential: false, actions }
            },
            Phase::InitializeVaults => {
                let mut actions: Vec<Action> = Vec::new();
                let mut i: u32 = 0;
                while i < self.num_validators
                    invariant
                        i <= self.num_validators,
                        self.wf(),
                        self.phase is InitializeVaults,
                        actions@.len() == i,
                        forall|j: int| 0 <= j < i ==> #[trigger] init_vault_at(actions@, j, *self),
                    decreases self.num_validators - i,
                {
                    let ghost before = actions@;
                    actions.push(Action::CreateKeySlots {
                        validator_index: i,
                        url: node_url(&self.vault_nodes[i as usize].internal_ip, self.settings.vault_port),
                        token: self.settings.vault_token.clone(),
                        keys: vault_init_key_names(&self.settings.libra_root_name, i),
                        retry: self.settings.retry,
                    });
                    proof {
                        assert forall|j: int| 0 <= j < i + 1 implies #[trigger] init_vault_at(
                            actions@,
                            j,
                            *self,
                        ) by {
                            if j < i {
                                assert(init_vault_at(before, j, *self));
                                assert(actions@[j] == before[j]);
                            } else {
                                assert(actions@[j] == actions@[actions@.len() - 1]);
                            }
                        }
                    }
                    i = i + 1;
                }
                Batch { sequential: false, actions }
            },
            Phase::RunGenesis => {
                proof {
                    assert(self.n() * self.f() >= self.n() * 1) by (nonlinear_arith)
                        requires
                            self.f() >= 1,
                            self.n() >= 0,
                    ;
                    vstd::arithmetic::mul::lemma_mul_basics(self.n() as int);
                }
                let plan = build_genesis_plan(
                    self.num_validators,
                    &self.vault_nodes,
                    &self.validator_nodes,
                    &self.fullnode_nodes,
                    &self.settings,
                );
                let ghost orig = plan@;
                let mut plan = plan;
                let mut actions: Vec<Action> = Vec::new();
                while plan.len() > 0
                    invariant
                        actions@.len() + plan@.len() == orig.len(),
                        plan@ == orig.skip(actions@.len() as int),
                        forall|j: int|
                            0 <= j < actions@.len() ==> (#[trigger] actions@[j]) == Action::Genesis(
                                orig[j],
                            ),
                    decreases plan@.len(),
                {
                    let c = plan.remove(0);
                    actions.push(Action::Genesis(c));
                    proof {
                        assert(plan@ =~= orig.skip(actions@.len() as int));
                    }
                }
                proof {
                    assert(genesis_calls_of(actions@) =~= orig);
                }
                Batch { sequential: true, actions }
            },
            Phase::DistributeGenesis => {
                let copies = match &self.artifact {
                    Some(bytes) => distribution_actions(&self.validator_nodes, bytes, &self.settings),
                    None => {
                        proof {
                            assert(false);
                        }
                        Vec::new()
                    },
                };
                let ghost orig = copies@;
                let mut copies = copies;
                let mut actions: Vec<Action> = Vec::new();
                while copies.len() > 0
                    invariant
                        actions@.len() + copies@.len() == orig.len(),
                        copies@ == orig.skip(actions@.len() as int),
                        forall|j: int|
                            0 <= j < actions@.len() ==> (#[trigger] actions@[j])
                                == Action::CopyToNode(orig[j]),
                    decreases copies@.len(),
                {
                    let c = copies.remove(0);
                    actions.push(Action::CopyToNode(c));
                    proof {
                        assert(copies@ =~= orig.skip(actions@.len() as int));
                    }
                }
                proof {
                    assert(copies_of(actions@) =~= orig);
                }
                Batch { sequential: false, actions }
            },
            Phase::SpawnValidatorsAndFullnodes => {
                let n_total: usize = self.validator_nodes.len();
                let mut actions: Vec<Action> = Vec::new();
                let mut i: usize = 0;
                while i < n_total
                    invariant
                        i <= n_total,
                        self.wf(),
                        self.phase is SpawnValidatorsAndFullnodes,
                        n_total == self.n(),
                        actions@.len() == i,
                        forall|j: int|
                            0 <= j < i ==> spawn_validator_ok(#[trigger] actions@[j], *self, j),
                    decreases n_total - i,
                {
                    let safety_rules_addr = if self.enable_lsr {
                        Some(self.lsr_nodes[i].internal_ip.clone())
                    } else {
                        None
                    };
                    actions.push(Action::SpawnInstance {
                        node_name: self.validator_nodes[i].name.clone(),
                        wipe_data: self.clean_data,
                        config: InstanceConfig {
                            validator_group: i as u32,
                            application_config: ApplicationConfig::Validator(ValidatorConfig {
                                num_validators: self.num_validators,
                                num_fullnodes: self.fullnodes_per_validator,
                                enable_lsr: self.enable_lsr,
                                image_tag: self.image_tag.clone(),
                                config_overrides: clone_strings(&self.config_overrides),
                                seed_peer_ip: self.validator_nodes[0].internal_ip.clone(),
                                safety_rules_addr,
                            }),
                        },
                    });
                    i = i + 1;
                }
                proof {
                    crate::topology::lemma_fullnode_count_fits(
                        self.n(),
                        self.f(),
                        self.enable_lsr,
                        self.backend,
                    );
                }
                let total: u32 = self.num_validators * self.fullnodes_per_validator;
                let mut k: u32 = 0;
                while k < total
                    invariant
                        k <= total,
                        self.wf(),
                        self.phase is SpawnValidatorsAndFullnodes,
                        n_total == self.n(),
                        total == self.fullnode_count(),
                        actions@.len() == n_total + k,
                        forall|j: int|
                            0 <= j < n_total ==> spawn_validator_ok(#[trigger] actions@[j], *self, j),
                        forall|j: int|
                            0 <= j < k ==> #[trigger] spawn_fullnode_at(
                                actions@,
                                n_total as int,
                                j,
                                *self,
                            ),
                    decreases total - k,
                {
                    let ghost before = actions@;
                    proof {
                        if self.fullnodes_per_validator == 0 {
                            vstd::arithmetic::mul::lemma_mul_basics(self.n() as int);
                            assert(self.fullnode_count() == 0);
                            assert(false);
                        }
                    }
                    let v = k / self.fullnodes_per_validator;
                    let fi = k % self.fullnodes_per_validator;
                    proof {
                        assert((k as int) / (self.f() as int) < self.n() as int)
                            by (nonlinear_arith)
                            requires
                                self.f() >= 1,
                                0 <= k as int,
                                (k as int) < (self.n() as int) * (self.f() as int),
                        ;
                    }
                    actions.push(Action::SpawnInstance {
                        node_name: self.fullnode_nodes[k as usize].name.clone(),
                        wipe_data: self.clean_data,
                        config: InstanceConfig {
                            validator_group: v,
                            application_config: ApplicationConfig::Fullnode(FullnodeConfig {
                                fullnode_index: fi,
                                num_fullnodes_per_validator: self.fullnodes_per_validator,
                                num_validators: self.num_validators,
                                image_tag: self.image_tag.clone(),
                                config_overrides: clone_strings(&self.config_overrides),
                                seed_peer_ip: self.validator_nodes[v as usize].internal_ip.clone(),
                            }),
                        },
                    });
                    proof {
                        assert forall|j: int| 0 <= j < k + 1 implies #[trigger] spawn_fullnode_at(
                            actions@,
                            n_total as int,
                            j,
                            *self,
                        ) by {
                            if j < k {
                                assert(spawn_fullnode_at(before, n_total as int, j, *self));
                                assert(actions@[n_total + j] == before[n_total + j]);
                            } else {
                                assert(actions@[n_total + j] == actions@[actions@.len() - 1]);
                            }
                        }
                        assert forall|j: int| 0 <= j < n_total implies spawn_validator_ok(
                            #[trigger] actions@[j],
                            *self,
                            j,
                        ) by {
                            assert(actions@[j] == before[j]);
                            assert(spawn_validator_ok(before[j], *self, j));
                        }
                    }
                    k = k + 1;
                }
                Batch { sequential: false, actions }
            },
            Phase::Complete | Phase::Failed => {
                Batch { sequential: false, actions: Vec::new() }
            },
        }
    }

    /// The secret-store node count, executable form.
    fn vault_count_exec(&self) -> (c: u32)
        requires
            self.wf(),
        ensures
            c == self.vault_count(),
    {
        if self.enable_lsr && matches!(self.backend, LsrBackend::Vault) {
            self.num_validators
        } else {
            0
        }
    }

    /// The operation the error must name for a failure at position `k` of
    /// the current phase's batch.
    fn failed_op(&self, k: usize) -> (op: FailedOp)
        ensures
            op == failed_op_for(*self, k as int),
    {
        if k > (u32::MAX as usize) {
            return FailedOp::DriverProtocol;
        }
        let ku: u32 = k as u32;
        match self.phase {
            Phase::Cleanup => FailedOp::Cleanup,
            Phase::Workspace => FailedOp::GetWorkspace,
            Phase::ScaleDown => FailedOp::ScaleDown,
            Phase::ScaleUp => FailedOp::ScaleUp,
            Phase::AllocateVaults => FailedOp::Allocate(NodeId::Vault(ku)),
            Phase::AllocateLsrs => FailedOp::Allocate(NodeId::Lsr(ku)),
            Phase::SpawnSecretTier => {
                let vc = if self.enable_lsr && matches!(self.backend, LsrBackend::Vault) {
                    self.num_validators
                } else {
                    0
                };
                if ku < vc {
                    FailedOp::Spawn(NodeId::Vault(ku))
                } else {
                    FailedOp::Spawn(NodeId::Lsr(ku - vc))
                }
            },
            Phase::AllocateValidators => FailedOp::Allocate(NodeId::Validator(ku)),
            Phase::AllocateFullnodes => {
                if self.fullnodes_per_validator == 0 {
                    FailedOp::DriverProtocol
                } else {
                    FailedOp::Allocate(
                        NodeId::Fullnode(
                            ku / self.fullnodes_per_validator,
                            ku % self.fullnodes_per_validator,
                        ),
                    )
                }
            },
            Phase::InitializeVaults => FailedOp::VaultInit(ku),
            Phase::RunGenesis => FailedOp::GenesisStep(ku),
            Phase::DistributeGenesis => FailedOp::Distribute(ku),
            Phase::SpawnValidatorsAndFullnodes => {
                if ku < self.num_validators {
                    FailedOp::Spawn(NodeId::Validator(ku))
                } else if self.fullnodes_per_validator == 0 {
                    FailedOp::DriverProtocol
                } else {
                    let r = ku - self.num_validators;
                    FailedOp::Spawn(
                        NodeId::Fullnode(
                            r / self.fullnodes_per_validator,
                            r % self.fullnodes_per_validator,
                        ),
                    )
                }
            },
            Phase::Complete | Phase::Failed => FailedOp::DriverProtocol,
        }
    }

    /// Fails the run on outcomes of the wrong shape or number.
    fn fail_protocol(&mut self)
        ensures
            protocol_fail(*old(self), *final(self)),
    {
        self.failure = Some(
            ProvisionError {
                kind: ErrorKind::Configuration,
                op: FailedOp::DriverProtocol,
                detail: "outcomes do not match the phase's batch".to_owned(),
            },
        );
        self.phase = Phase::Failed;
    }

    /// Applies the outcomes of the current phase's batch: moves to the
    /// failed state on the first failure — naming its exact operation —
    /// records the phase's results otherwise, and enters the next phase.
    #[verifier::rlimit(100)]
    pub fn apply(&mut self, results: Vec<StepOutcome>)
        requires
            old(self).wf(),
        ensures
            final(self).wf(),
            transition_ok(*old(self), results@, *final(self)),
    {
        match self.phase {
            Phase::Complete | Phase::Failed => {
                return;
            },
            _ => {},
        }
        if let Some((k, kind, detail)) = first_failure(&results) {
            let op = self.failed_op(k);
            self.failure = Some(ProvisionError { kind, op, detail });
            self.phase = Phase::Failed;
            return;
        }
        proof {
            if exists|k: int| #[trigger] first_failure_at(results@, k) {
                let k = choose|k: int| #[trigger] first_failure_at(results@, k);
                assert(results@[k] is Failure);
                assert(false);
            }
        }
        match self.phase {
            Phase::Cleanup => {
                if results.len() == 1 && matches!(&results[0], StepOutcome::Success) {
                    self.phase = Phase::Workspace;
                } else {
                    self.fail_protocol();
                }
            },
            Phase::Workspace => {
                if results.len() == 1 {
                    match &results[0] {
                        StepOutcome::Workspace(ws) => {
                            self.workspace = ws.clone();
                            self.phase = if self.clean_data {
                                Phase::ScaleDown
                            } else if self.enable_lsr && matches!(self.backend, LsrBackend::Vault) {
                                Phase::AllocateVaults
                            } else if self.enable_lsr {
                                Phase::AllocateLsrs
                            } else {
                                Phase::AllocateValidators
                            };
                        },
                        _ => {
                            self.fail_protocol();
                        },
                    }
                } else {
                    self.fail_protocol();
                }
            },
            Phase::ScaleDown => {
                if results.len() == 1 && matches!(&results[0], StepOutcome::Success) {
                    self.phase = Phase::ScaleUp;
                } else {
                    self.fail_protocol();
                }
            },
            Phase::ScaleUp => {
                if results.len() == 1 && matches!(&results[0], StepOutcome::Success) {
                    self.phase = if self.enable_lsr && matches!(self.backend, LsrBackend::Vault) {
                        Phase::AllocateVaults
                    } else if self.enable_lsr {
                        Phase::AllocateLsrs
                    } else {
                        Phase::AllocateValidators
                    };
                } else {
                    self.fail_protocol();
                }
            },
            Phase::AllocateVaults => {
                if results.len() == self.num_validators as usize {
                    match collect_handles(&results) {
                        Some(v) => {
                            self.vault_nodes = v;
                            self.phase = Phase::AllocateLsrs;
                        },
                        None => {
                            self.fail_protocol();
                        },
                    }
                } else {
                    self.fail_protocol();
                }
            },
            Phase::AllocateLsrs => {
                if results.len() == self.num_validators as usize {
                    match collect_handles(&results) {
                        Some(v) => {
                            self.lsr_nodes = v;
                            self.phase = Phase::SpawnSecretTier;
                        },
                        None => {
                            self.fail_protocol();
                        },
                    }
                } else {
                    self.fail_protocol();
                }
            },
            Phase::SpawnSecretTier => {
                let vc = self.vault_count_exec() as usize;
                let expected = vc + self.num_validators as usize;
                if results.len() == expected {
                    match collect_instances_range(&results, 0, vc) {
                        Some(vi) => {
                            match collect_instances_range(&results, vc, expected) {
                                Some(li) => {
                                    self.vault_instances = vi;
                                    self.lsr_instances = li;
                                    self.phase = Phase::AllocateValidators;
                                    proof {
                                        assert(all_spawned(results@));
                                    }
                                },
                                None => {
                                    self.fail_protocol();
                                    proof {
                                        assert(!all_spawned(results@));
                                    }
                                },
                            }
                        },
                        None => {
                            self.fail_protocol();
                            proof {
                                assert(!all_spawned(results@));
                            }
                        },
                    }
                } else {
                    self.fail_protocol();
                }
            },
            Phase::AllocateValidators => {
                if results.len() == self.num_validators as usize {
                    match collect_handles(&results) {
                        Some(v) => {
                            self.validator_nodes = v;
                            self.phase = Phase::AllocateFullnodes;
                        },
                        None => {
                            self.fail_protocol();
                        },
                    }
                } else {
                    self.fail_protocol();
                }
            },
            Phase::AllocateFullnodes => {
                proof {
                    crate::topology::lemma_fullnode_count_fits(
                        self.n(),
                        self.f(),
                        self.enable_lsr,
                        self.backend,
                    );
                }
                let total = (self.num_validators * self.fullnodes_per_validator) as usize;
                if results.len() == total {
                    match collect_handles(&results) {
                        Some(v) => {
                            self.fullnode_nodes = v;
                            self.phase = if self.vault_count_exec() > 0 {
                                Phase::InitializeVaults
                            } else {
                                Phase::SpawnValidatorsAndFullnodes
                            };
                        },
                        None => {
                            self.fail_protocol();
                        },
                    }
                } else {
                    self.fail_protocol();
                }
            },
            Phase::InitializeVaults => {
                if results.len() == self.num_validators as usize && check_all_success(&results) {
                    self.phase = Phase::RunGenesis;
                } else {
                    self.fail_protocol();
                }
            },
            Phase::RunGenesis => {
                let expected: u64 = 7 + 5 * (self.num_validators as u64);
                if results.len() as u64 == expected {
                    let last = results.len() - 1;
                    let mut shape_ok = true;
                    let mut j: usize = 0;
                    while j < last && shape_ok
                        invariant
                            j <= last,
                            last == results@.len() - 1,
                            results@.len() >= 1,
                            shape_ok ==> forall|m: int|
                                0 <= m < j ==> (#[trigger] results@[m]) is Success,
                            !shape_ok ==> !(forall|m: int|
                                0 <= m < results@.len() - 1 ==> (#[trigger] results@[m]) is Success),
                        decreases (if shape_ok { 1int } else { 0int }) + last - j,
                    {
                        match &results[j] {
                            StepOutcome::Success => {
                                j = j + 1;
                            },
                            _ => {
                                shape_ok = false;
                            },
                        }
                    }
                    if shape_ok {
                        match &results[last] {
                            StepOutcome::ArtifactBytes(bytes) => {
                                self.artifact = Some(clone_bytes(bytes));
                                self.phase = Phase::DistributeGenesis;
                            },
                            _ => {
                                self.fail_protocol();
                            },
                        }
                    } else {
                        self.fail_protocol();
                    }
                } else {
                    self.fail_protocol();
                }
            },
            Phase::DistributeGenesis => {
                if results.len() == self.num_validators as usize && check_all_success(&results) {
                    self.phase = Phase::SpawnValidatorsAndFullnodes;
                } else {
                    self.fail_protocol();
                }
            },
            Phase::SpawnValidatorsAndFullnodes => {
                proof {
                    crate::topology::lemma_fullnode_count_fits(
                        self.n(),
                        self.f(),
                        self.enable_lsr,
                        self.backend,
                    );
                }
                let n = self.num_validators as usize;
                let expected = n + (self.num_validators * self.fullnodes_per_validator) as usize;
                if results.len() == expected {
                    match collect_instances_range(&results, 0, n) {
                        Some(vi) => {
                            match collect_instances_range(&results, n, expected) {
                                Some(fi) => {
                                    self.validator_instances = vi;
                                    self.fullnode_instances = fi;
                                    self.phase = Phase::Complete;
                                    proof {
                                        assert(all_spawned(results@));
                                    }
                                },
                                None => {
                                    self.fail_protocol();
                                    proof {
                                        assert(!all_spawned(results@));
                                    }
                                },
                            }
                        },
                        None => {
                            self.fail_protocol();
                            proof {
                                assert(!all_spawned(results@));
                            }
                        },
                    }
                } else {
                    self.fail_protocol();
                }
            },
            Phase::Complete | Phase::Failed => {
                proof {
                    assert(false);
                }
            },
        }
    }

    /// The run's outcome: the full cluster descriptor on success, the first
    /// terminal error otherwise.
    pub fn result(self) -> (r: Result<Cluster, ProvisionError>)
        requires
            self.wf(),
            self.phase is Complete || self.phase is Failed,
        ensures
            match r {
                Ok(c) => {
                    &&& self.phase is Complete
                    &&& c.validators == self.validator_instances
                    &&& c.fullnodes == self.fullnode_instances
                    &&& c.lsrs == self.lsr_instances
                    &&& c.vaults == self.vault_instances
                },
                Err(e) => {
                    &&& self.phase is Failed
                    &&& Some(e) == self.failure
                },
            },
    {
        match self.failure {
            Some(e) => Err(e),
            None => Ok(
                Cluster::new(
                    self.validator_instances,
                    self.fullnode_instances,
                    self.lsr_instances,
                    self.vault_instances,
                ),
            ),
        }
    }
}

} // verus!
