//! The genesis ceremony: a strictly sequential plan of remote calls against
//! the secret tier, followed by distribution of the finalized artifact.

use vstd::prelude::*;
use vstd::arithmetic::div_mod::lemma_fundamental_div_mod;
use crate::instance::NodeHandle;
use crate::names::{multiaddr_of, node_multiaddr, node_name_seq, node_url, url_of, validator_pod_name, NodeId};
use crate::keys::root_key_name;
use crate::settings::BuilderSettings;

verus! {

/// One step of the genesis ceremony, with everything the driver needs to
/// perform it.
#[derive(Clone, Debug)]
pub enum GenesisCall {
    /// Write the layout document naming every validator as owner and
    /// operator, and the single root identity.
    WriteLayoutFile { path: String, owners: Vec<String>, operators: Vec<String>, root_name: String },
    /// Write the secret-store bearer token to its transient file.
    WriteTokenFile { path: String, token: String },
    /// Register the layout under the shared namespace.
    SetLayout { layout_path: String, namespace: String },
    /// Bind the previously-created root key into the ceremony.
    RegisterRootKey { backend: String, url: String, token_path: String, root_name: String },
    RegisterOwnerKey {
        validator_index: u32,
        backend: String,
        url: String,
        token_path: String,
        name: String,
    },
    RegisterOperatorKey {
        validator_index: u32,
        backend: String,
        url: String,
        token_path: String,
        name: String,
    },
    /// Register the validator's two network endpoints under the chain id.
    RegisterValidatorNetwork {
        validator_index: u32,
        name: String,
        validator_addr: String,
        fullnode_addr: String,
        chain_id: u8,
        backend: String,
        url: String,
        token_path: String,
    },
    /// Bind operator authority to the owner identity.
    AssignOperator { validator_index: u32, owner: String, operator: String },
    /// Produce the genesis artifact at its transient path.
    Finalize { chain_id: u8, output_path: String },
    /// Derive and register the validator's verifiable checkpoint.
    CreateWaypoint {
        validator_index: u32,
        chain_id: u8,
        backend: String,
        url: String,
        token_path: String,
        name: String,
    },
    /// Pull the root private key out of the secret tier.
    ExtractPrivateKey {
        key_name: String,
        output_path: String,
        backend: String,
        url: String,
        token_path: String,
    },
    /// Read the finalized artifact back, so it can be distributed.
    ReadArtifact { path: String },
}

/// The validator a per-validator registration call concerns, if the call is
/// one of the four registration kinds.
pub open spec fn registration_validator(c: GenesisCall) -> Option<u32> {
    match c {
        GenesisCall::RegisterOwnerKey { validator_index, .. } => Some(validator_index),
        GenesisCall::RegisterOperatorKey { validator_index, .. } => Some(validator_index),
        GenesisCall::RegisterValidatorNetwork { validator_index, .. } => Some(validator_index),
        GenesisCall::AssignOperator { validator_index, .. } => Some(validator_index),
        _ => None,
    }
}

/// The internal addresses of a sequence of node handles.
pub open spec fn ips_of(nodes: Seq<NodeHandle>) -> Seq<Seq<char>> {
    nodes.map_values(|h: NodeHandle| h.internal_ip@)
}

pub open spec fn is_write_layout(c: GenesisCall, n: nat, s: BuilderSettings) -> bool {
    match c {
        GenesisCall::WriteLayoutFile { path, owners, operators, root_name } => {
            &&& path@ == s.layout_path@
            &&& owners@.len() == n
            &&& operators@.len() == n
            &&& forall|k: int|
                0 <= k < n ==> (#[trigger] owners@[k])@ == node_name_seq(
                    NodeId::Validator(k as u32),
                )
            &&& forall|k: int|
                0 <= k < n ==> (#[trigger] operators@[k])@ == node_name_seq(
                    NodeId::Validator(k as u32),
                )
            &&& root_name@ == s.libra_root_name@
        },
        _ => false,
    }
}

pub open spec fn is_write_token(c: GenesisCall, s: BuilderSettings) -> bool {
    match c {
        GenesisCall::WriteTokenFile { path, token } => {
            path@ == s.token_path@ && token@ == s.vault_token@
        },
        _ => false,
    }
}

pub open spec fn is_set_layout(c: GenesisCall, s: BuilderSettings) -> bool {
    match c {
        GenesisCall::SetLayout { layout_path, namespace } => {
            layout_path@ == s.layout_path@ && namespace@ == s.namespace@
        },
        _ => false,
    }
}

pub open spec fn is_root_key(c: GenesisCall, vault0_ip: Seq<char>, s: BuilderSettings) -> bool {
    match c {
        GenesisCall::RegisterRootKey { backend, url, token_path, root_name } => {
            &&& backend@ == s.vault_backend_name@
            &&& url@ == url_of(vault0_ip, s.vault_port as nat)
            &&& token_path@ == s.token_path@
            &&& root_name@ == s.libra_root_name@
        },
        _ => false,
    }
}

/// The four registration calls of validator `i` stand, in program order, at
/// positions `4 + 4i` through `4 + 4i + 3` of the plan.
pub open spec fn reg_block_ok(
    plan: Seq<GenesisCall>,
    i: int,
    vault_ips: Seq<Seq<char>>,
    validator_ips: Seq<Seq<char>>,
    fullnode_ips: Seq<Seq<char>>,
    s: BuilderSettings,
) -> bool {
    let pod = node_name_seq(NodeId::Validator(i as u32));
    let url = url_of(vault_ips[i], s.vault_port as nat);
    &&& match plan[4 + 4 * i] {
        GenesisCall::RegisterOwnerKey { validator_index, backend, url: u, token_path, name } => {
            &&& validator_index == i as u32
            &&& backend@ == s.vault_backend_name@
            &&& u@ == url
            &&& token_path@ == s.token_path@
            &&& name@ == pod
        },
        _ => false,
    }
    &&& match plan[4 + 4 * i + 1] {
        GenesisCall::RegisterOperatorKey { validator_index, backend, url: u, token_path, name } => {
            &&& validator_index == i as u32
            &&& backend@ == s.vault_backend_name@
            &&& u@ == url
            &&& token_path@ == s.token_path@
            &&& name@ == pod
        },
        _ => false,
    }
    &&& match plan[4 + 4 * i + 2] {
        GenesisCall::RegisterValidatorNetwork {
            validator_index,
            name,
            validator_addr,
            fullnode_addr,
            chain_id,
            backend,
            url: u,
            token_path,
        } => {
            &&& validator_index == i as u32
            &&& name@ == pod
            &&& validator_addr@ == multiaddr_of(validator_ips[i], s.network_port as nat)
            &&& fullnode_addr@ == multiaddr_of(fullnode_ips[i], s.network_port as nat)
            &&& chain_id == s.chain_id
            &&& backend@ == s.vault_backend_name@
            &&& u@ == url
            &&& token_path@ == s.token_path@
        },
        _ => false,
    }
    &&& match plan[4 + 4 * i + 3] {
        GenesisCall::AssignOperator { validator_index, owner, operator } => {
            &&& validator_index == i as u32
            &&& owner@ == pod
            &&& operator@ == pod
        },
        _ => false,
    }
}

pub open spec fn is_finalize(c: GenesisCall, s: BuilderSettings) -> bool {
    match c {
        GenesisCall::Finalize { chain_id, output_path } => {
            chain_id == s.chain_id && output_path@ == s.genesis_path@
        },
        _ => false,
    }
}

/// The waypoint call of validator `i` stands at position `5 + 4n + i`.
pub open spec fn waypoint_ok(
    plan: Seq<GenesisCall>,
    n: nat,
    i: int,
    vault_ips: Seq<Seq<char>>,
    s: BuilderSettings,
) -> bool {
    match plan[5 + 4 * n + i] {
        GenesisCall::CreateWaypoint { validator_index, chain_id, backend, url, token_path, name } => {
            &&& validator_index == i as u32
            &&& chain_id == s.chain_id
            &&& backend@ == s.vault_backend_name@
            &&& url@ == url_of(vault_ips[i], s.vault_port as nat)
            &&& token_path@ == s.token_path@
            &&& name@ == node_name_seq(NodeId::Validator(i as u32))
        },
        _ => false,
    }
}

pub open spec fn is_extract_key(c: GenesisCall, vault0_ip: Seq<char>, s: BuilderSettings) -> bool {
    match c {
        GenesisCall::ExtractPrivateKey { key_name, output_path, backend, url, token_path } => {
            &&& key_name@ == root_key_name(s.libra_root_name@)
            &&& output_path@ == s.mint_key_path@
            &&& backend@ == s.vault_backend_name@
            &&& url@ == url_of(vault0_ip, s.vault_port as nat)
            &&& token_path@ == s.token_path@
        },
        _ => false,
    }
}

pub open spec fn is_read_artifact(c: GenesisCall, s: BuilderSettings) -> bool {
    match c {
        GenesisCall::ReadArtifact { path } => path@ == s.genesis_path@,
        _ => false,
    }
}

/// Shape and content of the whole ceremony: layout and token files, layout
/// and root-key registration, the strictly ordered per-validator blocks,
/// finalization, per-validator waypoints, root-key extraction, and the
/// read-back of the artifact.
pub open spec fn genesis_plan_ok(
    plan: Seq<GenesisCall>,
    n: nat,
    vault_ips: Seq<Seq<char>>,
    validator_ips: Seq<Seq<char>>,
    fullnode_ips: Seq<Seq<char>>,
    s: BuilderSettings,
) -> bool {
    &&& plan.len() == 7 + 5 * n
    &&& is_write_layout(plan[0], n, s)
    &&& is_write_token(plan[1], s)
    &&& is_set_layout(plan[2], s)
    &&& is_root_key(plan[3], vault_ips[0], s)
    &&& forall|i: int|
        0 <= i < n ==> #[trigger] reg_block_ok(plan, i, vault_ips, validator_ips, fullnode_ips, s)
    &&& is_finalize(plan[4 + 4 * n as int], s)
    &&& forall|i: int| 0 <= i < n ==> #[trigger] waypoint_ok(plan, n, i, vault_ips, s)
    &&& is_extract_key(plan[5 + 5 * n as int], vault_ips[0], s)
    &&& is_read_artifact(plan[6 + 5 * n as int], s)
}

/// The pod names of validators `0` to `n - 1`, in order: the owner (and
/// operator) identities of the layout document.
pub fn owner_names(n: u32) -> (names: Vec<String>)
    ensures
        names@.len() == n,
        forall|k: int|
            0 <= k < n ==> (#[trigger] names@[k])@ == node_name_seq(NodeId::Validator(k as u32)),
{
    let mut names: Vec<String> = Vec::new();
    let mut i: u32 = 0;
    while i < n
        invariant
            i <= n,
            names@.len() == i,
            forall|k: int|
                0 <= k < i ==> (#[trigger] names@[k])@ == node_name_seq(NodeId::Validator(k as u32)),
        decreases n - i,
    {
        names.push(validator_pod_name(i));
        i = i + 1;
    }
    names
}

/// Builds the full ceremony plan. The driver must perform the calls one at
/// a time, in order, stopping at the first failure.
pub fn build_genesis_plan(
    num_validators: u32,
    vault_nodes: &Vec<NodeHandle>,
    validator_nodes: &Vec<NodeHandle>,
    fullnode_nodes: &Vec<NodeHandle>,
    s: &BuilderSettings,
) -> (plan: Vec<GenesisCall>)
    requires
        num_validators >= 1,
        vault_nodes@.len() == num_validators,
        validator_nodes@.len() == num_validators,
        fullnode_nodes@.len() >= num_validators,
    ensures
        genesis_plan_ok(
            plan@,
            num_validators as nat,
            ips_of(vault_nodes@),
            ips_of(validator_nodes@),
            ips_of(fullnode_nodes@),
            *s,
        ),
{
    let ghost n = num_validators as nat;
    let ghost vault_ips = ips_of(vault_nodes@);
    let ghost validator_ips = ips_of(validator_nodes@);
    let ghost fullnode_ips = ips_of(fullnode_nodes@);
    let mut plan: Vec<GenesisCall> = Vec::new();
    plan.push(GenesisCall::WriteLayoutFile {
        path: s.layout_path.clone(),
        owners: owner_names(num_validators),
        operators: owner_names(num_validators),
        root_name: s.libra_root_name.clone(),
    });
    plan.push(GenesisCall::WriteTokenFile {
        path: s.token_path.clone(),
        token: s.vault_token.clone(),
    });
    plan.push(GenesisCall::SetLayout {
        layout_path: s.layout_path.clone(),
        namespace: s.namespace.clone(),
    });
    plan.push(GenesisCall::RegisterRootKey {
        backend: s.vault_backend_name.clone(),
        url: node_url(&vault_nodes[0].internal_ip, s.vault_port),
        token_path: s.token_path.clone(),
        root_name: s.libra_root_name.clone(),
    });
    let mut i: u32 = 0;
    while i < num_validators
        invariant
            i <= num_validators,
            vault_nodes@.len() == num_validators,
            validator_nodes@.len() == num_validators,
            fullnode_nodes@.len() >= num_validators,
            vault_ips == ips_of(vault_nodes@),
            validator_ips == ips_of(validator_nodes@),
            fullnode_ips == ips_of(fullnode_nodes@),
            plan@.len() == 4 + 4 * i,
            is_write_layout(plan@[0], num_validators as nat, *s),
            is_write_token(plan@[1], *s),
            is_set_layout(plan@[2], *s),
            is_root_key(plan@[3], vault_ips[0], *s),
            forall|j: int|
                0 <= j < i ==> #[trigger] reg_block_ok(
                    plan@,
                    j,
                    vault_ips,
                    validator_ips,
                    fullnode_ips,
                    *s,
                ),
        decreases num_validators - i,
    {
        let ghost plan_before = plan@;
        let pod = validator_pod_name(i);
        let url = node_url(&vault_nodes[i as usize].internal_ip, s.vault_port);
        plan.push(GenesisCall::RegisterOwnerKey {
            validator_index: i,
            backend: s.vault_backend_name.clone(),
            url: url.clone(),
            token_path: s.token_path.clone(),
            name: pod.clone(),
        });
        plan.push(GenesisCall::RegisterOperatorKey {
            validator_index: i,
            backend: s.vault_backend_name.clone(),
            url: url.clone(),
            token_path: s.token_path.clone(),
            name: pod.clone(),
        });
        plan.push(GenesisCall::RegisterValidatorNetwork {
            validator_index: i,
            name: pod.clone(),
            validator_addr: node_multiaddr(&validator_nodes[i as usize].internal_ip, s.network_port),
            fullnode_addr: node_multiaddr(&fullnode_nodes[i as usize].internal_ip, s.network_port),
            chain_id: s.chain_id,
            backend: s.vault_backend_name.clone(),
            url: url.clone(),
            token_path: s.token_path.clone(),
        });
        plan.push(GenesisCall::AssignOperator {
            validator_index: i,
            owner: pod.clone(),
            operator: pod,
        });
        proof {
            assert(plan@[0] == plan_before[0]);
            assert(plan@[1] == plan_before[1]);
            assert(plan@[2] == plan_before[2]);
            assert(plan@[3] == plan_before[3]);
            assert forall|j: int| 0 <= j < i + 1 implies #[trigger] reg_block_ok(
                plan@,
                j,
                vault_ips,
                validator_ips,
                fullnode_ips,
                *s,
            ) by {
                if j < i {
                    assert(reg_block_ok(plan_before, j, vault_ips, validator_ips, fullnode_ips, *s));
                    assert(plan@[4 + 4 * j] == plan_before[4 + 4 * j]);
                    assert(plan@[4 + 4 * j + 1] == plan_before[4 + 4 * j + 1]);
                    assert(plan@[4 + 4 * j + 2] == plan_before[4 + 4 * j + 2]);
                    assert(plan@[4 + 4 * j + 3] == plan_before[4 + 4 * j + 3]);
                }
            }
        }
        i = i + 1;
    }
    let ghost plan_reg = plan@;
    plan.push(GenesisCall::Finalize {
        chain_id: s.chain_id,
        output_path: s.genesis_path.clone(),
    });
    let ghost plan_mid = plan@;
    proof {
        assert(plan@.subrange(0, 5 + 4 * num_validators as int) =~= plan_mid);
    }
    let mut w: u32 = 0;
    while w < num_validators
        invariant
            w <= num_validators,
            vault_nodes@.len() == num_validators,
            vault_ips == ips_of(vault_nodes@),
            plan@.len() == 5 + 4 * num_validators + w,
            plan@.subrange(0, 5 + 4 * num_validators as int) == plan_mid,
            plan_mid.len() == 5 + 4 * num_validators,
            forall|j: int|
                0 <= j < w ==> #[trigger] waypoint_ok(plan@, num_validators as nat, j, vault_ips, *s),
        decreases num_validators - w,
    {
        let ghost plan_before = plan@;
        plan.push(GenesisCall::CreateWaypoint {
            validator_index: w,
            chain_id: s.chain_id,
            backend: s.vault_backend_name.clone(),
            url: node_url(&vault_nodes[w as usize].internal_ip, s.vault_port),
            token_path: s.token_path.clone(),
            name: validator_pod_name(w),
        });
        proof {
            assert(plan@.subrange(0, 5 + 4 * num_validators as int) =~= plan_mid);
            assert forall|j: int| 0 <= j < w + 1 implies #[trigger] waypoint_ok(
                plan@,
                num_validators as nat,
                j,
                vault_ips,
                *s,
            ) by {
                if j < w {
                    assert(waypoint_ok(plan_before, num_validators as nat, j, vault_ips, *s));
                    assert(plan@[5 + 4 * num_validators + j] == plan_before[5 + 4 * num_validators
                        + j]);
                }
            }
        }
        w = w + 1;
    }
    let ghost plan_wp = plan@;
    plan.push(GenesisCall::ExtractPrivateKey {
        key_name: crate::keys::root_key_name_string(&s.libra_root_name),
        output_path: s.mint_key_path.clone(),
        backend: s.vault_backend_name.clone(),
        url: node_url(&vault_nodes[0].internal_ip, s.vault_port),
        token_path: s.token_path.clone(),
    });
    plan.push(GenesisCall::ReadArtifact { path: s.genesis_path.clone() });
    proof {
        let fin = plan@;
        let nv = num_validators as int;
        // Positions before the waypoints were never touched after their push.
        assert forall|k: int| 0 <= k < 5 + 4 * nv implies #[trigger] fin[k] == plan_mid[k] by {
            assert(fin[k] == plan_wp[k]);
            assert(plan_wp.subrange(0, 5 + 4 * nv)[k] == plan_wp[k]);
        }
        assert(fin[0] == plan_mid[0] && plan_mid[0] == plan_reg[0]);
        assert(fin[1] == plan_reg[1]);
        assert(fin[2] == plan_reg[2]);
        assert(fin[3] == plan_reg[3]);
        assert(fin[4 + 4 * nv] == plan_mid[4 + 4 * nv]);
        assert forall|j: int| 0 <= j < num_validators implies #[trigger] reg_block_ok(
            fin,
            j,
            vault_ips,
            validator_ips,
            fullnode_ips,
            *s,
        ) by {
            assert(reg_block_ok(plan_reg, j, vault_ips, validator_ips, fullnode_ips, *s));
            assert(fin[4 + 4 * j] == plan_mid[4 + 4 * j] && plan_mid[4 + 4 * j] == plan_reg[4 + 4
                * j]);
            assert(fin[4 + 4 * j + 1] == plan_mid[4 + 4 * j + 1] && plan_mid[4 + 4 * j + 1]
                == plan_reg[4 + 4 * j + 1]);
            assert(fin[4 + 4 * j + 2] == plan_mid[4 + 4 * j + 2] && plan_mid[4 + 4 * j + 2]
                == plan_reg[4 + 4 * j + 2]);
            assert(fin[4 + 4 * j + 3] == plan_mid[4 + 4 * j + 3] && plan_mid[4 + 4 * j + 3]
                == plan_reg[4 + 4 * j + 3]);
        }
        assert forall|j: int| 0 <= j < num_validators implies #[trigger] waypoint_ok(
            fin,
            num_validators as nat,
            j,
            vault_ips,
            *s,
        ) by {
            assert(waypoint_ok(plan_wp, num_validators as nat, j, vault_ips, *s));
            assert(fin[5 + 4 * nv + j] == plan_wp[5 + 4 * nv + j]);
        }
    }
    plan
}

/// Law: the per-validator loop is strictly sequential. For validators
/// `i < j`, every registration call concerning `i` stands strictly before
/// every registration call concerning `j` in the plan; the driver performs
/// the plan in order, so all of `i`'s registrations complete before `j`'s
/// begin.
pub proof fn lemma_registration_sequential(
    plan: Seq<GenesisCall>,
    n: nat,
    vault_ips: Seq<Seq<char>>,
    validator_ips: Seq<Seq<char>>,
    fullnode_ips: Seq<Seq<char>>,
    s: BuilderSettings,
    p: int,
    q: int,
    i: u32,
    j: u32,
)
    requires
        n <= u32::MAX,
        genesis_plan_ok(plan, n, vault_ips, validator_ips, fullnode_ips, s),
        0 <= p < plan.len(),
        0 <= q < plan.len(),
        registration_validator(plan[p]) == Some(i),
        registration_validator(plan[q]) == Some(j),
        i < j,
    ensures
        p < q,
{
    let bp = lemma_registration_position(plan, n, vault_ips, validator_ips, fullnode_ips, s, p, i);
    let bq = lemma_registration_position(plan, n, vault_ips, validator_ips, fullnode_ips, s, q, j);
    assert(p < 4 + 4 * i + 4 <= 4 + 4 * j <= q);
}

/// A registration call for validator `v` can stand only inside validator
/// `v`'s own block of four consecutive positions.
proof fn lemma_registration_position(
    plan: Seq<GenesisCall>,
    n: nat,
    vault_ips: Seq<Seq<char>>,
    validator_ips: Seq<Seq<char>>,
    fullnode_ips: Seq<Seq<char>>,
    s: BuilderSettings,
    p: int,
    v: u32,
) -> (r: int)
    requires
        n <= u32::MAX,
        genesis_plan_ok(plan, n, vault_ips, validator_ips, fullnode_ips, s),
        0 <= p < plan.len(),
        registration_validator(plan[p]) == Some(v),
    ensures
        r == p - 4 - 4 * v,
        0 <= r < 4,
        4 + 4 * v <= p < 4 + 4 * v + 4,
        v < n,
{
    if p < 4 {
        assert(false);
    } else if p < 4 + 4 * n {
        let b = (p - 4) / 4;
        let r = (p - 4) % 4;
        lemma_fundamental_div_mod(p - 4, 4);
        assert(0 <= b < n);
        assert(reg_block_ok(plan, b, vault_ips, validator_ips, fullnode_ips, s));
        assert(p == 4 + 4 * b + r);
        assert(registration_validator(plan[p]) == Some(b as u32));
        assert(v == b);
        return p - 4 - 4 * v;
    } else if p == 4 + 4 * n {
        assert(false);
    } else if p < 5 + 4 * n + n {
        let wi = p - 5 - 4 * n;
        assert(waypoint_ok(plan, n, wi, vault_ips, s));
        assert(false);
    } else if p == 5 + 5 * n {
        assert(false);
    } else {
        assert(p == 6 + 5 * n);
        assert(false);
    }
    0
}

/// One byte-for-byte copy of the genesis artifact into a validator's node.
#[derive(Clone, Debug)]
pub struct CopyAction {
    pub node_name: String,
    pub pod_name: String,
    pub dest_path: String,
    pub bytes: Vec<u8>,
}

/// The distribution fan-out: one copy per validator node, every copy
/// carrying the identical finalized artifact.
pub open spec fn distribution_ok(
    acts: Seq<CopyAction>,
    validator_nodes: Seq<NodeHandle>,
    artifact: Seq<u8>,
    s: BuilderSettings,
) -> bool {
    &&& acts.len() == validator_nodes.len()
    &&& forall|k: int|
        0 <= k < acts.len() ==> {
            &&& (#[trigger] acts[k]).node_name@ == validator_nodes[k].name@
            &&& acts[k].pod_name@ == node_name_seq(NodeId::Validator(k as u32))
            &&& acts[k].dest_path@ == s.genesis_dest_path@
            &&& acts[k].bytes@ == artifact
        }
}

/// Builds the distribution fan-out for the finalized artifact.
pub fn distribution_actions(
    validator_nodes: &Vec<NodeHandle>,
    artifact: &Vec<u8>,
    s: &BuilderSettings,
) -> (acts: Vec<CopyAction>)
    requires
        validator_nodes@.len() <= u32::MAX,
    ensures
        distribution_ok(acts@, validator_nodes@, artifact@, *s),
{
    let mut acts: Vec<CopyAction> = Vec::new();
    let mut k: usize = 0;
    while k < validator_nodes.len()
        invariant
            k <= validator_nodes@.len(),
            validator_nodes@.len() <= u32::MAX,
            acts@.len() == k,
            forall|m: int|
                0 <= m < k ==> {
                    &&& (#[trigger] acts@[m]).node_name@ == validator_nodes@[m].name@
                    &&& acts@[m].pod_name@ == node_name_seq(NodeId::Validator(m as u32))
                    &&& acts@[m].dest_path@ == s.genesis_dest_path@
                    &&& acts@[m].bytes@ == artifact@
                },
        decreases validator_nodes@.len() - k,
    {
        acts.push(CopyAction {
            node_name: validator_nodes[k].name.clone(),
            pod_name: validator_pod_name(k as u32),
            dest_path: s.genesis_dest_path.clone(),
            bytes: artifact.clone(),
        });
        k = k + 1;
    }
    acts
}

/// Law: distribution completeness. Under a well-formed fan-out every two
/// validators receive byte-identical copies of the artifact, and every
/// validator node is a target exactly once.
pub proof fn lemma_distribution_identical(
    acts: Seq<CopyAction>,
    validator_nodes: Seq<NodeHandle>,
    artifact: Seq<u8>,
    s: BuilderSettings,
    a: int,
    b: int,
)
    requires
        distribution_ok(acts, validator_nodes, artifact, s),
        0 <= a < acts.len(),
        0 <= b < acts.len(),
    ensures
        acts[a].bytes@ == acts[b].bytes@,
        acts[a].node_name@ == validator_nodes[a].name@,
{
}

} // verus!
