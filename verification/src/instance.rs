//! Node handles, per-role workload configurations, and the final cluster
//! descriptor.

use vstd::prelude::*;

verus! {

/// A node slot granted by the scheduler: a stable name and a reachable
/// internal address. Immutable once allocated.
#[derive(Clone, Debug)]
pub struct NodeHandle {
    pub name: String,
    pub internal_ip: String,
}

impl NodeHandle {
    /// An equal copy of the handle.
    pub fn duplicate(&self) -> (h: NodeHandle)
        ensures
            h == *self,
    {
        NodeHandle { name: self.name.clone(), internal_ip: self.internal_ip.clone() }
    }
}

/// A running workload materialized by the scheduler.
#[derive(Clone, Debug)]
pub struct Instance {
    pub name: String,
    pub internal_ip: String,
}

impl Instance {
    /// An equal copy of the instance descriptor.
    pub fn duplicate(&self) -> (r: Instance)
        ensures
            r == *self,
    {
        Instance { name: self.name.clone(), internal_ip: self.internal_ip.clone() }
    }
}

/// Configuration of a secret-store workload.
#[derive(Clone, Debug)]
pub struct VaultConfig {}

/// Configuration of a signing-proxy workload.
#[derive(Clone, Debug)]
pub struct LSRConfig {
    pub num_validators: u32,
    pub image_tag: String,
    pub lsr_backend: String,
}

/// Configuration of a validator workload.
#[derive(Clone, Debug)]
pub struct ValidatorConfig {
    pub num_validators: u32,
    pub num_fullnodes: u32,
    pub enable_lsr: bool,
    pub image_tag: String,
    pub config_overrides: Vec<String>,
    pub seed_peer_ip: String,
    pub safety_rules_addr: Option<String>,
}

/// Configuration of a fullnode workload.
#[derive(Clone, Debug)]
pub struct FullnodeConfig {
    pub fullnode_index: u32,
    pub num_fullnodes_per_validator: u32,
    pub num_validators: u32,
    pub image_tag: String,
    pub config_overrides: Vec<String>,
    pub seed_peer_ip: String,
}

/// The closed set of workload roles, each with its configuration.
#[derive(Clone, Debug)]
pub enum ApplicationConfig {
    Validator(ValidatorConfig),
    Fullnode(FullnodeConfig),
    LSR(LSRConfig),
    Vault(VaultConfig),
}

/// Everything the scheduler needs to materialize one workload.
#[derive(Clone, Debug)]
pub struct InstanceConfig {
    /// Index of the validator group the workload belongs to.
    pub validator_group: u32,
    pub application_config: ApplicationConfig,
}

/// Final output of a successful bootstrap run: four disjoint ordered
/// sequences of spawned instances, index-aligned with their role indices.
#[derive(Clone, Debug)]
pub struct Cluster {
    pub validators: Vec<Instance>,
    pub fullnodes: Vec<Instance>,
    pub lsrs: Vec<Instance>,
    pub vaults: Vec<Instance>,
}

impl Cluster {
    pub fn new(
        validators: Vec<Instance>,
        fullnodes: Vec<Instance>,
        lsrs: Vec<Instance>,
        vaults: Vec<Instance>,
    ) -> (c: Cluster)
        ensures
            c.validators == validators,
            c.fullnodes == fullnodes,
            c.lsrs == lsrs,
            c.vaults == vaults,
    {
        Cluster { validators, fullnodes, lsrs, vaults }
    }

    pub fn validator_instances(&self) -> (r: &Vec<Instance>)
        ensures
            r == &self.validators,
    {
        &self.validators
    }

    pub fn fullnode_instances(&self) -> (r: &Vec<Instance>)
        ensures
            r == &self.fullnodes,
    {
        &self.fullnodes
    }
}

} // verus!
