//! Sizing of the compute pool from the requested topology.

use vstd::prelude::*;
use crate::params::LsrBackend;

verus! {

/// Instances the secret and signing-proxy tiers add on top of validators and
/// fullnodes: none when the tier is disabled, one per validator for a local
/// backend, two per validator (signing proxy + secret store) for the remote
/// `vault` backend.
pub open spec fn spec_role_extra(num_validators: nat, enable_lsr: bool, backend: LsrBackend) -> nat {
    if !enable_lsr {
        0
    } else if backend == LsrBackend::Vault {
        2 * num_validators
    } else {
        num_validators
    }
}

/// Total compute instances a topology needs, computed before any scaling
/// request is issued.
pub open spec fn spec_required_instance_count(
    num_validators: nat,
    fullnodes_per_validator: nat,
    enable_lsr: bool,
    backend: LsrBackend,
) -> nat {
    num_validators + num_validators * fullnodes_per_validator + spec_role_extra(
        num_validators,
        enable_lsr,
        backend,
    )
}

/// The fullnode total is bounded by the total instance count.
pub proof fn lemma_fullnode_count_fits(
    num_validators: nat,
    fullnodes_per_validator: nat,
    enable_lsr: bool,
    backend: LsrBackend,
)
    requires
        spec_required_instance_count(
            num_validators,
            fullnodes_per_validator,
            enable_lsr,
            backend,
        ) <= u32::MAX,
    ensures
        num_validators * fullnodes_per_validator <= u32::MAX,
{
}

/// Computes the required pool capacity for the topology.
pub fn required_instance_count(
    num_validators: u32,
    fullnodes_per_validator: u32,
    enable_lsr: bool,
    backend: LsrBackend,
) -> (r: u32)
    requires
        spec_required_instance_count(
            num_validators as nat,
            fullnodes_per_validator as nat,
            enable_lsr,
            backend,
        ) <= u32::MAX,
    ensures
        r == spec_required_instance_count(
            num_validators as nat,
            fullnodes_per_validator as nat,
            enable_lsr,
            backend,
        ),
{
    let mut count: u32 = num_validators + fullnodes_per_validator * num_validators;
    if enable_lsr {
        if matches!(backend, LsrBackend::Vault) {
            count = count + num_validators * 2;
        } else {
            count = count + num_validators;
        }
    }
    count
}

} // verus!
