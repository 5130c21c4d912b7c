//! Caller-supplied topology parameters and the secret-tier backend choice.

use vstd::prelude::*;
use crate::errors::{ErrorKind, FailedOp, ProvisionError};

verus! {

/// Parameters of one bootstrap run.
#[derive(Clone, Debug)]
pub struct ClusterBuilderParams {
    pub fullnodes_per_validator: u32,
    pub cfg: Vec<String>,
    pub num_validators: u32,
    pub enable_lsr: Option<bool>,
    pub lsr_backend: String,
}

impl ClusterBuilderParams {
    pub fn new(
        num_validators: u32,
        fullnodes_per_validator: u32,
        cfg: Vec<String>,
        enable_lsr: Option<bool>,
        lsr_backend: String,
    ) -> (p: ClusterBuilderParams)
        ensures
            p.num_validators == num_validators,
            p.fullnodes_per_validator == fullnodes_per_validator,
            p.cfg == cfg,
            p.enable_lsr == enable_lsr,
            p.lsr_backend == lsr_backend,
    {
        ClusterBuilderParams { fullnodes_per_validator, cfg, num_validators, enable_lsr, lsr_backend }
    }

    /// Configuration overrides handed verbatim to every validator and
    /// fullnode workload, after one fixed default; later entries never
    /// deduplicate earlier ones.
    pub fn cfg_overrides(&self) -> (r: Vec<String>)
        ensures
            r@.len() == self.cfg@.len() + 1,
            r@[0]@ == "prune_window=50000"@,
            r@.skip(1) == self.cfg@,
    {
        let mut overrides: Vec<String> = Vec::new();
        overrides.push("prune_window=50000".to_owned());
        let mut k: usize = 0;
        while k < self.cfg.len()
            invariant
                overrides@.len() == k + 1,
                k <= self.cfg@.len(),
                overrides@[0]@ == "prune_window=50000"@,
                forall|j: int| 0 <= j < k ==> overrides@[j + 1] == self.cfg@[j],
            decreases self.cfg@.len() - k,
        {
            overrides.push(self.cfg[k].clone());
            k = k + 1;
        }
        proof {
            assert(overrides@.skip(1) =~= self.cfg@);
        }
        overrides
    }

    /// Whether the signing-proxy tier is enabled; on by default.
    pub fn enable_lsr(&self) -> (r: bool)
        ensures
            r == spec_enable_lsr(self),
    {
        match self.enable_lsr {
            Some(b) => b,
            None => true,
        }
    }
}

pub open spec fn spec_enable_lsr(p: &ClusterBuilderParams) -> bool {
    match p.enable_lsr {
        Some(b) => b,
        None => true,
    }
}

/// The backend behind the secret tier.
#[derive(Clone, Copy, PartialEq, Eq, Structural, Debug)]
pub enum LsrBackend {
    InMemory,
    OnDisk,
    Vault,
}

/// The backend a well-formed backend name selects, if any.
pub open spec fn spec_backend_of(s: Seq<char>) -> Option<LsrBackend> {
    if s == "in-memory"@ {
        Some(LsrBackend::InMemory)
    } else if s == "on-disk"@ {
        Some(LsrBackend::OnDisk)
    } else if s == "vault"@ {
        Some(LsrBackend::Vault)
    } else {
        None
    }
}

/// Parses the backend name. Exactly the names `in-memory`, `on-disk` and
/// `vault` are accepted; anything else is a fatal configuration error.
pub fn parse_lsr_backend(s: &String) -> (r: Result<LsrBackend, ProvisionError>)
    ensures
        match r {
            Ok(b) => spec_backend_of(s@) == Some(b),
            Err(e) => spec_backend_of(s@) is None && e.kind == ErrorKind::Configuration
                && e.op == FailedOp::BackendSelection,
        },
{
    proof {
        reveal_strlit("in-memory");
        reveal_strlit("on-disk");
        reveal_strlit("vault");
    }
    if s.eq(&"in-memory".to_owned()) {
        Ok(LsrBackend::InMemory)
    } else if s.eq(&"on-disk".to_owned()) {
        Ok(LsrBackend::OnDisk)
    } else if s.eq(&"vault".to_owned()) {
        Ok(LsrBackend::Vault)
    } else {
        Err(ProvisionError {
            kind: ErrorKind::Configuration,
            op: FailedOp::BackendSelection,
            detail: "unknown lsr backend name".to_owned(),
        })
    }
}

} // verus!
