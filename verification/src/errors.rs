//! Error taxonomy of a bootstrap run. Every failure names the operation,
//! and through it the role and index, that first went wrong.

use vstd::prelude::*;
use crate::names::NodeId;

verus! {

/// The nature of a failure, as reported by the remote side.
#[derive(Clone, Copy, PartialEq, Eq, Structural, Debug)]
pub enum ErrorKind {
    /// The remote service was momentarily unavailable; only secret-store
    /// key creation is ever retried on this kind.
    Transient,
    /// A caller or allocator bug (bad backend name, malformed address).
    Configuration,
    /// A remote call failed after any applicable retries.
    Remote,
    /// A referenced node or file is missing.
    NotFound,
}

/// The operation that failed, precise enough to identify the node and phase.
#[derive(Clone, Copy, PartialEq, Eq, Structural, Debug)]
pub enum FailedOp {
    Cleanup,
    GetWorkspace,
    ScaleDown,
    ScaleUp,
    Allocate(NodeId),
    Spawn(NodeId),
    VaultInit(u32),
    /// Position of the failing call within the genesis plan.
    GenesisStep(u32),
    /// Validator index whose node did not receive the genesis artifact.
    Distribute(u32),
    /// The requested secret-tier backend name is not one of the known ones.
    BackendSelection,
    /// The driver handed back an outcome of the wrong shape for the phase.
    DriverProtocol,
}

/// A terminal bootstrap error: its kind, the operation it concerns, and the
/// remote side's own message.
#[derive(Clone, Debug)]
pub struct ProvisionError {
    pub kind: ErrorKind,
    pub op: FailedOp,
    pub detail: String,
}

impl ProvisionError {
    pub fn new(kind: ErrorKind, op: FailedOp, detail: String) -> (e: ProvisionError)
        ensures
            e.kind == kind,
            e.op == op,
            e.detail == detail,
    {
        ProvisionError { kind, op, detail }
    }
}

} // verus!
