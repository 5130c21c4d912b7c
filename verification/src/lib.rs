//! Verified orchestration core for bootstrapping a multi-node test cluster.
//!
//! The library owns the decisions of the bootstrap run: how many compute
//! instances a topology needs, which node names each role receives, which
//! cryptographic key slots each secret-store node must hold, the strictly
//! sequential genesis ceremony plan, and the phase-by-phase state machine
//! that drives allocation, initialization, genesis and spawning. All remote
//! effects (scheduler, pool scaler, secret store, genesis tooling) are
//! performed by an unverified driver that executes the actions this library
//! emits and feeds the outcomes back in.

pub mod actions;
pub mod builder;
pub mod errors;
pub mod genesis;
pub mod instance;
pub mod keys;
pub mod names;
pub mod params;
pub mod settings;
pub mod topology;
