//! Fixed endpoints, paths and policies of a bootstrap run, passed in
//! explicitly at construction rather than read from ambient constants.

use vstd::prelude::*;

verus! {

/// Bounded retry with a fixed delay, applied to exactly one call site:
/// secret-store node initialization.
#[derive(Clone, Copy, PartialEq, Eq, Structural, Debug)]
pub struct RetryPolicy {
    pub max_attempts: u32,
    pub delay_ms: u64,
}

/// Everything fixed about a run: ports, transient file paths, the secret
/// store's bearer token, the chain identifier and the retry policy.
#[derive(Clone, Debug)]
pub struct BuilderSettings {
    /// Port the secret service listens on, on every secret-store node.
    pub vault_port: u32,
    /// Port of validator and fullnode network endpoints.
    pub network_port: u32,
    /// Chain identifier bound into validator configurations and genesis.
    pub chain_id: u8,
    /// Bearer token for the secret store.
    pub vault_token: String,
    /// Name of the root identity in the layout document.
    pub libra_root_name: String,
    /// Backend selector handed to the genesis tooling.
    pub vault_backend_name: String,
    /// Shared namespace the layout is registered under.
    pub namespace: String,
    /// Transient path of the layout document.
    pub layout_path: String,
    /// Transient path of the bearer-token file.
    pub token_path: String,
    /// Transient path of the finalized genesis artifact.
    pub genesis_path: String,
    /// Transient path the root private key is extracted to.
    pub mint_key_path: String,
    /// Working path of the genesis tooling itself.
    pub genesis_config_path: String,
    /// Well-known path inside each validator node the artifact is copied to.
    pub genesis_dest_path: String,
    /// Retry policy for secret-store initialization.
    pub retry: RetryPolicy,
}

impl BuilderSettings {
    /// An equal copy of the settings.
    pub fn duplicate(&self) -> (s: BuilderSettings)
        ensures
            s == *self,
    {
        BuilderSettings {
            vault_port: self.vault_port,
            network_port: self.network_port,
            chain_id: self.chain_id,
            vault_token: self.vault_token.clone(),
            libra_root_name: self.libra_root_name.clone(),
            vault_backend_name: self.vault_backend_name.clone(),
            namespace: self.namespace.clone(),
            layout_path: self.layout_path.clone(),
            token_path: self.token_path.clone(),
            genesis_path: self.genesis_path.clone(),
            mint_key_path: self.mint_key_path.clone(),
            genesis_config_path: self.genesis_config_path.clone(),
            genesis_dest_path: self.genesis_dest_path.clone(),
            retry: self.retry,
        }
    }

    /// The fixed values used for testnet bootstraps.
    pub fn testnet() -> (s: BuilderSettings)
        ensures
            s.vault_port == 8200,
            s.network_port == 6180,
            s.chain_id == 1,
            s.vault_token@ == "root"@,
            s.libra_root_name@ == "libra"@,
            s.vault_backend_name@ == "vault"@,
            s.namespace@ == "common"@,
            s.layout_path@ == "/tmp/layout.yaml"@,
            s.token_path@ == "/tmp/token"@,
            s.genesis_path@ == "/tmp/genesis.blob"@,
            s.mint_key_path@ == "/tmp/mint.key"@,
            s.genesis_config_path@ == "/tmp/genesis.json"@,
            s.genesis_dest_path@ == "/opt/libra/etc/genesis2.blob"@,
            s.retry == (RetryPolicy { max_attempts: 15, delay_ms: 5000 }),
    {
        BuilderSettings {
            vault_port: 8200,
            network_port: 6180,
            chain_id: 1,
            vault_token: "root".to_owned(),
            libra_root_name: "libra".to_owned(),
            vault_backend_name: "vault".to_owned(),
            namespace: "common".to_owned(),
            layout_path: "/tmp/layout.yaml".to_owned(),
            token_path: "/tmp/token".to_owned(),
            genesis_path: "/tmp/genesis.blob".to_owned(),
            mint_key_path: "/tmp/mint.key".to_owned(),
            genesis_config_path: "/tmp/genesis.json".to_owned(),
            genesis_dest_path: "/opt/libra/etc/genesis2.blob".to_owned(),
            retry: RetryPolicy { max_attempts: 15, delay_ms: 5000 },
        }
    }
}

} // verus!
