use cluster_builder::builder::{ClusterBuilder, Orchestrator};
use cluster_builder::errors::{ErrorKind, FailedOp};
use cluster_builder::genesis::{build_genesis_plan, distribution_actions, GenesisCall};
use cluster_builder::instance::NodeHandle;
use cluster_builder::keys::vault_init_key_names;
use cluster_builder::names::{
    asg_name, fullnode_pod_name, lsr_pod_name, node_multiaddr, node_url, u32_dec,
    validator_pod_name, vault_pod_name,
};
use cluster_builder::params::{parse_lsr_backend, ClusterBuilderParams, LsrBackend};
use cluster_builder::settings::BuilderSettings;
use cluster_builder::topology::required_instance_count;

#[test]
fn decimal_rendering() {
    assert_eq!(u32_dec(0), "0");
    assert_eq!(u32_dec(7), "7");
    assert_eq!(u32_dec(10), "10");
    assert_eq!(u32_dec(1234567890), "1234567890");
    assert_eq!(u32_dec(u32::MAX), "4294967295");
}

#[test]
fn pod_names_are_deterministic() {
    assert_eq!(validator_pod_name(0), "val-0");
    assert_eq!(validator_pod_name(29), "val-29");
    assert_eq!(fullnode_pod_name(1, 2), "fn-1-2");
    assert_eq!(fullnode_pod_name(12, 3), "fn-12-3");
    assert_eq!(lsr_pod_name(7), "lsr-7");
    assert_eq!(vault_pod_name(10), "vault-10");
}

#[test]
fn pod_names_never_collide() {
    // Same digits, different roles and groupings: all names stay distinct.
    let mut names = Vec::new();
    for i in 0..4u32 {
        names.push(validator_pod_name(i));
        names.push(lsr_pod_name(i));
        names.push(vault_pod_name(i));
        for f in 0..3u32 {
            names.push(fullnode_pod_name(i, f));
        }
    }
    // "fn-1-23" and "fn-12-3" must differ even though the digits agree.
    names.push(fullnode_pod_name(1, 23));
    names.push(fullnode_pod_name(12, 3));
    for a in 0..names.len() {
        for b in (a + 1)..names.len() {
            assert_ne!(names[a], names[b], "collision at {} and {}", a, b);
        }
    }
}

#[test]
fn urls_and_addresses() {
    assert_eq!(node_url(&"10.1.2.3".to_string(), 8200), "http://10.1.2.3:8200");
    assert_eq!(node_multiaddr(&"10.1.2.3".to_string(), 6180), "/ip4/10.1.2.3/tcp/6180");
    assert_eq!(asg_name(&"west".to_string()), "west-k8s-testnet-validators");
}

#[test]
fn required_count_matches_formula() {
    // validators + validators * fullnodes + role extra
    assert_eq!(required_instance_count(30, 1, true, LsrBackend::Vault), 120);
    assert_eq!(required_instance_count(5, 2, true, LsrBackend::OnDisk), 20);
    assert_eq!(required_instance_count(5, 2, true, LsrBackend::InMemory), 20);
    assert_eq!(required_instance_count(4, 0, false, LsrBackend::InMemory), 4);
    assert_eq!(required_instance_count(3, 1, true, LsrBackend::Vault), 12);
    assert_eq!(required_instance_count(1, 0, true, LsrBackend::Vault), 3);
}

#[test]
fn backend_names_parse_exactly() {
    assert_eq!(parse_lsr_backend(&"vault".to_string()).unwrap(), LsrBackend::Vault);
    assert_eq!(parse_lsr_backend(&"in-memory".to_string()).unwrap(), LsrBackend::InMemory);
    assert_eq!(parse_lsr_backend(&"on-disk".to_string()).unwrap(), LsrBackend::OnDisk);
    let e = parse_lsr_backend(&"Vault".to_string()).unwrap_err();
    assert_eq!(e.kind, ErrorKind::Configuration);
    assert_eq!(e.op, FailedOp::BackendSelection);
    assert!(parse_lsr_backend(&"".to_string()).is_err());
}

#[test]
fn cfg_overrides_prepends_default_and_keeps_duplicates() {
    let params = ClusterBuilderParams::new(
        3,
        1,
        vec!["a=1".to_string(), "b=2".to_string(), "a=1".to_string()],
        None,
        "vault".to_string(),
    );
    let overrides = params.cfg_overrides();
    assert_eq!(
        overrides,
        vec![
            "prune_window=50000".to_string(),
            "a=1".to_string(),
            "b=2".to_string(),
            "a=1".to_string(),
        ]
    );
}

#[test]
fn enable_lsr_defaults_to_true() {
    let mk = |e| ClusterBuilderParams::new(1, 0, Vec::new(), e, "vault".to_string());
    assert!(mk(None).enable_lsr());
    assert!(mk(Some(true)).enable_lsr());
    assert!(!mk(Some(false)).enable_lsr());
}

#[test]
fn vault_key_slots_per_node() {
    let root = "libra".to_string();
    let keys0 = vault_init_key_names(&root, 0);
    assert_eq!(
        keys0,
        vec![
            "libra__libra_root".to_string(),
            "val-0__owner".to_string(),
            "val-0__operator".to_string(),
            "val-0__consensus".to_string(),
            "val-0__execution".to_string(),
            "val-0__validator_network".to_string(),
            "val-0__fullnode_network".to_string(),
        ]
    );
    let keys3 = vault_init_key_names(&root, 3);
    assert_eq!(keys3.len(), 6);
    assert!(!keys3.contains(&"libra__libra_root".to_string()));
    assert_eq!(keys3[0], "val-3__owner");
    // Identical input gives the identical key-slot list on every invocation.
    assert_eq!(vault_init_key_names(&root, 0), keys0);
    assert_eq!(vault_init_key_names(&root, 3), keys3);
}

#[test]
fn settings_fixed_values() {
    let s = BuilderSettings::testnet();
    assert_eq!(s.vault_port, 8200);
    assert_eq!(s.network_port, 6180);
    assert_eq!(s.chain_id, 1);
    assert_eq!(s.vault_token, "root");
    assert_eq!(s.libra_root_name, "libra");
    assert_eq!(s.vault_backend_name, "vault");
    assert_eq!(s.namespace, "common");
    assert_eq!(s.layout_path, "/tmp/layout.yaml");
    assert_eq!(s.token_path, "/tmp/token");
    assert_eq!(s.genesis_path, "/tmp/genesis.blob");
    assert_eq!(s.mint_key_path, "/tmp/mint.key");
    assert_eq!(s.genesis_dest_path, "/opt/libra/etc/genesis2.blob");
    assert_eq!(s.retry.max_attempts, 15);
    assert_eq!(s.retry.delay_ms, 5000);
}

fn handles(prefix: &str, n: u32) -> Vec<NodeHandle> {
    (0..n)
        .map(|i| NodeHandle {
            name: format!("{}-{}", prefix, i),
            internal_ip: format!("10.0.{}.{}", prefix.len(), i),
        })
        .collect()
}

#[test]
fn genesis_plan_is_sequential_per_validator() {
    let s = BuilderSettings::testnet();
    let vaults = handles("vault", 3);
    let validators = handles("val", 3);
    let fullnodes = handles("fn", 3);
    let plan = build_genesis_plan(3, &vaults, &validators, &fullnodes, &s);
    assert_eq!(plan.len(), 7 + 5 * 3);

    // Head: layout file, token file, layout registration, root key.
    match &plan[0] {
        GenesisCall::WriteLayoutFile { path, owners, operators, root_name } => {
            assert_eq!(path, "/tmp/layout.yaml");
            assert_eq!(owners, &vec!["val-0".to_string(), "val-1".to_string(), "val-2".to_string()]);
            assert_eq!(operators, owners);
            assert_eq!(root_name, "libra");
        },
        other => panic!("unexpected head call: {:?}", other),
    }
    assert!(matches!(&plan[1], GenesisCall::WriteTokenFile { path, token }
        if path.as_str() == "/tmp/token" && token.as_str() == "root"));
    assert!(matches!(&plan[2], GenesisCall::SetLayout { layout_path, namespace }
        if layout_path.as_str() == "/tmp/layout.yaml" && namespace.as_str() == "common"));
    assert!(matches!(&plan[3], GenesisCall::RegisterRootKey { url, root_name, .. }
        if url.as_str() == "http://10.0.5.0:8200" && root_name.as_str() == "libra"));

    // Every registration call of validator i stands before every one of j>i.
    let reg_validator = |c: &GenesisCall| match c {
        GenesisCall::RegisterOwnerKey { validator_index, .. }
        | GenesisCall::RegisterOperatorKey { validator_index, .. }
        | GenesisCall::RegisterValidatorNetwork { validator_index, .. }
        | GenesisCall::AssignOperator { validator_index, .. } => Some(*validator_index),
        _ => None,
    };
    let positions: Vec<(usize, u32)> = plan
        .iter()
        .enumerate()
        .filter_map(|(p, c)| reg_validator(c).map(|v| (p, v)))
        .collect();
    assert_eq!(positions.len(), 12);
    for &(p, i) in &positions {
        for &(q, j) in &positions {
            if i < j {
                assert!(p < q, "call for validator {} at {} after {} of {}", i, p, q, j);
            }
        }
    }

    // Within one validator, program order: owner, operator, network, operator binding.
    assert!(matches!(&plan[4], GenesisCall::RegisterOwnerKey { validator_index: 0, .. }));
    assert!(matches!(&plan[5], GenesisCall::RegisterOperatorKey { validator_index: 0, .. }));
    match &plan[6] {
        GenesisCall::RegisterValidatorNetwork {
            validator_index,
            validator_addr,
            fullnode_addr,
            chain_id,
            ..
        } => {
            assert_eq!(*validator_index, 0);
            assert_eq!(validator_addr, "/ip4/10.0.3.0/tcp/6180");
            assert_eq!(fullnode_addr, "/ip4/10.0.2.0/tcp/6180");
            assert_eq!(*chain_id, 1);
        },
        other => panic!("unexpected call: {:?}", other),
    }
    assert!(matches!(&plan[7], GenesisCall::AssignOperator { validator_index: 0, .. }));

    // Tail: finalize, one waypoint per validator, key extraction, read-back.
    assert!(matches!(&plan[16], GenesisCall::Finalize { chain_id: 1, output_path }
        if output_path.as_str() == "/tmp/genesis.blob"));
    for i in 0..3u32 {
        assert!(matches!(&plan[17 + i as usize],
            GenesisCall::CreateWaypoint { validator_index, .. } if *validator_index == i));
    }
    assert!(matches!(&plan[20], GenesisCall::ExtractPrivateKey { key_name, output_path, .. }
        if key_name.as_str() == "libra__libra_root" && output_path.as_str() == "/tmp/mint.key"));
    assert!(matches!(&plan[21], GenesisCall::ReadArtifact { path } if path.as_str() == "/tmp/genesis.blob"));
}

#[test]
fn distribution_copies_identical_bytes_to_every_validator() {
    let s = BuilderSettings::testnet();
    let validators = handles("val", 3);
    let artifact: Vec<u8> = vec![9, 1, 1, 2];
    let acts = distribution_actions(&validators, &artifact, &s);
    assert_eq!(acts.len(), 3);
    for (i, a) in acts.iter().enumerate() {
        assert_eq!(a.node_name, format!("val-{}", i));
        assert_eq!(a.pod_name, format!("val-{}", i));
        assert_eq!(a.dest_path, "/opt/libra/etc/genesis2.blob");
        assert_eq!(a.bytes, artifact);
    }
}

#[test]
fn builder_keeps_tag_and_settings() {
    let b = ClusterBuilder::new("release-1.2".to_string(), BuilderSettings::testnet());
    assert_eq!(b.current_tag, "release-1.2");
    assert_eq!(b.settings.vault_port, 8200);
    let params = ClusterBuilderParams::new(1, 0, Vec::new(), Some(false), "bogus".to_string());
    let err = Orchestrator::start(&b, &params, false).unwrap_err();
    assert_eq!(err.kind, ErrorKind::Configuration);
    assert_eq!(err.op, FailedOp::BackendSelection);
}
