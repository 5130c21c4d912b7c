use cluster_builder::actions::{Action, StepOutcome};
use cluster_builder::builder::{ClusterBuilder, Orchestrator, Phase};
use cluster_builder::errors::{ErrorKind, FailedOp};
use cluster_builder::genesis::GenesisCall;
use cluster_builder::instance::{ApplicationConfig, Instance, NodeHandle};
use cluster_builder::names::NodeId;
use cluster_builder::params::ClusterBuilderParams;
use cluster_builder::settings::BuilderSettings;

fn builder() -> ClusterBuilder {
    ClusterBuilder::new("tag-1".to_string(), BuilderSettings::testnet())
}

/// Answers a batch of allocations with handles named after the requested
/// slots, each with a unique address.
fn allocate_all(actions: &[Action], subnet: u32) -> Vec<StepOutcome> {
    actions
        .iter()
        .enumerate()
        .map(|(i, a)| match a {
            Action::AllocateNode { name, .. } => StepOutcome::Allocated(NodeHandle {
                name: name.clone(),
                internal_ip: format!("10.{}.0.{}", subnet, i),
            }),
            other => panic!("expected an allocation, got {:?}", other),
        })
        .collect()
}

fn spawn_all(actions: &[Action]) -> Vec<StepOutcome> {
    actions
        .iter()
        .map(|a| match a {
            Action::SpawnInstance { node_name, .. } => StepOutcome::Spawned(Instance {
                name: node_name.clone(),
                internal_ip: "10.9.9.9".to_string(),
            }),
            other => panic!("expected a spawn, got {:?}", other),
        })
        .collect()
}

#[test]
fn full_run_with_remote_secret_tier() {
    // num_validators=3, fullnodes_per_validator=1, secret tier enabled with
    // the remote backend: 3 secret-store, 3 signing-proxy, 3 validator and
    // 3 fullnode nodes; the genesis ceremony runs exactly once; exactly 3
    // copies of the artifact are made.
    let params =
        ClusterBuilderParams::new(3, 1, vec!["x=1".to_string()], Some(true), "vault".to_string());
    let mut o = Orchestrator::start(&builder(), &params, true).unwrap();
    let mut genesis_batches = 0usize;
    let mut copy_actions = 0usize;
    let mut allocated: Vec<String> = Vec::new();

    assert!(matches!(o.phase, Phase::Cleanup));
    let b = o.next_batch();
    assert_eq!(b.actions.len(), 1);
    assert!(matches!(b.actions[0], Action::Cleanup));
    o.apply(vec![StepOutcome::Success]);

    assert!(matches!(o.phase, Phase::Workspace));
    let b = o.next_batch();
    assert!(matches!(b.actions[0], Action::GetWorkspace));
    o.apply(vec![StepOutcome::Workspace("west".to_string())]);

    // Clean run: drain, then scale up to 3 + 3 + 2*3 = 12 instances.
    assert!(matches!(o.phase, Phase::ScaleDown));
    let b = o.next_batch();
    match &b.actions[0] {
        Action::Resize { asg_name, target, wait_scale_up, wait_scale_down, .. } => {
            assert_eq!(asg_name, "west-k8s-testnet-validators");
            assert_eq!(*target, 0);
            assert!(*wait_scale_up && *wait_scale_down);
        },
        other => panic!("expected a resize, got {:?}", other),
    }
    o.apply(vec![StepOutcome::Success]);

    assert!(matches!(o.phase, Phase::ScaleUp));
    let b = o.next_batch();
    match &b.actions[0] {
        Action::Resize { target, min_healthy_percent, wait_scale_up, wait_scale_down, .. } => {
            assert_eq!(*target, 12);
            assert_eq!(*min_healthy_percent, 5);
            assert!(*wait_scale_up && !*wait_scale_down);
        },
        other => panic!("expected a resize, got {:?}", other),
    }
    o.apply(vec![StepOutcome::Success]);

    assert!(matches!(o.phase, Phase::AllocateVaults));
    let b = o.next_batch();
    assert_eq!(b.actions.len(), 3);
    for (i, a) in b.actions.iter().enumerate() {
        match a {
            Action::AllocateNode { id, name } => {
                assert_eq!(*id, NodeId::Vault(i as u32));
                assert_eq!(name, &format!("vault-{}", i));
                allocated.push(name.clone());
            },
            other => panic!("expected an allocation, got {:?}", other),
        }
    }
    let outcomes = allocate_all(&b.actions, 1);
    o.apply(outcomes);

    assert!(matches!(o.phase, Phase::AllocateLsrs));
    let b = o.next_batch();
    assert_eq!(b.actions.len(), 3);
    for name in b.actions.iter().map(|a| match a {
        Action::AllocateNode { name, .. } => name.clone(),
        other => panic!("expected an allocation, got {:?}", other),
    }) {
        allocated.push(name);
    }
    let outcomes = allocate_all(&b.actions, 2);
    o.apply(outcomes);

    assert!(matches!(o.phase, Phase::SpawnSecretTier));
    let b = o.next_batch();
    assert_eq!(b.actions.len(), 6);
    o.apply(spawn_all(&b.actions));

    assert!(matches!(o.phase, Phase::AllocateValidators));
    let b = o.next_batch();
    assert_eq!(b.actions.len(), 3);
    for (i, a) in b.actions.iter().enumerate() {
        match a {
            Action::AllocateNode { name, .. } => {
                assert_eq!(name, &format!("val-{}", i));
                allocated.push(name.clone());
            },
            other => panic!("expected an allocation, got {:?}", other),
        }
    }
    let outcomes = allocate_all(&b.actions, 3);
    o.apply(outcomes);

    assert!(matches!(o.phase, Phase::AllocateFullnodes));
    let b = o.next_batch();
    assert_eq!(b.actions.len(), 3);
    for (i, a) in b.actions.iter().enumerate() {
        match a {
            Action::AllocateNode { id, name } => {
                assert_eq!(*id, NodeId::Fullnode(i as u32, 0));
                assert_eq!(name, &format!("fn-{}-0", i));
                allocated.push(name.clone());
            },
            other => panic!("expected an allocation, got {:?}", other),
        }
    }
    let outcomes = allocate_all(&b.actions, 4);
    o.apply(outcomes);

    // All twelve allocated names are unique across roles and indices.
    assert_eq!(allocated.len(), 12);
    for a in 0..allocated.len() {
        for b in (a + 1)..allocated.len() {
            assert_ne!(allocated[a], allocated[b]);
        }
    }

    assert!(matches!(o.phase, Phase::InitializeVaults));
    let b = o.next_batch();
    assert_eq!(b.actions.len(), 3);
    match &b.actions[0] {
        Action::CreateKeySlots { validator_index, url, token, keys, retry } => {
            assert_eq!(*validator_index, 0);
            assert_eq!(url, "http://10.1.0.0:8200");
            assert_eq!(token, "root");
            assert_eq!(keys.len(), 7);
            assert_eq!(keys[0], "libra__libra_root");
            assert_eq!(retry.max_attempts, 15);
            assert_eq!(retry.delay_ms, 5000);
        },
        other => panic!("expected key-slot creation, got {:?}", other),
    }
    match &b.actions[2] {
        Action::CreateKeySlots { validator_index, keys, .. } => {
            assert_eq!(*validator_index, 2);
            assert_eq!(keys.len(), 6);
        },
        other => panic!("expected key-slot creation, got {:?}", other),
    }
    o.apply(vec![StepOutcome::Success, StepOutcome::Success, StepOutcome::Success]);

    assert!(matches!(o.phase, Phase::RunGenesis));
    let b = o.next_batch();
    assert!(b.sequential);
    genesis_batches += 1;
    assert_eq!(b.actions.len(), 7 + 5 * 3);
    for a in &b.actions {
        assert!(matches!(a, Action::Genesis(_)));
    }
    assert!(matches!(&b.actions[21], Action::Genesis(GenesisCall::ReadArtifact { .. })));
    let mut outcomes: Vec<StepOutcome> = (0..21).map(|_| StepOutcome::Success).collect();
    outcomes.push(StepOutcome::ArtifactBytes(vec![1, 2, 3, 4]));
    o.apply(outcomes);

    assert!(matches!(o.phase, Phase::DistributeGenesis));
    let b = o.next_batch();
    assert_eq!(b.actions.len(), 3);
    for (i, a) in b.actions.iter().enumerate() {
        match a {
            Action::CopyToNode(c) => {
                copy_actions += 1;
                assert_eq!(c.node_name, format!("val-{}", i));
                assert_eq!(c.dest_path, "/opt/libra/etc/genesis2.blob");
                assert_eq!(c.bytes, vec![1, 2, 3, 4]);
            },
            other => panic!("expected a copy, got {:?}", other),
        }
    }
    o.apply(vec![StepOutcome::Success, StepOutcome::Success, StepOutcome::Success]);

    assert!(matches!(o.phase, Phase::SpawnValidatorsAndFullnodes));
    let b = o.next_batch();
    assert_eq!(b.actions.len(), 6);
    match &b.actions[0] {
        Action::SpawnInstance { node_name, wipe_data, config } => {
            assert_eq!(node_name, "val-0");
            assert!(*wipe_data);
            assert_eq!(config.validator_group, 0);
            match &config.application_config {
                ApplicationConfig::Validator(v) => {
                    assert_eq!(v.num_validators, 3);
                    assert_eq!(v.num_fullnodes, 1);
                    assert!(v.enable_lsr);
                    assert_eq!(v.image_tag, "tag-1");
                    assert_eq!(
                        v.config_overrides,
                        vec!["prune_window=50000".to_string(), "x=1".to_string()]
                    );
                    // Peer seed is always validator 0's address.
                    assert_eq!(v.seed_peer_ip, "10.3.0.0");
                    assert_eq!(v.safety_rules_addr.as_deref(), Some("10.2.0.0"));
                },
                other => panic!("expected a validator config, got {:?}", other),
            }
        },
        other => panic!("expected a spawn, got {:?}", other),
    }
    match &b.actions[5] {
        Action::SpawnInstance { node_name, config, .. } => {
            assert_eq!(node_name, "fn-2-0");
            assert_eq!(config.validator_group, 2);
            match &config.application_config {
                ApplicationConfig::Fullnode(f) => {
                    assert_eq!(f.fullnode_index, 0);
                    assert_eq!(f.num_fullnodes_per_validator, 1);
                    assert_eq!(f.num_validators, 3);
                    assert_eq!(f.seed_peer_ip, "10.3.0.2");
                },
                other => panic!("expected a fullnode config, got {:?}", other),
            }
        },
        other => panic!("expected a spawn, got {:?}", other),
    }
    o.apply(spawn_all(&b.actions));

    assert!(matches!(o.phase, Phase::Complete));
    assert_eq!(o.next_batch().actions.len(), 0);
    assert_eq!(genesis_batches, 1);
    assert_eq!(copy_actions, 3);
    let cluster = o.result().unwrap();
    assert_eq!(cluster.validator_instances().len(), 3);
    assert_eq!(cluster.fullnode_instances().len(), 3);
    assert_eq!(cluster.lsrs.len(), 3);
    assert_eq!(cluster.vaults.len(), 3);
}

#[test]
fn fullnode_allocation_failure_aborts_with_exact_operation() {
    // Allocation of fullnode index 2 of validator index 1 fails: the run
    // reports exactly that role and index, and no spawn is ever emitted.
    let params = ClusterBuilderParams::new(2, 3, Vec::new(), Some(false), "vault".to_string());
    let mut o = Orchestrator::start(&builder(), &params, false).unwrap();
    o.apply(vec![StepOutcome::Success]); // cleanup
    o.apply(vec![StepOutcome::Workspace("w".to_string())]);
    assert!(matches!(o.phase, Phase::AllocateValidators));
    let b = o.next_batch();
    o.apply(allocate_all(&b.actions, 1));
    assert!(matches!(o.phase, Phase::AllocateFullnodes));
    let b = o.next_batch();
    assert_eq!(b.actions.len(), 6);
    let expected_ids = [(0, 0), (0, 1), (0, 2), (1, 0), (1, 1), (1, 2)];
    for (a, (v, f)) in b.actions.iter().zip(expected_ids) {
        match a {
            Action::AllocateNode { id, name } => {
                assert_eq!(*id, NodeId::Fullnode(v, f));
                assert_eq!(name, &format!("fn-{}-{}", v, f));
            },
            other => panic!("expected an allocation, got {:?}", other),
        }
    }
    let mut outcomes = allocate_all(&b.actions, 2);
    // Flat position 1*3 + 2 = 5 is fullnode 2 of validator 1.
    outcomes[5] = StepOutcome::Failure(ErrorKind::Remote, "allocation refused".to_string());
    o.apply(outcomes);
    assert!(matches!(o.phase, Phase::Failed));
    assert_eq!(o.next_batch().actions.len(), 0);
    let err = o.result().unwrap_err();
    assert_eq!(err.kind, ErrorKind::Remote);
    assert_eq!(err.op, FailedOp::Allocate(NodeId::Fullnode(1, 2)));
    assert_eq!(err.detail, "allocation refused");
}

#[test]
fn earliest_failure_wins() {
    let params = ClusterBuilderParams::new(2, 0, Vec::new(), Some(false), "on-disk".to_string());
    let mut o = Orchestrator::start(&builder(), &params, false).unwrap();
    o.apply(vec![StepOutcome::Success]);
    o.apply(vec![StepOutcome::Workspace("w".to_string())]);
    assert!(matches!(o.phase, Phase::AllocateValidators));
    let outcomes = vec![
        StepOutcome::Failure(ErrorKind::NotFound, "first".to_string()),
        StepOutcome::Failure(ErrorKind::Remote, "second".to_string()),
    ];
    o.apply(outcomes);
    let err = o.result().unwrap_err();
    assert_eq!(err.kind, ErrorKind::NotFound);
    assert_eq!(err.op, FailedOp::Allocate(NodeId::Validator(0)));
    assert_eq!(err.detail, "first");
}

#[test]
fn disabled_secret_tier_skips_initializer_and_genesis() {
    // enable_lsr=false: no secret-tier phase ever runs, and validators are
    // spawned with no signing-proxy address.
    let params = ClusterBuilderParams::new(2, 1, Vec::new(), Some(false), "vault".to_string());
    let mut o = Orchestrator::start(&builder(), &params, false).unwrap();
    let mut saw_secret_tier_action = false;
    loop {
        match o.phase {
            Phase::Complete | Phase::Failed => break,
            _ => {},
        }
        let b = o.next_batch();
        for a in &b.actions {
            if matches!(a, Action::CreateKeySlots { .. })
                || matches!(a, Action::Genesis(_))
                || matches!(a, Action::CopyToNode(_))
            {
                saw_secret_tier_action = true;
            }
        }
        let outcomes: Vec<StepOutcome> = b
            .actions
            .iter()
            .map(|a| match a {
                Action::Cleanup | Action::Resize { .. } => StepOutcome::Success,
                Action::GetWorkspace => StepOutcome::Workspace("w".to_string()),
                Action::AllocateNode { name, .. } => StepOutcome::Allocated(NodeHandle {
                    name: name.clone(),
                    internal_ip: format!("10.8.0.{}", name.len()),
                }),
                Action::SpawnInstance { node_name, config, .. } => {
                    match &config.application_config {
                        ApplicationConfig::Validator(v) => {
                            assert!(!v.enable_lsr);
                            assert!(v.safety_rules_addr.is_none());
                        },
                        ApplicationConfig::Fullnode(_) => {},
                        other => panic!("unexpected role spawned: {:?}", other),
                    }
                    StepOutcome::Spawned(Instance {
                        name: node_name.clone(),
                        internal_ip: "10.8.1.1".to_string(),
                    })
                },
                other => panic!("unexpected action: {:?}", other),
            })
            .collect();
        o.apply(outcomes);
    }
    assert!(matches!(o.phase, Phase::Complete));
    assert!(!saw_secret_tier_action);
    let cluster = o.result().unwrap();
    assert_eq!(cluster.validators.len(), 2);
    assert_eq!(cluster.fullnodes.len(), 2);
    assert_eq!(cluster.lsrs.len(), 0);
    assert_eq!(cluster.vaults.len(), 0);
}

#[test]
fn local_backend_keeps_proxies_but_no_vaults() {
    // Secret tier enabled with a local backend: signing proxies exist, but
    // no secret-store node, no initialization and no genesis ceremony.
    let params = ClusterBuilderParams::new(2, 0, Vec::new(), Some(true), "in-memory".to_string());
    let mut o = Orchestrator::start(&builder(), &params, false).unwrap();
    o.apply(vec![StepOutcome::Success]);
    o.apply(vec![StepOutcome::Workspace("w".to_string())]);
    assert!(matches!(o.phase, Phase::AllocateLsrs));
    let b = o.next_batch();
    o.apply(allocate_all(&b.actions, 1));
    assert!(matches!(o.phase, Phase::SpawnSecretTier));
    let b = o.next_batch();
    assert_eq!(b.actions.len(), 2);
    for a in &b.actions {
        match a {
            Action::SpawnInstance { config, .. } => match &config.application_config {
                ApplicationConfig::LSR(l) => {
                    assert_eq!(l.lsr_backend, "in-memory");
                    assert_eq!(l.num_validators, 2);
                },
                other => panic!("expected a signing-proxy config, got {:?}", other),
            },
            other => panic!("expected a spawn, got {:?}", other),
        }
    }
    o.apply(spawn_all(&b.actions));
    assert!(matches!(o.phase, Phase::AllocateValidators));
    let b = o.next_batch();
    o.apply(allocate_all(&b.actions, 2));
    assert!(matches!(o.phase, Phase::AllocateFullnodes));
    let b = o.next_batch();
    assert_eq!(b.actions.len(), 0);
    o.apply(Vec::new());
    // Straight to spawning: no vault initialization, no genesis.
    assert!(matches!(o.phase, Phase::SpawnValidatorsAndFullnodes));
    let b = o.next_batch();
    assert_eq!(b.actions.len(), 2);
    o.apply(spawn_all(&b.actions));
    assert!(matches!(o.phase, Phase::Complete));
}

#[test]
fn exhausted_secret_store_retries_are_fatal() {
    // The driver retries key-slot creation; once the budget is spent, the
    // surfaced failure names the exact node's initialization.
    let params = ClusterBuilderParams::new(2, 1, Vec::new(), Some(true), "vault".to_string());
    let mut o = Orchestrator::start(&builder(), &params, false).unwrap();
    o.apply(vec![StepOutcome::Success]);
    o.apply(vec![StepOutcome::Workspace("w".to_string())]);
    let b = o.next_batch(); // secret-store nodes
    o.apply(allocate_all(&b.actions, 1));
    let b = o.next_batch(); // signing-proxy nodes
    o.apply(allocate_all(&b.actions, 2));
    let b = o.next_batch(); // secret-tier spawns
    o.apply(spawn_all(&b.actions));
    let b = o.next_batch(); // validators
    o.apply(allocate_all(&b.actions, 3));
    let b = o.next_batch(); // fullnodes
    o.apply(allocate_all(&b.actions, 4));
    assert!(matches!(o.phase, Phase::InitializeVaults));
    let b = o.next_batch();
    assert_eq!(b.actions.len(), 2);
    o.apply(vec![
        StepOutcome::Success,
        StepOutcome::Failure(ErrorKind::Transient, "store still sealed".to_string()),
    ]);
    let err = o.result().unwrap_err();
    assert_eq!(err.kind, ErrorKind::Transient);
    assert_eq!(err.op, FailedOp::VaultInit(1));
}

#[test]
fn wrong_shaped_outcomes_fail_the_run() {
    let params = ClusterBuilderParams::new(1, 0, Vec::new(), Some(false), "vault".to_string());
    let mut o = Orchestrator::start(&builder(), &params, false).unwrap();
    // Two outcomes for a one-action batch: a driver bug, not a silent pass.
    o.apply(vec![StepOutcome::Success, StepOutcome::Success]);
    assert!(matches!(o.phase, Phase::Failed));
    let err = o.result().unwrap_err();
    assert_eq!(err.kind, ErrorKind::Configuration);
    assert_eq!(err.op, FailedOp::DriverProtocol);
}
