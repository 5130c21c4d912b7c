//! Key slots the secret tier must hold, and the effect of initializing a
//! secret-store node, modeled over the set of key names the store contains.

use vstd::prelude::*;
use crate::names::{node_name_seq, validator_pod_name, NodeId};

verus! {

/// `namespace__key`: how a key slot is scoped to its owner.
pub open spec fn scoped_key(owner: Seq<char>, key: Seq<char>) -> Seq<char> {
    owner + "__"@ + key
}

/// The shared root key, created exactly once, on the index-0 node.
pub open spec fn root_key_name(root_name: Seq<char>) -> Seq<char> {
    scoped_key(root_name, "libra_root"@)
}

/// The key slots every validator's secret-store node holds, scoped to the
/// validator's pod name, in creation order.
pub open spec fn validator_key_list(validator_index: u32) -> Seq<Seq<char>> {
    let pod = node_name_seq(NodeId::Validator(validator_index));
    seq![
        scoped_key(pod, "owner"@),
        scoped_key(pod, "operator"@),
        scoped_key(pod, "consensus"@),
        scoped_key(pod, "execution"@),
        scoped_key(pod, "validator_network"@),
        scoped_key(pod, "fullnode_network"@),
    ]
}

/// All keys one initialization of node `validator_index` creates: the
/// designated index-0 node additionally creates the root key, first.
pub open spec fn init_key_list(root_name: Seq<char>, validator_index: u32) -> Seq<Seq<char>> {
    if validator_index == 0 {
        seq![root_key_name(root_name)] + validator_key_list(validator_index)
    } else {
        validator_key_list(validator_index)
    }
}

/// The key-slot set one successful initialization leaves on the node.
pub open spec fn init_key_set(root_name: Seq<char>, validator_index: u32) -> Set<Seq<char>> {
    init_key_list(root_name, validator_index).to_set()
}

/// A secret store is a set of named key slots; creating a key that already
/// exists leaves the slot in place, so initialization adds the node's keys.
pub open spec fn apply_init(
    store: Set<Seq<char>>,
    root_name: Seq<char>,
    validator_index: u32,
) -> Set<Seq<char>> {
    store.union(init_key_set(root_name, validator_index))
}

/// Law: initializing a node is idempotent under retries. However many
/// identical attempts ran before — even ones that failed after creating
/// only a part (`partial`) of the node's keys — one further successful
/// initialization leaves exactly the key-slot set of a single successful
/// call: no duplicate and no missing keys.
pub proof fn lemma_initialize_idempotent(
    store: Set<Seq<char>>,
    partial: Set<Seq<char>>,
    root_name: Seq<char>,
    validator_index: u32,
)
    requires
        partial.subset_of(init_key_set(root_name, validator_index)),
    ensures
        apply_init(store.union(partial), root_name, validator_index) == apply_init(
            store,
            root_name,
            validator_index,
        ),
{
    assert(apply_init(store.union(partial), root_name, validator_index) =~= apply_init(
        store,
        root_name,
        validator_index,
    ));
}

/// Law: a second complete initialization of the same node changes nothing.
pub proof fn lemma_initialize_twice(store: Set<Seq<char>>, root_name: Seq<char>, validator_index: u32)
    ensures
        apply_init(apply_init(store, root_name, validator_index), root_name, validator_index)
            == apply_init(store, root_name, validator_index),
{
    lemma_initialize_idempotent(
        store,
        init_key_set(root_name, validator_index),
        root_name,
        validator_index,
    );
}

/// The full name of the shared root key.
pub fn root_key_name_string(root_name: &String) -> (s: String)
    ensures
        s@ == root_key_name(root_name@),
{
    scoped_key_name(root_name, "libra_root")
}

fn scoped_key_name(owner: &String, key: &str) -> (s: String)
    ensures
        s@ == scoped_key(owner@, key@),
{
    let mut s = owner.clone();
    s.append("__");
    s.append(key);
    s
}

/// The names of the key slots to create on the secret-store node of
/// `validator_index`, in creation order.
pub fn vault_init_key_names(root_name: &String, validator_index: u32) -> (keys: Vec<String>)
    ensures
        keys@.len() == init_key_list(root_name@, validator_index).len(),
        forall|k: int|
            0 <= k < keys@.len() ==> keys@[k]@ == init_key_list(root_name@, validator_index)[k],
{
    let mut keys: Vec<String> = Vec::new();
    if validator_index == 0 {
        keys.push(scoped_key_name(root_name, "libra_root"));
    }
    let pod = validator_pod_name(validator_index);
    keys.push(scoped_key_name(&pod, "owner"));
    keys.push(scoped_key_name(&pod, "operator"));
    keys.push(scoped_key_name(&pod, "consensus"));
    keys.push(scoped_key_name(&pod, "execution"));
    keys.push(scoped_key_name(&pod, "validator_network"));
    keys.push(scoped_key_name(&pod, "fullnode_network"));
    keys
}

} // verus!
