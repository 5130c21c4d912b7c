//! Deterministic node naming: each role/index pair maps to a unique pod name.

use vstd::prelude::*;

verus! {

/// The decimal digit character for `d` (meaningful for `d < 10`).
pub open spec fn digit_char(d: nat) -> char {
    if d == 0 {
        '0'
    } else if d == 1 {
        '1'
    } else if d == 2 {
        '2'
    } else if d == 3 {
        '3'
    } else if d == 4 {
        '4'
    } else if d == 5 {
        '5'
    } else if d == 6 {
        '6'
    } else if d == 7 {
        '7'
    } else if d == 8 {
        '8'
    } else {
        '9'
    }
}

/// The usual decimal rendering of `n`, without leading zeros (except for 0 itself).
pub open spec fn dec_str(n: nat) -> Seq<char>
    decreases n,
{
    if n < 10 {
        seq![digit_char(n)]
    } else {
        dec_str(n / 10).push(digit_char(n % 10))
    }
}

pub open spec fn is_digit(c: char) -> bool {
    c == '0' || c == '1' || c == '2' || c == '3' || c == '4' || c == '5' || c == '6' || c == '7'
        || c == '8' || c == '9'
}

pub proof fn lemma_dec_str_len(n: nat)
    ensures
        dec_str(n).len() >= 1,
        n >= 10 ==> dec_str(n).len() >= 2,
    decreases n,
{
    if n >= 10 {
        lemma_dec_str_len(n / 10);
    }
}

pub proof fn lemma_dec_str_digits(n: nat)
    ensures
        forall|k: int| 0 <= k < dec_str(n).len() ==> is_digit(#[trigger] dec_str(n)[k]),
    decreases n,
{
    if n >= 10 {
        lemma_dec_str_digits(n / 10);
        let s = dec_str(n);
        assert forall|k: int| 0 <= k < s.len() implies is_digit(#[trigger] s[k]) by {
            if k < s.len() - 1 {
                assert(s[k] == dec_str(n / 10)[k]);
            } else {
                assert(s[k] == digit_char(n % 10));
            }
        }
    }
}

proof fn lemma_digit_char_inj(a: nat, b: nat)
    requires
        a < 10,
        b < 10,
        digit_char(a) == digit_char(b),
    ensures
        a == b,
{
}

/// Distinct numbers have distinct decimal renderings.
pub proof fn lemma_dec_str_inj(a: nat, b: nat)
    requires
        dec_str(a) == dec_str(b),
    ensures
        a == b,
    decreases a,
{
    lemma_dec_str_len(a);
    lemma_dec_str_len(b);
    if a < 10 && b < 10 {
        assert(dec_str(a) =~= seq![digit_char(a)]);
        assert(dec_str(b) =~= seq![digit_char(b)]);
        assert(digit_char(a) == dec_str(a)[0]);
        assert(digit_char(b) == dec_str(b)[0]);
        lemma_digit_char_inj(a, b);
    } else if a < 10 {
        assert(dec_str(a).len() == 1);
        assert(false);
    } else if b < 10 {
        assert(dec_str(b).len() == 1);
        assert(false);
    } else {
        assert(dec_str(a) == dec_str(a / 10).push(digit_char(a % 10)));
        assert(dec_str(b) == dec_str(b / 10).push(digit_char(b % 10)));
        assert(dec_str(a).last() == digit_char(a % 10));
        assert(dec_str(b).last() == digit_char(b % 10));
        lemma_digit_char_inj(a % 10, b % 10);
        assert(dec_str(a).drop_last() =~= dec_str(a / 10));
        assert(dec_str(b).drop_last() =~= dec_str(b / 10));
        lemma_dec_str_inj(a / 10, b / 10);
    }
}

fn digit_literal(d: u32) -> (s: &'static str)
    requires
        d < 10,
    ensures
        s@ =~= seq![digit_char(d as nat)],
{
    proof {
        reveal_strlit("0");
        reveal_strlit("1");
        reveal_strlit("2");
        reveal_strlit("3");
        reveal_strlit("4");
        reveal_strlit("5");
        reveal_strlit("6");
        reveal_strlit("7");
        reveal_strlit("8");
        reveal_strlit("9");
    }
    match d {
        0 => "0",
        1 => "1",
        2 => "2",
        3 => "3",
        4 => "4",
        5 => "5",
        6 => "6",
        7 => "7",
        8 => "8",
        _ => "9",
    }
}

/// Renders `n` in decimal.
pub fn u32_dec(n: u32) -> (s: String)
    ensures
        s@ == dec_str(n as nat),
    decreases n,
{
    if n < 10 {
        let s = digit_literal(n).to_owned();
        proof {
            assert(s@ =~= dec_str(n as nat));
        }
        s
    } else {
        let mut s = u32_dec(n / 10);
        s.append(digit_literal(n % 10));
        proof {
            assert(s@ =~= dec_str(n as nat));
        }
        s
    }
}

/// Identity of one node slot in the cluster: a role together with its
/// index (fullnodes carry the owning validator's index and their own).
#[derive(Clone, Copy, PartialEq, Eq, Structural, Debug)]
pub enum NodeId {
    Validator(u32),
    Fullnode(u32, u32),
    Lsr(u32),
    Vault(u32),
}

/// The pod name of a node slot: the role's fixed prefix followed by the
/// decimal indices, `-`-separated.
pub open spec fn node_name_seq(id: NodeId) -> Seq<char> {
    match id {
        NodeId::Validator(i) => "val-"@ + dec_str(i as nat),
        NodeId::Fullnode(v, f) => "fn-"@ + dec_str(v as nat) + "-"@ + dec_str(f as nat),
        NodeId::Lsr(i) => "lsr-"@ + dec_str(i as nat),
        NodeId::Vault(i) => "vault-"@ + dec_str(i as nat),
    }
}

proof fn lemma_prefix_dec_inj(p: Seq<char>, i: nat, j: nat)
    requires
        p + dec_str(i) == p + dec_str(j),
    ensures
        i == j,
{
    let x = dec_str(i);
    let y = dec_str(j);
    assert((p + x).len() == p.len() + x.len());
    assert((p + y).len() == p.len() + y.len());
    assert(x.len() == y.len());
    assert forall|k: int| 0 <= k < x.len() implies x[k] == y[k] by {
        assert((p + x)[p.len() + k] == x[k]);
        assert((p + y)[p.len() + k] == y[k]);
    }
    assert(x =~= y);
    lemma_dec_str_inj(i, j);
}

proof fn lemma_fn_name_inj(v1: u32, f1: u32, v2: u32, f2: u32)
    requires
        node_name_seq(NodeId::Fullnode(v1, f1)) == node_name_seq(NodeId::Fullnode(v2, f2)),
    ensures
        v1 == v2,
        f1 == f2,
{
    reveal_strlit("fn-");
    reveal_strlit("-");
    let p = "fn-"@;
    let m = "-"@;
    let d1 = dec_str(v1 as nat);
    let e1 = dec_str(f1 as nat);
    let d2 = dec_str(v2 as nat);
    let e2 = dec_str(f2 as nat);
    let s1 = p + d1 + m + e1;
    let s2 = p + d2 + m + e2;
    lemma_dec_str_len(v1 as nat);
    lemma_dec_str_len(v2 as nat);
    lemma_dec_str_len(f1 as nat);
    lemma_dec_str_len(f2 as nat);
    lemma_dec_str_digits(v1 as nat);
    lemma_dec_str_digits(v2 as nat);
    let l1 = d1.len() as int;
    let l2 = d2.len() as int;
    if l1 < l2 {
        // In s1 the character after the first index is the separator, while
        // in s2 that position still lies inside the (longer) first index.
        assert(s1[3 + l1] == m[0]);
        assert(s2[3 + l1] == d2[l1]);
        assert(is_digit(d2[l1]));
        assert(false);
    } else if l2 < l1 {
        assert(s2[3 + l2] == m[0]);
        assert(s1[3 + l2] == d1[l2]);
        assert(is_digit(d1[l2]));
        assert(false);
    } else {
        assert forall|k: int| 0 <= k < l1 implies d1[k] == d2[k] by {
            assert(s1[3 + k] == d1[k]);
            assert(s2[3 + k] == d2[k]);
        }
        assert(d1 =~= d2);
        lemma_dec_str_inj(v1 as nat, v2 as nat);
        assert(s1.len() == 3 + l1 + 1 + e1.len());
        assert(s2.len() == 3 + l2 + 1 + e2.len());
        assert(e1.len() == e2.len());
        assert forall|k: int| 0 <= k < e1.len() implies e1[k] == e2[k] by {
            assert(s1[3 + l1 + 1 + k] == e1[k]);
            assert(s2[3 + l1 + 1 + k] == e2[k]);
        }
        assert(e1 =~= e2);
        lemma_dec_str_inj(f1 as nat, f2 as nat);
    }
}

/// Node names are collision-free over the whole cluster: two slots with the
/// same pod name are the same role at the same index.
pub proof fn lemma_node_names_unique(a: NodeId, b: NodeId)
    requires
        node_name_seq(a) == node_name_seq(b),
    ensures
        a == b,
{
    reveal_strlit("val-");
    reveal_strlit("fn-");
    reveal_strlit("lsr-");
    reveal_strlit("vault-");
    reveal_strlit("-");
    match (a, b) {
        (NodeId::Validator(i), NodeId::Validator(j)) => {
            lemma_prefix_dec_inj("val-"@, i as nat, j as nat);
        },
        (NodeId::Lsr(i), NodeId::Lsr(j)) => {
            lemma_prefix_dec_inj("lsr-"@, i as nat, j as nat);
        },
        (NodeId::Vault(i), NodeId::Vault(j)) => {
            lemma_prefix_dec_inj("vault-"@, i as nat, j as nat);
        },
        (NodeId::Fullnode(v1, f1), NodeId::Fullnode(v2, f2)) => {
            lemma_fn_name_inj(v1, f1, v2, f2);
        },
        _ => {
            lemma_name_chars(a);
            lemma_name_chars(b);
            assert(node_name_seq(a)[0] == node_name_seq(b)[0]);
            assert(node_name_seq(a)[2] == node_name_seq(b)[2]);
            assert(false);
        },
    }
}

/// The character distinguishing the role at position 0 of its pod name.
spec fn role_char0(id: NodeId) -> char {
    match id {
        NodeId::Validator(_) => 'v',
        NodeId::Fullnode(_, _) => 'f',
        NodeId::Lsr(_) => 'l',
        NodeId::Vault(_) => 'v',
    }
}

/// The character distinguishing the role at position 2 of its pod name.
spec fn role_char2(id: NodeId) -> char {
    match id {
        NodeId::Validator(_) => 'l',
        NodeId::Fullnode(_, _) => '-',
        NodeId::Lsr(_) => 'r',
        NodeId::Vault(_) => 'u',
    }
}

proof fn lemma_name_chars(id: NodeId)
    ensures
        node_name_seq(id).len() > 2,
        node_name_seq(id)[0] == role_char0(id),
        node_name_seq(id)[2] == role_char2(id),
{
    reveal_strlit("val-");
    reveal_strlit("fn-");
    reveal_strlit("lsr-");
    reveal_strlit("vault-");
    reveal_strlit("-");
    match id {
        NodeId::Validator(i) => {
            lemma_dec_str_len(i as nat);
            assert(node_name_seq(id)[0] == "val-"@[0]);
            assert(node_name_seq(id)[2] == "val-"@[2]);
        },
        NodeId::Fullnode(v, f) => {
            lemma_dec_str_len(v as nat);
            lemma_dec_str_len(f as nat);
            let p = "fn-"@;
            let t1 = p + dec_str(v as nat);
            let t2 = t1 + "-"@;
            let s = t2 + dec_str(f as nat);
            assert(s[0] == t2[0]);
            assert(t2[0] == t1[0]);
            assert(t1[0] == p[0]);
            assert(s[2] == t2[2]);
            assert(t2[2] == t1[2]);
            assert(t1[2] == p[2]);
            assert(node_name_seq(id) == s);
        },
        NodeId::Lsr(i) => {
            lemma_dec_str_len(i as nat);
            assert(node_name_seq(id)[0] == "lsr-"@[0]);
            assert(node_name_seq(id)[2] == "lsr-"@[2]);
        },
        NodeId::Vault(i) => {
            lemma_dec_str_len(i as nat);
            assert(node_name_seq(id)[0] == "vault-"@[0]);
            assert(node_name_seq(id)[2] == "vault-"@[2]);
        },
    }
}

/// `http://<ip>:<port>`: how a secret-store node is addressed.
pub open spec fn url_of(ip: Seq<char>, port: nat) -> Seq<char> {
    "http://"@ + ip + ":"@ + dec_str(port)
}

/// `/ip4/<ip>/tcp/<port>`: the structured network-address notation handed
/// to the genesis tooling for a node endpoint.
pub open spec fn multiaddr_of(ip: Seq<char>, port: nat) -> Seq<char> {
    "/ip4/"@ + ip + "/tcp/"@ + dec_str(port)
}

/// `<workspace>-k8s-testnet-validators`: the compute pool of a workspace.
pub open spec fn asg_name_of(workspace: Seq<char>) -> Seq<char> {
    workspace + "-k8s-testnet-validators"@
}

/// Builds the URL a node's key-value secret service listens on.
pub fn node_url(ip: &String, port: u32) -> (s: String)
    ensures
        s@ == url_of(ip@, port as nat),
{
    let mut s = "http://".to_owned();
    s.append(ip.as_str());
    s.append(":");
    s.append(u32_dec(port).as_str());
    s
}

/// Builds the network-address string of a node endpoint.
pub fn node_multiaddr(ip: &String, port: u32) -> (s: String)
    ensures
        s@ == multiaddr_of(ip@, port as nat),
{
    let mut s = "/ip4/".to_owned();
    s.append(ip.as_str());
    s.append("/tcp/");
    s.append(u32_dec(port).as_str());
    s
}

/// Builds the compute-pool name of a workspace.
pub fn asg_name(workspace: &String) -> (s: String)
    ensures
        s@ == asg_name_of(workspace@),
{
    let mut s = workspace.clone();
    s.append("-k8s-testnet-validators");
    s
}

/// Pod name for validator `index`.
pub fn validator_pod_name(index: u32) -> (s: String)
    ensures
        s@ == node_name_seq(NodeId::Validator(index)),
{
    let mut s = "val-".to_owned();
    s.append(u32_dec(index).as_str());
    s
}

/// Pod name for fullnode `fullnode_index` of validator `validator_index`.
pub fn fullnode_pod_name(validator_index: u32, fullnode_index: u32) -> (s: String)
    ensures
        s@ == node_name_seq(NodeId::Fullnode(validator_index, fullnode_index)),
{
    let mut s = "fn-".to_owned();
    s.append(u32_dec(validator_index).as_str());
    s.append("-");
    s.append(u32_dec(fullnode_index).as_str());
    s
}

/// Pod name for the signing-proxy node of validator `index`.
pub fn lsr_pod_name(index: u32) -> (s: String)
    ensures
        s@ == node_name_seq(NodeId::Lsr(index)),
{
    let mut s = "lsr-".to_owned();
    s.append(u32_dec(index).as_str());
    s
}

/// Pod name for the secret-store node of validator `index`.
pub fn vault_pod_name(index: u32) -> (s: String)
    ensures
        s@ == node_name_seq(NodeId::Vault(index)),
{
    let mut s = "vault-".to_owned();
    s.append(u32_dec(index).as_str());
    s
}

} // verus!
