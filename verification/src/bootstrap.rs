//! Leader-election bootstrap for the consensus group.
//!
//! The configured peer set is validated — it must contain exactly one entry
//! whose id is the local node's — and split into the local listening
//! address and the other peers' addresses, all before any network activity.
//! The host then resolves those addresses and asks the consensus engine to
//! probe the peers for an existing leader; from the probe's answer this
//! module chooses the role the node runs in: leader when no leader was
//! found, follower under the reported leader otherwise.

use vstd::prelude::*;

verus! {

/// One configured member of the consensus group: its stable node id and its
/// textual address, as configuration gives them.
#[derive(Debug, Clone, PartialEq, Eq)]
pub struct PeerAddress {
    pub id: u64,
    pub addr: String,
}

/// Why a configuration cannot be bootstrapped.
#[derive(Debug, PartialEq, Eq)]
pub enum ConfigError {
    /// No configured peer carries the local node's id, so the node has no
    /// listening address in the group.
    MissingSelfPeer,
    /// More than one configured peer carries the local node's id.
    MultipleSelfPeers,
}

/// Everything bootstrap computes from configuration alone, before any
/// network activity: the local listening address, and the other peers'
/// addresses, in configuration order, for the leader probe.
#[derive(Debug, PartialEq, Eq)]
pub struct BootstrapPlan {
    pub local_id: u64,
    pub listen_addr: String,
    pub remote_addrs: Vec<String>,
}

/// The role a node runs in once the leader probe has answered.
#[derive(Debug, PartialEq, Eq)]
pub enum Role {
    /// No leader was found among the reachable peers: this node leads.
    Leader { id: u64 },
    /// A leader was found: this node joins as a follower under it.
    Follower { id: u64, leader_id: u64, leader_addr: String },
}

/// How many of these peers carry this id.
pub open spec fn count_with_id(peers: Seq<PeerAddress>, id: u64) -> nat
    decreases peers.len(),
{
    if peers.len() == 0 {
        0
    } else {
        (if peers[0].id == id {
            1nat
        } else {
            0nat
        }) + count_with_id(peers.drop_first(), id)
    }
}

/// The addresses of the peers other than this node, in configuration order.
pub open spec fn remote_addrs_of(peers: Seq<PeerAddress>, local_id: u64) -> Seq<Seq<char>>
    decreases peers.len(),
{
    if peers.len() == 0 {
        Seq::empty()
    } else if peers.last().id != local_id {
        remote_addrs_of(peers.drop_last(), local_id) + seq![peers.last().addr@]
    } else {
        remote_addrs_of(peers.drop_last(), local_id)
    }
}

/// Whether bootstrap accepts this peer set for this node: exactly one
/// configured peer must be the node itself.
pub open spec fn bootstrap_accepts(peers: Seq<PeerAddress>, local_id: u64) -> bool {
    count_with_id(peers, local_id) == 1
}

/// The count of a prefix extended by one peer.
proof fn lemma_count_take_step(peers: Seq<PeerAddress>, id: u64, i: int)
    requires
        0 <= i < peers.len(),
    ensures
        count_with_id(peers.take(i + 1), id) == count_with_id(peers.take(i), id) + (
        if peers[i].id == id {
            1nat
        } else {
            0nat
        }),
    decreases i,
{
    assert(peers.take(i + 1).drop_last() =~= peers.take(i));
    assert(peers.take(i + 1).last() == peers[i]);
    lemma_count_snoc(peers.take(i + 1), id);
}

/// Counting over a non-empty sequence, read from its last element.
proof fn lemma_count_snoc(peers: Seq<PeerAddress>, id: u64)
    requires
        peers.len() > 0,
    ensures
        count_with_id(peers, id) == count_with_id(peers.drop_last(), id) + (
        if peers.last().id == id {
            1nat
        } else {
            0nat
        }),
    decreases peers.len(),
{
    assert(count_with_id(peers, id) == (if peers[0].id == id {
        1nat
    } else {
        0nat
    }) + count_with_id(peers.drop_first(), id));
    if peers.len() > 1 {
        lemma_count_snoc(peers.drop_first(), id);
        assert(peers.drop_first().drop_last() =~= peers.drop_last().drop_first());
        assert(peers.drop_first().last() == peers.last());
        assert(peers.drop_last().len() > 0);
        assert(peers.drop_last()[0] == peers[0]);
        assert(count_with_id(peers.drop_last(), id) == (if peers.drop_last()[0].id == id {
            1nat
        } else {
            0nat
        }) + count_with_id(peers.drop_last().drop_first(), id));
    } else {
        assert(peers.drop_last() =~= Seq::<PeerAddress>::empty());
    }
}

/// Law: a peer list that omits the local node id is not accepted — a pure
/// judgement on configuration, made before any network activity.
pub proof fn lemma_missing_self_rejected(peers: Seq<PeerAddress>, local_id: u64)
    requires
        forall|i: int| 0 <= i < peers.len() ==> peers[i].id != local_id,
    ensures
        count_with_id(peers, local_id) == 0,
        !bootstrap_accepts(peers, local_id),
    decreases peers.len(),
{
    if peers.len() > 0 {
        lemma_missing_self_rejected(peers.drop_first(), local_id);
    }
}

/// Validate the configured peer set and compute the bootstrap plan: the
/// listening address of the peer entry that is this node, and the other
/// peers' addresses for the leader probe — all from configuration alone,
/// before any network activity.
pub fn plan_bootstrap(peers: &Vec<PeerAddress>, local_id: u64) -> (r: Result<
    BootstrapPlan,
    ConfigError,
>)
    ensures
        r is Ok <==> bootstrap_accepts(peers@, local_id),
        count_with_id(peers@, local_id) == 0 ==> r == Result::<BootstrapPlan, ConfigError>::Err(
            ConfigError::MissingSelfPeer,
        ),
        count_with_id(peers@, local_id) >= 2 ==> r == Result::<BootstrapPlan, ConfigError>::Err(
            ConfigError::MultipleSelfPeers,
        ),
        r matches Ok(plan) ==> {
            &&& plan.local_id == local_id
            &&& exists|i: int|
                0 <= i < peers@.len() && peers@[i].id == local_id && plan.listen_addr@
                    == peers@[i].addr@
            &&& plan.remote_addrs@.map_values(|a: String| a@) == remote_addrs_of(
                peers@,
                local_id,
            )
        },
{
    let mut self_addr: Option<String> = None;
    let mut self_count: usize = 0;
    let mut remote_addrs: Vec<String> = Vec::new();
    let mut i: usize = 0;
    while i < peers.len()
        invariant
            i <= peers.len(),
            self_count == count_with_id(peers@.take(i as int), local_id),
            self_count <= i,
            self_addr is Some <==> self_count > 0,
            self_addr matches Some(a) ==> exists|k: int|
                0 <= k < peers@.len() && peers@[k].id == local_id && a@ == peers@[k].addr@,
            remote_addrs@.map_values(|a: String| a@) == remote_addrs_of(
                peers@.take(i as int),
                local_id,
            ),
        decreases peers.len() - i,
    {
        let ghost prefix = peers@.take(i as int);
        proof {
            lemma_count_take_step(peers@, local_id, i as int);
            assert(peers@.take(i + 1).drop_last() =~= prefix);
            assert(peers@.take(i + 1).last() == peers@[i as int]);
        }
        let peer = &peers[i];
        if peer.id == local_id {
            if self_addr.is_none() {
                self_addr = Some(peer.addr.clone());
            }
            self_count = self_count + 1;
        } else {
            let ghost before = remote_addrs@;
            remote_addrs.push(peer.addr.clone());
            proof {
                assert(remote_addrs@.map_values(|a: String| a@) =~= before.map_values(
                    |a: String| a@,
                ).push(peers@[i as int].addr@));
            }
        }
        i = i + 1;
    }
    proof {
        assert(peers@.take(peers@.len() as int) =~= peers@);
    }
    if self_count == 0 {
        Err(ConfigError::MissingSelfPeer)
    } else if self_count > 1 {
        Err(ConfigError::MultipleSelfPeers)
    } else {
        match self_addr {
            Some(listen_addr) => Ok(BootstrapPlan { local_id, listen_addr, remote_addrs }),
            None => Err(ConfigError::MissingSelfPeer),
        }
    }
}

/// The peers other than this node, whole entries in configuration order:
/// the peers that get a dialled RPC client, while this node itself does
/// not.
pub open spec fn remote_peers_of(peers: Seq<PeerAddress>, local_id: u64) -> Seq<PeerAddress>
    decreases peers.len(),
{
    if peers.len() == 0 {
        Seq::empty()
    } else if peers.last().id != local_id {
        remote_peers_of(peers.drop_last(), local_id) + seq![peers.last()]
    } else {
        remote_peers_of(peers.drop_last(), local_id)
    }
}

/// Select the peers other than this node — the ones a client table is
/// built for — keeping configuration order.
pub fn remote_peers(peers: &Vec<PeerAddress>, local_id: u64) -> (r: Vec<PeerAddress>)
    ensures
        r@ == remote_peers_of(peers@, local_id),
        forall|k: int| 0 <= k < r@.len() ==> r@[k].id != local_id,
{
    let mut r: Vec<PeerAddress> = Vec::new();
    let mut i: usize = 0;
    while i < peers.len()
        invariant
            i <= peers.len(),
            r@ == remote_peers_of(peers@.take(i as int), local_id),
            forall|k: int| 0 <= k < r@.len() ==> r@[k].id != local_id,
        decreases peers.len() - i,
    {
        proof {
            assert(peers@.take(i + 1).drop_last() =~= peers@.take(i as int));
            assert(peers@.take(i + 1).last() == peers@[i as int]);
        }
        let peer = &peers[i];
        if peer.id != local_id {
            r.push(PeerAddress { id: peer.id, addr: peer.addr.clone() });
        }
        i = i + 1;
    }
    proof {
        assert(peers@.take(peers@.len() as int) =~= peers@);
    }
    r
}

/// The role the probe's answer selects: leader when no leader was reported,
/// follower under the reported leader otherwise.
pub open spec fn chosen_role(local_id: u64, leader_info: Option<(u64, String)>) -> Role {
    match leader_info {
        None => Role::Leader { id: local_id },
        Some(info) => Role::Follower { id: local_id, leader_id: info.0, leader_addr: info.1 },
    }
}

/// Choose the role this node runs in from the leader probe's answer.
pub fn choose_role(local_id: u64, leader_info: Option<(u64, String)>) -> (r: Role)
    ensures
        r == chosen_role(local_id, leader_info),
{
    match leader_info {
        None => Role::Leader { id: local_id },
        Some(info) => Role::Follower { id: local_id, leader_id: info.0, leader_addr: info.1 },
    }
}

/// Law: role selection from the probe. A probing node takes the leader role
/// exactly when its probe reports no existing leader; any node whose probe
/// reports a leader follows, naming that leader's id and address. Two nodes
/// that both probe before any leader exists both observe none and both lead
/// at first; converging them is the consensus engine's own election, outside
/// this core.
pub proof fn lemma_role_selection(local_id: u64, leader_info: Option<(u64, String)>)
    ensures
        chosen_role(local_id, leader_info) is Leader <==> leader_info is None,
        leader_info is None ==> chosen_role(local_id, leader_info) == (Role::Leader {
            id: local_id,
        }),
        leader_info matches Some(info) ==> chosen_role(local_id, leader_info) == (Role::Follower {
            id: local_id,
            leader_id: info.0,
            leader_addr: info.1,
        }),
{
}

} // verus!
