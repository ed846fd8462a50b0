//! The node's knowledge of its peers: which it knows, when it last saw
//! them, and how often reaching them failed.

use crate::node::{IpAddress, NodeAddr};
use vstd::prelude::*;

verus! {

/// The key of a peer: its IP address and port.
#[derive(Debug, Clone, Copy, PartialEq, Eq, Hash, Structural)]
pub struct PeerAddress {
    pub ip: IpAddress,
    pub port: Option<u16>,
}

impl PeerAddress {
    /// The key of the peer at a socket address.
    pub fn from_addr(addr: NodeAddr) -> (p: PeerAddress)
        ensures
            p == peer_address_of(addr),
    {
        PeerAddress { ip: addr.ip, port: Some(addr.port) }
    }
}

/// The key of the peer at a socket address.
pub open spec fn peer_address_of(addr: NodeAddr) -> PeerAddress {
    PeerAddress { ip: addr.ip, port: Some(addr.port) }
}

/// What the configuration says of a peer.
#[derive(Debug, PartialEq, Eq)]
pub struct PeerInfo {
    pub address: NodeAddr,
    pub name: String,
    pub propose_weight: u32,
    pub vote_weight: u32,
}

impl Clone for PeerInfo {
    fn clone(&self) -> (r: Self)
        ensures
            r == *self,
    {
        PeerInfo {
            address: self.address,
            name: self.name.clone(),
            propose_weight: self.propose_weight,
            vote_weight: self.vote_weight,
        }
    }
}

/// What the node knows of a peer. `last_seen` is the time, in the caller's
/// clock, at which the peer was last found healthy.
#[derive(Debug, PartialEq, Eq)]
pub struct PeerStatus {
    pub info: PeerInfo,
    pub connected_once: bool,
    pub last_seen: u64,
    pub failed_attempts: u32,
}

impl Clone for PeerStatus {
    fn clone(&self) -> (r: Self)
        ensures
            r == *self,
    {
        PeerStatus {
            info: self.info.clone(),
            connected_once: self.connected_once,
            last_seen: self.last_seen,
            failed_attempts: self.failed_attempts,
        }
    }
}

/// The known peers, each under its key, in the order in which they became
/// known.
pub struct PeerManager {
    peers: Vec<(PeerAddress, PeerStatus)>,
    max_failed_attempts: u32,
}

/// No key occurs twice.
pub open spec fn keys_distinct(e: Seq<(PeerAddress, PeerStatus)>) -> bool {
    forall|i: int, j: int| 0 <= i < j < e.len() ==> #[trigger] e[i].0 != #[trigger] e[j].0
}

/// Some entry has this key.
pub open spec fn has_key(e: Seq<(PeerAddress, PeerStatus)>, k: PeerAddress) -> bool {
    exists|i: int| 0 <= i < e.len() && (#[trigger] e[i]).0 == k
}

/// A peer that failed at least once, but not more than `max` times in a
/// row, is to be reconnected.
pub open spec fn to_reconnect(max: u32) -> spec_fn((PeerAddress, PeerStatus)) -> bool {
    |e: (PeerAddress, PeerStatus)| 0 < e.1.failed_attempts && e.1.failed_attempts <= max
}

/// A peer that failed at most `max` times in a row is kept.
pub open spec fn responsive(max: u32) -> spec_fn((PeerAddress, PeerStatus)) -> bool {
    |e: (PeerAddress, PeerStatus)| e.1.failed_attempts <= max
}

/// The status of a peer after a health check at time `now`.
pub open spec fn checked_status(s: PeerStatus, healthy: bool, now: u64) -> PeerStatus {
    if healthy {
        PeerStatus { last_seen: now, failed_attempts: 0, ..s }
    } else {
        PeerStatus { failed_attempts: (s.failed_attempts + 1) as u32, ..s }
    }
}

/// The status of a peer added by address: never failed, seen `now`.
pub open spec fn added_status(addr: NodeAddr, name: Seq<char>, now: u64, s: PeerStatus) -> bool {
    &&& s.connected_once
    &&& s.info.address == addr
    &&& s.info.name@ == name
    &&& s.info.propose_weight == 0
    &&& s.info.vote_weight == 0
    &&& s.last_seen == now
    &&& s.failed_attempts == 0
}

/// The entries after the peer `info` is loaded at time `now`: a peer with
/// the same key is replaced in place, else the peer is added at the end.
pub open spec fn load_one(
    e: Seq<(PeerAddress, PeerStatus)>,
    info: PeerInfo,
    now: u64,
) -> Seq<(PeerAddress, PeerStatus)> {
    let k = peer_address_of(info.address);
    let s = PeerStatus { info, connected_once: false, last_seen: now, failed_attempts: 0 };
    if has_key(e, k) {
        e.update(choose|i: int| 0 <= i < e.len() && (#[trigger] e[i]).0 == k, (k, s))
    } else {
        e.push((k, s))
    }
}

/// The entries after the peers `infos` are loaded one after the other.
pub open spec fn load_all(
    e: Seq<(PeerAddress, PeerStatus)>,
    infos: Seq<PeerInfo>,
    now: u64,
) -> Seq<(PeerAddress, PeerStatus)>
    decreases infos.len(),
{
    if infos.len() == 0 {
        e
    } else {
        load_one(load_all(e, infos.drop_last(), now), infos.last(), now)
    }
}

impl PeerManager {
    /// The known peers, in the order in which they became known.
    pub closed spec fn entries(&self) -> Seq<(PeerAddress, PeerStatus)> {
        self.peers@
    }

    /// How many failures in a row a peer may have before it is dropped.
    pub closed spec fn max_failed(&self) -> u32 {
        self.max_failed_attempts
    }

    pub open spec fn wf(&self) -> bool {
        keys_distinct(self.entries())
    }

    /// A manager that knows no peer.
    pub fn new(max_failed_attempts: u32) -> (m: PeerManager)
        ensures
            m.wf(),
            m.entries() == Seq::<(PeerAddress, PeerStatus)>::empty(),
            m.max_failed() == max_failed_attempts,
    {
        let m = PeerManager { peers: Vec::new(), max_failed_attempts };
        assert(m.entries() =~= Seq::<(PeerAddress, PeerStatus)>::empty());
        m
    }

    fn find(&self, key: PeerAddress) -> (r: Option<usize>)
        ensures
            match r {
                Some(i) => i < self.entries().len() && self.entries()[i as int].0 == key,
                None => !has_key(self.entries(), key),
            },
    {
        let mut i: usize = 0;
        while i < self.peers.len()
            invariant
                i <= self.peers@.len(),
                forall|j: int| 0 <= j < i ==> (#[trigger] self.peers@[j]).0 != key,
            decreases self.peers@.len() - i,
        {
            if self.peers[i].0 == key {
                return Some(i);
            }
            i = i + 1;
        }
        None
    }

    /// The statuses of all known peers.
    pub fn get_peer_statuses(&self) -> (r: Vec<PeerStatus>)
        ensures
            r@ == self.entries().map_values(|e: (PeerAddress, PeerStatus)| e.1),
    {
        let mut r: Vec<PeerStatus> = Vec::new();
        let mut i: usize = 0;
        while i < self.peers.len()
            invariant
                i <= self.peers@.len(),
                r@ == self.entries().take(i as int).map_values(
                    |e: (PeerAddress, PeerStatus)| e.1,
                ),
            decreases self.peers@.len() - i,
        {
            r.push(self.peers[i].1.clone());
            assert(self.entries().take(i + 1) =~= self.entries().take(i as int).push(
                self.entries()[i as int],
            ));
            i = i + 1;
        }
        assert(self.entries().take(self.entries().len() as int) =~= self.entries());
        r
    }

    /// The configuration of all known peers.
    pub fn get_peers(&self) -> (r: Vec<PeerInfo>)
        ensures
            r@ == self.entries().map_values(|e: (PeerAddress, PeerStatus)| e.1.info),
    {
        let mut r: Vec<PeerInfo> = Vec::new();
        let mut i: usize = 0;
        while i < self.peers.len()
            invariant
                i <= self.peers@.len(),
                r@ == self.entries().take(i as int).map_values(
                    |e: (PeerAddress, PeerStatus)| e.1.info,
                ),
            decreases self.peers@.len() - i,
        {
            r.push(self.peers[i].1.info.clone());
            assert(self.entries().take(i + 1) =~= self.entries().take(i as int).push(
                self.entries()[i as int],
            ));
            i = i + 1;
        }
        assert(self.entries().take(self.entries().len() as int) =~= self.entries());
        r
    }

    /// The addresses of the peers that were connected once, whose health is
    /// checked in each round of peer management, in order.
    pub fn peers_to_check(&self) -> (r: Vec<NodeAddr>)
        ensures
            r@ == self.entries().filter(|e: (PeerAddress, PeerStatus)| e.1.connected_once).map_values(
                |e: (PeerAddress, PeerStatus)| e.1.info.address,
            ),
    {
        let ghost pred = |e: (PeerAddress, PeerStatus)| e.1.connected_once;
        let mut r: Vec<NodeAddr> = Vec::new();
        let mut i: usize = 0;
        while i < self.peers.len()
            invariant
                i <= self.peers@.len(),
                pred == (|e: (PeerAddress, PeerStatus)| e.1.connected_once),
                r@ == self.entries().take(i as int).filter(pred).map_values(
                    |e: (PeerAddress, PeerStatus)| e.1.info.address,
                ),
            decreases self.peers@.len() - i,
        {
            proof {
                reveal_with_fuel(Seq::filter, 1);
                assert(self.entries().take(i + 1).drop_last() =~= self.entries().take(i as int));
            }
            if self.peers[i].1.connected_once {
                r.push(self.peers[i].1.info.address);
            }
            i = i + 1;
        }
        assert(self.entries().take(self.entries().len() as int) =~= self.entries());
        r
    }

    /// Records a health check of the peer at `addr` made at time `now`: a
    /// healthy peer is marked seen and its failures are cleared; otherwise
    /// one more failure is counted. An unknown address changes nothing.
    pub fn update_peer_status(&mut self, addr: NodeAddr, is_healthy: bool, now: u64)
        requires
            old(self).wf(),
            forall|i: int|
                0 <= i < old(self).entries().len() && (#[trigger] old(self).entries()[i]).0
                    == peer_address_of(addr) ==> old(self).entries()[i].1.failed_attempts
                    < u32::MAX,
        ensures
            final(self).wf(),
            final(self).max_failed() == old(self).max_failed(),
            forall|i: int|
                0 <= i < old(self).entries().len() && (#[trigger] old(self).entries()[i]).0
                    == peer_address_of(addr) ==> final(self).entries() == old(self).entries().update(
                    i,
                    (peer_address_of(addr), checked_status(old(self).entries()[i].1, is_healthy, now)),
                ),
            !has_key(old(self).entries(), peer_address_of(addr)) ==> final(self).entries() == old(
                self,
            ).entries(),
    {
        let key = PeerAddress::from_addr(addr);
        match self.find(key) {
            Some(i) => {
                let ghost e0 = self.entries();
                let (k, mut status) = self.peers.remove(i);
                if is_healthy {
                    status.last_seen = now;
                    status.failed_attempts = 0;
                } else {
                    status.failed_attempts = status.failed_attempts + 1;
                }
                self.peers.insert(i, (k, status));
                proof {
                    assert(self.entries() =~= e0.update(i as int, (key, checked_status(e0[i as int].1, is_healthy, now))));
                    assert(forall|x: int| 0 <= x < e0.len() ==> (#[trigger] self.entries()[x]).0 == e0[x].0);
                    assert forall|k2: int| 0 <= k2 < e0.len() && (#[trigger] e0[k2]).0 == key implies k2 == i by {
                        if k2 < i {
                            assert(e0[k2].0 != e0[i as int].0);
                        } else if k2 > i {
                            assert(e0[i as int].0 != e0[k2].0);
                        }
                    }
                }
            },
            None => {},
        }
    }

    /// The configuration of the peers to reconnect: those that failed at
    /// least once but not more than the allowed number of times.
    pub fn get_peers_to_reconnect(&self) -> (r: Vec<PeerInfo>)
        ensures
            r@ == self.entries().filter(to_reconnect(self.max_failed())).map_values(
                |e: (PeerAddress, PeerStatus)| e.1.info,
            ),
    {
        let ghost pred = to_reconnect(self.max_failed_attempts);
        let mut r: Vec<PeerInfo> = Vec::new();
        let mut i: usize = 0;
        while i < self.peers.len()
            invariant
                i <= self.peers@.len(),
                pred == to_reconnect(self.max_failed()),
                r@ == self.entries().take(i as int).filter(pred).map_values(
                    |e: (PeerAddress, PeerStatus)| e.1.info,
                ),
            decreases self.peers@.len() - i,
        {
            let failed = self.peers[i].1.failed_attempts;
            proof {
                reveal_with_fuel(Seq::filter, 1);
                assert(self.entries().take(i + 1).drop_last() =~= self.entries().take(i as int));
            }
            if failed > 0 && failed <= self.max_failed_attempts {
                r.push(self.peers[i].1.info.clone());
            }
            i = i + 1;
        }
        assert(self.entries().take(self.entries().len() as int) =~= self.entries());
        r
    }

    /// Drops the peers that failed more than the allowed number of times.
    pub fn remove_unresponsive_peers(&mut self)
        requires
            old(self).wf(),
        ensures
            final(self).wf(),
            final(self).max_failed() == old(self).max_failed(),
            final(self).entries() == old(self).entries().filter(responsive(old(self).max_failed())),
    {
        let ghost e0 = self.entries();
        let ghost pred = responsive(self.max_failed_attempts);
        let mut old_peers: Vec<(PeerAddress, PeerStatus)> = Vec::new();
        std::mem::swap(&mut old_peers, &mut self.peers);
        let mut kept: Vec<(PeerAddress, PeerStatus)> = Vec::new();
        let ghost olds = old_peers@;
        for entry in it: old_peers
            invariant
                it.seq() == olds,
                olds == e0,
                keys_distinct(e0),
                pred == responsive(self.max_failed_attempts),
                kept@ == e0.take(it.index() as int).filter(pred),
        {
            proof {
                reveal_with_fuel(Seq::filter, 1);
                assert(e0.take(it.index() + 1).drop_last() =~= e0.take(it.index() as int));
            }
            if entry.1.failed_attempts <= self.max_failed_attempts {
                kept.push(entry);
            }
        }
        assert(e0.take(e0.len() as int) =~= e0);
        proof {
            assert forall|i: int, j: int| 0 <= i < j < kept@.len() implies #[trigger] kept@[i].0
                != #[trigger] kept@[j].0 by {
                lemma_filter_keeps_distinct(e0, pred, i, j);
            }
        }
        self.peers = kept;
    }

    /// Adds the peer at `addr`, unless a peer with its key is known; the
    /// new peer is named `Node_` followed by `addr_text`, the written form of
    /// the address. Returns whether the peer was added.
    pub fn add_peer(&mut self, addr: NodeAddr, addr_text: &str, now: u64) -> (added: bool)
        requires
            old(self).wf(),
        ensures
            final(self).wf(),
            final(self).max_failed() == old(self).max_failed(),
            added == !has_key(old(self).entries(), peer_address_of(addr)),
            !added ==> final(self).entries() == old(self).entries(),
            added ==> final(self).entries().len() == old(self).entries().len() + 1,
            added ==> final(self).entries().drop_last() == old(self).entries(),
            added ==> final(self).entries().last().0 == peer_address_of(addr),
            added ==> added_status(
                addr,
                seq!['N', 'o', 'd', 'e', '_'] + addr_text@,
                now,
                final(self).entries().last().1,
            ),
    {
        let key = PeerAddress::from_addr(addr);
        match self.find(key) {
            Some(_) => false,
            None => {
                let mut name = String::new();
                name.append("Node_");
                name.append(addr_text);
                proof {
                    reveal_strlit("Node_");
                }
                assert(name@ =~= seq!['N', 'o', 'd', 'e', '_'] + addr_text@);
                let status = PeerStatus {
                    connected_once: true,
                    info: PeerInfo { address: addr, name, vote_weight: 0, propose_weight: 0 },
                    last_seen: now,
                    failed_attempts: 0,
                };
                let ghost e0 = self.entries();
                self.peers.push((key, status));
                assert(self.entries().drop_last() =~= e0);
                true
            },
        }
    }

    /// Loads peers from the configuration at time `now`, each replacing a
    /// known peer with the same key; loaded peers have not been connected.
    pub fn load_peers(&mut self, infos: Vec<PeerInfo>, now: u64)
        requires
            old(self).wf(),
        ensures
            final(self).wf(),
            final(self).max_failed() == old(self).max_failed(),
            final(self).entries() == load_all(old(self).entries(), infos@, now),
    {
        let ghost e0 = self.entries();
        let ghost all = infos@;
        for info in it: infos
            invariant
                it.seq() == all,
                self.wf(),
                self.max_failed_attempts == old(self).max_failed(),
                e0 == old(self).entries(),
                self.entries() == load_all(e0, all.take(it.index() as int), now),
        {
            let ghost before = self.entries();
            let key = PeerAddress::from_addr(info.address);
            let status = PeerStatus { info, connected_once: false, last_seen: now, failed_attempts: 0 };
            match self.find(key) {
                Some(i) => {
                    self.peers.set(i, (key, status));
                    proof {
                        let c = choose|j: int| 0 <= j < before.len() && (#[trigger] before[j]).0 == key;
                        if c < i {
                            assert(before[c].0 != before[i as int].0);
                        } else if c > i {
                            assert(before[i as int].0 != before[c].0);
                        }
                        assert(forall|x: int| 0 <= x < before.len() ==> (#[trigger] self.entries()[x]).0 == before[x].0);
                    }
                },
                None => {
                    self.peers.push((key, status));
                },
            }
            proof {
                assert(all.take(it.index() + 1).drop_last() =~= all.take(it.index() as int));
                assert(self.entries() == load_one(before, all[it.index() as int], now));
            }
        }
        assert(all.take(all.len() as int) =~= all);
    }

    /// Whether a peer with the key of `addr` is known.
    pub fn is_connected(&self, addr: &NodeAddr) -> (r: bool)
        ensures
            r == has_key(self.entries(), peer_address_of(*addr)),
    {
        let key = PeerAddress::from_addr(*addr);
        self.find(key).is_some()
    }
}

/// After the unresponsive peers are dropped, every known peer failed at
/// most the allowed number of times in a row, and none is lost that did.
pub proof fn law_only_responsive_peers_remain(
    e: Seq<(PeerAddress, PeerStatus)>,
    max: u32,
)
    ensures
        forall|i: int|
            0 <= i < e.filter(responsive(max)).len() ==> (#[trigger] e.filter(
                responsive(max),
            )[i]).1.failed_attempts <= max,
        forall|i: int|
            0 <= i < e.len() && (#[trigger] e[i]).1.failed_attempts <= max ==> e.filter(
                responsive(max),
            ).contains(e[i]),
{
    assert forall|i: int|
        0 <= i < e.filter(responsive(max)).len() implies (#[trigger] e.filter(
        responsive(max),
    )[i]).1.failed_attempts <= max by {
        e.lemma_filter_pred(responsive(max), i);
    }
    assert forall|i: int|
        0 <= i < e.len() && (#[trigger] e[i]).1.failed_attempts <= max implies e.filter(
        responsive(max),
    ).contains(e[i]) by {
        e.lemma_filter_contains(responsive(max), i);
    }
}

/// The peers to reconnect are known peers that failed at least once and
/// not more than the allowed number of times.
pub proof fn law_reconnect_only_failed_peers(e: Seq<(PeerAddress, PeerStatus)>, max: u32)
    ensures
        forall|i: int|
            0 <= i < e.filter(to_reconnect(max)).len() ==> {
                let s = (#[trigger] e.filter(to_reconnect(max))[i]).1;
                0 < s.failed_attempts <= max && e.contains(e.filter(to_reconnect(max))[i])
            },
{
    assert forall|i: int| 0 <= i < e.filter(to_reconnect(max)).len() implies {
        let s = (#[trigger] e.filter(to_reconnect(max))[i]).1;
        0 < s.failed_attempts <= max && e.contains(e.filter(to_reconnect(max))[i])
    } by {
        let f = e.filter(to_reconnect(max));
        e.lemma_filter_pred(to_reconnect(max), i);
        assert(f.contains(f[i]));
        e.lemma_filter_contains_rev(to_reconnect(max), f[i]);
    }
}

/// Adding a peer whose key is known, and in particular adding the same
/// address twice, changes nothing the second time.
pub proof fn law_add_peer_once(m0: PeerManager, m1: PeerManager, addr: NodeAddr)
    requires
        m1.entries().len() == m0.entries().len() + 1,
        m1.entries().last().0 == peer_address_of(addr),
    ensures
        has_key(m1.entries(), peer_address_of(addr)),
{
    assert(m1.entries()[m1.entries().len() - 1].0 == peer_address_of(addr));
}

/// The status of the peer under `key`.
pub open spec fn status_of(e: Seq<(PeerAddress, PeerStatus)>, key: PeerAddress) -> PeerStatus {
    e[choose|i: int| 0 <= i < e.len() && (#[trigger] e[i]).0 == key].1
}

/// One round of peer management in which the peer under `key` fails its
/// health check at time `now`: `m1` is `m0` after the health checks (as
/// `update_peer_status` leaves it for this peer), `reconnect` the peers that
/// `get_peers_to_reconnect` then gives, and `m2` the manager after
/// `remove_unresponsive_peers`.
pub open spec fn failing_round(
    m0: PeerManager,
    m1: PeerManager,
    reconnect: Seq<PeerInfo>,
    m2: PeerManager,
    key: PeerAddress,
    now: u64,
) -> bool {
    &&& m1.wf()
    &&& m2.wf()
    &&& m1.max_failed() == m0.max_failed()
    &&& m2.max_failed() == m1.max_failed()
    &&& has_key(m1.entries(), key)
    &&& status_of(m1.entries(), key) == checked_status(status_of(m0.entries(), key), false, now)
    &&& reconnect == m1.entries().filter(to_reconnect(m1.max_failed())).map_values(
        |e: (PeerAddress, PeerStatus)| e.1.info,
    )
    &&& m2.entries() == m1.entries().filter(responsive(m1.max_failed()))
}

/// Where the keys are distinct, the status under a key is that of the
/// entry with the key.
proof fn lemma_status_of_entry(e: Seq<(PeerAddress, PeerStatus)>, key: PeerAddress, i: int)
    requires
        keys_distinct(e),
        0 <= i < e.len(),
        e[i].0 == key,
    ensures
        status_of(e, key) == e[i].1,
{
    let j = choose|j: int| 0 <= j < e.len() && (#[trigger] e[j]).0 == key;
    assert(0 <= j < e.len() && e[j].0 == key);
    if j < i {
        assert(e[j].0 != e[i].0);
    } else if i < j {
        assert(e[i].0 != e[j].0);
    }
}

/// A health check recorded by `update_peer_status` for a known peer sets the
/// status under its key to the checked status; this is the first step of
/// `failing_round`.
pub proof fn law_checked_status_of(
    m0: PeerManager,
    m1: PeerManager,
    addr: NodeAddr,
    is_healthy: bool,
    now: u64,
    i: int,
)
    requires
        m0.wf(),
        m1.wf(),
        0 <= i < m0.entries().len(),
        m0.entries()[i].0 == peer_address_of(addr),
        m1.entries() == m0.entries().update(
            i,
            (peer_address_of(addr), checked_status(m0.entries()[i].1, is_healthy, now)),
        ),
    ensures
        has_key(m1.entries(), peer_address_of(addr)),
        status_of(m1.entries(), peer_address_of(addr)) == checked_status(
            status_of(m0.entries(), peer_address_of(addr)),
            is_healthy,
            now,
        ),
{
    let key = peer_address_of(addr);
    lemma_status_of_entry(m0.entries(), key, i);
    assert(m1.entries()[i].0 == key);
    lemma_status_of_entry(m1.entries(), key, i);
}

/// A health check changes only the peer's failure count and the time it
/// was last seen: a healthy check sets the time to `now` and clears the
/// failures; a failed check counts one more failure and leaves the time it
/// was last seen as it was.
pub proof fn law_health_check_effect(s: PeerStatus, is_healthy: bool, now: u64)
    requires
        s.failed_attempts < u32::MAX,
    ensures
        checked_status(s, is_healthy, now).info == s.info,
        checked_status(s, is_healthy, now).connected_once == s.connected_once,
        is_healthy ==> checked_status(s, is_healthy, now).last_seen == now
            && checked_status(s, is_healthy, now).failed_attempts == 0,
        !is_healthy ==> checked_status(s, is_healthy, now).last_seen == s.last_seen
            && checked_status(s, is_healthy, now).failed_attempts == s.failed_attempts + 1,
{
}

/// After `update_peer_status` records a failed check of a known peer, the
/// peer is still known, counts one more failure, and was last seen when it
/// was before.
pub proof fn law_failed_check_keeps_last_seen(
    m0: PeerManager,
    m1: PeerManager,
    addr: NodeAddr,
    now: u64,
    i: int,
)
    requires
        m0.wf(),
        m1.wf(),
        0 <= i < m0.entries().len(),
        m0.entries()[i].0 == peer_address_of(addr),
        m0.entries()[i].1.failed_attempts < u32::MAX,
        m1.entries() == m0.entries().update(
            i,
            (peer_address_of(addr), checked_status(m0.entries()[i].1, false, now)),
        ),
    ensures
        has_key(m1.entries(), peer_address_of(addr)),
        status_of(m1.entries(), peer_address_of(addr)).last_seen == m0.entries()[i].1.last_seen,
        status_of(m1.entries(), peer_address_of(addr)).failed_attempts == m0.entries()[i].1.failed_attempts
            + 1,
{
    law_checked_status_of(m0, m1, addr, false, now, i);
    lemma_status_of_entry(m0.entries(), peer_address_of(addr), i);
    law_health_check_effect(m0.entries()[i].1, false, now);
}

/// In a round in which a known peer fails its health check, its failures
/// go up by one. While they do not pass the allowed number, the peer is
/// among those reconnected and stays known; once they pass it, the peer is
/// dropped and is not among those reconnected.
pub proof fn law_failing_round(
    m0: PeerManager,
    m1: PeerManager,
    reconnect: Seq<PeerInfo>,
    m2: PeerManager,
    key: PeerAddress,
    now: u64,
)
    requires
        m0.wf(),
        has_key(m0.entries(), key),
        status_of(m0.entries(), key).failed_attempts <= m0.max_failed(),
        m0.max_failed() < u32::MAX,
        failing_round(m0, m1, reconnect, m2, key, now),
    ensures
        status_of(m1.entries(), key).failed_attempts == status_of(m0.entries(), key).failed_attempts
            + 1,
        status_of(m1.entries(), key).info == status_of(m0.entries(), key).info,
        status_of(m0.entries(), key).failed_attempts + 1 <= m0.max_failed() ==> {
            &&& reconnect.contains(status_of(m0.entries(), key).info)
            &&& has_key(m2.entries(), key)
            &&& status_of(m2.entries(), key) == status_of(m1.entries(), key)
        },
        status_of(m0.entries(), key).failed_attempts + 1 > m0.max_failed() ==> {
            &&& !has_key(m2.entries(), key)
            &&& forall|i: int|
                0 <= i < m1.entries().filter(to_reconnect(m1.max_failed())).len() ==> (
                #[trigger] m1.entries().filter(to_reconnect(m1.max_failed()))[i]).0 != key
        },
{
    let max = m1.max_failed();
    let e1 = m1.entries();
    let s1 = status_of(e1, key);
    let i1 = choose|i: int| 0 <= i < e1.len() && (#[trigger] e1[i]).0 == key;
    lemma_status_of_entry(e1, key, i1);
    assert(e1[i1] == (key, s1));
    let f = status_of(m0.entries(), key).failed_attempts;
    assert(s1.failed_attempts == f + 1);
    let info = |e: (PeerAddress, PeerStatus)| e.1.info;
    if f + 1 <= max {
        let fr = e1.filter(to_reconnect(max));
        e1.lemma_filter_contains(to_reconnect(max), i1);
        assert(fr.contains(e1[i1]));
        let k = choose|k: int| 0 <= k < fr.len() && fr[k] == e1[i1];
        assert(reconnect[k] == info(fr[k]));
        assert(reconnect.contains(s1.info));
        let e2 = m2.entries();
        e1.lemma_filter_contains(responsive(max), i1);
        assert(e2.contains(e1[i1]));
        let k2 = choose|k2: int| 0 <= k2 < e2.len() && e2[k2] == e1[i1];
        assert(e2[k2].0 == key);
        lemma_status_of_entry(e2, key, k2);
    } else {
        let e2 = m2.entries();
        assert forall|k: int| 0 <= k < e2.len() implies (#[trigger] e2[k]).0 != key by {
            e1.lemma_filter_pred(responsive(max), k);
            e1.lemma_filter_contains_rev(responsive(max), e2[k]);
            if e2[k].0 == key {
                let j = choose|j: int| 0 <= j < e1.len() && e1[j] == e2[k];
                lemma_status_of_entry(e1, key, j);
            }
        }
        let fr = e1.filter(to_reconnect(max));
        assert forall|i: int| 0 <= i < fr.len() implies (#[trigger] fr[i]).0 != key by {
            e1.lemma_filter_pred(to_reconnect(max), i);
            assert(fr.contains(fr[i]));
            e1.lemma_filter_contains_rev(to_reconnect(max), fr[i]);
            if fr[i].0 == key {
                let j = choose|j: int| 0 <= j < e1.len() && e1[j] == fr[i];
                lemma_status_of_entry(e1, key, j);
            }
        }
    }
}

/// Over successive rounds from `ms[r]` to `ms[r + 1]` through `mids[r]`,
/// a peer under `key` that had no failure and fails every health check
/// fails `r + 1` times in round `r + 1`, and is reconnected and kept in
/// each of the rounds 1 to the allowed number of failures.
proof fn lemma_failing_rounds_prefix(
    ms: Seq<PeerManager>,
    mids: Seq<PeerManager>,
    reconnects: Seq<Seq<PeerInfo>>,
    nows: Seq<u64>,
    key: PeerAddress,
    n: int,
)
    requires
        ms.len() == mids.len() + 1,
        reconnects.len() == mids.len(),
        nows.len() == mids.len(),
        ms[0].wf(),
        has_key(ms[0].entries(), key),
        status_of(ms[0].entries(), key).failed_attempts == 0,
        ms[0].max_failed() < u32::MAX,
        forall|r: int|
            0 <= r < mids.len() ==> failing_round(
                #[trigger] ms[r],
                mids[r],
                reconnects[r],
                ms[r + 1],
                key,
                nows[r],
            ),
        0 <= n <= mids.len(),
        n <= ms[0].max_failed(),
    ensures
        ms[n].wf(),
        ms[n].max_failed() == ms[0].max_failed(),
        has_key(ms[n].entries(), key),
        status_of(ms[n].entries(), key).failed_attempts == n,
        status_of(ms[n].entries(), key).info == status_of(ms[0].entries(), key).info,
    decreases n,
{
    if n > 0 {
        lemma_failing_rounds_prefix(ms, mids, reconnects, nows, key, n - 1);
        assert(failing_round(ms[n - 1], mids[n - 1], reconnects[n - 1], ms[n], key, nows[n - 1]));
        law_failing_round(ms[n - 1], mids[n - 1], reconnects[n - 1], ms[n], key, nows[n - 1]);
    }
}

/// A peer that had no failure and then fails the health check of every
/// round is, in each round k from 1 to the allowed number of failures,
/// marked with k failures, reconnected and kept; in the next round it is
/// dropped and not reconnected. `ms[r]` is the manager before round r + 1,
/// `mids[r]` the manager after its health checks, `reconnects[r]` the
/// peers it reconnects.
pub proof fn law_failing_peer_is_retried_then_dropped(
    ms: Seq<PeerManager>,
    mids: Seq<PeerManager>,
    reconnects: Seq<Seq<PeerInfo>>,
    nows: Seq<u64>,
    key: PeerAddress,
)
    requires
        ms.len() == mids.len() + 1,
        reconnects.len() == mids.len(),
        nows.len() == mids.len(),
        ms[0].wf(),
        has_key(ms[0].entries(), key),
        status_of(ms[0].entries(), key).failed_attempts == 0,
        ms[0].max_failed() < u32::MAX,
        mids.len() <= ms[0].max_failed() + 1,
        forall|r: int|
            0 <= r < mids.len() ==> failing_round(
                #[trigger] ms[r],
                mids[r],
                reconnects[r],
                ms[r + 1],
                key,
                nows[r],
            ),
    ensures
        forall|r: int|
            0 <= r < mids.len() && r + 1 <= ms[0].max_failed() ==> {
                &&& status_of((#[trigger] mids[r]).entries(), key).failed_attempts == r + 1
                &&& reconnects[r].contains(status_of(ms[0].entries(), key).info)
                &&& has_key(ms[r + 1].entries(), key)
            },
        mids.len() == ms[0].max_failed() + 1 ==> {
            let last = ms[0].max_failed() as int;
            &&& status_of(mids[last].entries(), key).failed_attempts == last + 1
            &&& !has_key(ms[last + 1].entries(), key)
            &&& forall|i: int|
                0 <= i < mids[last].entries().filter(to_reconnect(ms[0].max_failed())).len() ==> (
                #[trigger] mids[last].entries().filter(to_reconnect(ms[0].max_failed()))[i]).0
                    != key
        },
{
    let max = ms[0].max_failed();
    assert forall|r: int| 0 <= r < mids.len() && r + 1 <= max implies {
        &&& status_of((#[trigger] mids[r]).entries(), key).failed_attempts == r + 1
        &&& reconnects[r].contains(status_of(ms[0].entries(), key).info)
        &&& has_key(ms[r + 1].entries(), key)
    } by {
        lemma_failing_rounds_prefix(ms, mids, reconnects, nows, key, r);
        assert(failing_round(ms[r], mids[r], reconnects[r], ms[r + 1], key, nows[r]));
        law_failing_round(ms[r], mids[r], reconnects[r], ms[r + 1], key, nows[r]);
    }
    if mids.len() == max + 1 {
        let last = max as int;
        lemma_failing_rounds_prefix(ms, mids, reconnects, nows, key, last);
        assert(failing_round(ms[last], mids[last], reconnects[last], ms[last + 1], key, nows[last]));
        law_failing_round(ms[last], mids[last], reconnects[last], ms[last + 1], key, nows[last]);
    }
}

/// Filtering keeps the keys of the kept entries distinct.
proof fn lemma_filter_keeps_distinct(
    e: Seq<(PeerAddress, PeerStatus)>,
    pred: spec_fn((PeerAddress, PeerStatus)) -> bool,
    i: int,
    j: int,
)
    requires
        keys_distinct(e),
        0 <= i < j < e.filter(pred).len(),
    ensures
        e.filter(pred)[i].0 != e.filter(pred)[j].0,
    decreases e.len(),
{
    reveal_with_fuel(Seq::filter, 1);
    let f = e.filter(pred);
    let rest = e.drop_last();
    assert(keys_distinct(rest));
    if pred(e.last()) && j == f.len() - 1 {
        assert(f[j] == e.last());
        rest.lemma_filter_contains_rev(pred, f[i]);
        let k = choose|k: int| 0 <= k < rest.len() && rest[k] == f[i];
        assert(e[k] == f[i]);
        assert(e[k].0 != e[e.len() - 1].0);
    } else {
        lemma_filter_keeps_distinct(rest, pred, i, j);
    }
}

} // verus!
