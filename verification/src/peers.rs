//! Candidate peers of a connection, and the clean-up of a peer list handed in
//! by the embedding application.
use vstd::prelude::*;
use crate::ip::IpAddress;
use crate::keys::WgPeerPublicKey;

verus! {

/// Represents a candidate peer for connection.
#[derive(Clone, PartialEq, Debug)]
pub struct PeerInfo {
    /// Unique identifier of connected peer (as defined by client). This id will be available in
    /// connection states when given peer is connecting/connected.
    pub peer_id: String,
    pub server_ip: IpAddress,
    pub server_public_key: WgPeerPublicKey,
    pub udp_ports: Vec<u16>,
    pub tcp_ports: Vec<u16>,
    pub tls_ports: Vec<u16>,
    /// Lower value = higher priority.
    pub priority: i32,
}

/// What a [PeerInfo] holds, as mathematical values.
pub struct PeerInfoView {
    pub peer_id: Seq<char>,
    pub server_ip: IpAddress,
    pub server_public_key: Seq<u8>,
    pub udp_ports: Seq<u16>,
    pub tcp_ports: Seq<u16>,
    pub tls_ports: Seq<u16>,
    pub priority: i32,
}

impl View for PeerInfo {
    type V = PeerInfoView;

    open spec fn view(&self) -> PeerInfoView {
        PeerInfoView {
            peer_id: self.peer_id@,
            server_ip: self.server_ip,
            server_public_key: self.server_public_key@,
            udp_ports: self.udp_ports@,
            tcp_ports: self.tcp_ports@,
            tls_ports: self.tls_ports@,
            priority: self.priority,
        }
    }
}

/// A peer as it is handed to the VPN client library: its address, its key,
/// its id as the peer's tag, its ports and its priority narrowed to 16 bits.
pub struct ClientPeer {
    pub addr: IpAddress,
    pub public_key: WgPeerPublicKey,
    pub tag: String,
    pub udp_ports: Vec<u16>,
    pub tcp_ports: Vec<u16>,
    pub tls_ports: Vec<u16>,
    pub priority: i16,
}

pub struct ClientPeerView {
    pub addr: IpAddress,
    pub public_key: Seq<u8>,
    pub tag: Seq<char>,
    pub udp_ports: Seq<u16>,
    pub tcp_ports: Seq<u16>,
    pub tls_ports: Seq<u16>,
    pub priority: i16,
}

impl View for ClientPeer {
    type V = ClientPeerView;

    open spec fn view(&self) -> ClientPeerView {
        ClientPeerView {
            addr: self.addr,
            public_key: self.public_key@,
            tag: self.tag@,
            udp_ports: self.udp_ports@,
            tcp_ports: self.tcp_ports@,
            tls_ports: self.tls_ports@,
            priority: self.priority,
        }
    }
}

/// No port of the list is 0 (the client library takes non-zero ports only).
pub open spec fn ports_valid(ports: Seq<u16>) -> bool {
    forall|i: int| 0 <= i < ports.len() ==> ports[i] != 0
}

/// All ports of a peer are valid.
pub open spec fn peer_ports_valid(p: PeerInfoView) -> bool {
    ports_valid(p.udp_ports) && ports_valid(p.tcp_ports) && ports_valid(p.tls_ports)
}

/// All ports of all peers are valid.
pub open spec fn all_ports_valid(s: Seq<PeerInfoView>) -> bool {
    forall|i: int| 0 <= i < s.len() ==> #[trigger] peer_ports_valid(s[i])
}

/// The client-library peer for a candidate peer. The priority is truncated to
/// 16 bits, as an `as i16` cast does.
pub open spec fn client_peer_of(p: PeerInfoView) -> ClientPeerView {
    ClientPeerView {
        addr: p.server_ip,
        public_key: p.server_public_key,
        tag: p.peer_id,
        udp_ports: p.udp_ports,
        tcp_ports: p.tcp_ports,
        tls_ports: p.tls_ports,
        priority: p.priority as i16,
    }
}

/// Law: the client peer for a candidate peer is that peer: its address, its
/// key, its id as tag, its UDP ports as UDP ports, its TCP ports as TCP ports
/// and its TLS ports as TLS ports, and its priority wherever that fits 16 bits.
pub proof fn lemma_client_peer_is_the_candidate(p: PeerInfoView)
    ensures
        client_peer_of(p).addr == p.server_ip,
        client_peer_of(p).public_key == p.server_public_key,
        client_peer_of(p).tag == p.peer_id,
        client_peer_of(p).udp_ports == p.udp_ports,
        client_peer_of(p).tcp_ports == p.tcp_ports,
        client_peer_of(p).tls_ports == p.tls_ports,
        i16::MIN <= p.priority <= i16::MAX ==> client_peer_of(p).priority == p.priority,
{
    let q = p.priority;
    assert(i16::MIN <= q <= i16::MAX ==> q as i16 == q) by (bit_vector);
}

fn copy_ports(v: &Vec<u16>) -> (r: Vec<u16>)
    ensures
        r@ == v@,
{
    v.clone()
}

impl PeerInfo {
    /// The peer as it is handed to the VPN client library.
    pub fn as_peer(&self) -> (c: ClientPeer)
        requires
            peer_ports_valid(self@),
        ensures
            c@ == client_peer_of(self@),
            c.addr == self.server_ip,
            c.public_key@ == self.server_public_key@,
            c.tag@ == self.peer_id@,
            c.udp_ports@ == self.udp_ports@,
            c.tcp_ports@ == self.tcp_ports@,
            c.tls_ports@ == self.tls_ports@,
            i16::MIN <= self.priority <= i16::MAX ==> c.priority == self.priority,
    {
        ClientPeer {
            addr: self.server_ip,
            public_key: self.server_public_key.duplicate(),
            tag: self.peer_id.clone(),
            udp_ports: copy_ports(&self.udp_ports),
            tcp_ports: copy_ports(&self.tcp_ports),
            tls_ports: copy_ports(&self.tls_ports),
            priority: #[verifier::truncate] (self.priority as i16),
        }
    }

    /// The address under which the peer is known to the VPN client library.
    pub fn addr(&self) -> (a: IpAddress)
        ensures
            a == self.server_ip,
    {
        self.server_ip
    }
}

/// The views of a sequence of peers.
pub open spec fn peer_views(s: Seq<PeerInfo>) -> Seq<PeerInfoView> {
    s.map_values(|p: PeerInfo| p@)
}

/// The position of the first peer of `s` whose address is `a`, if any.
pub open spec fn first_position(s: Seq<PeerInfoView>, a: IpAddress) -> Option<int>
    decreases s.len(),
{
    if s.len() == 0 {
        None
    } else {
        match first_position(s.drop_last(), a) {
            Some(i) => Some(i),
            None => if s.last().server_ip == a {
                Some(s.len() - 1)
            } else {
                None
            },
        }
    }
}

/// The peer at position `i` of `s` is the one kept for its address: no peer
/// with that address has a lower priority value, and every earlier peer with
/// that address has a higher one (on equal priority the first one is kept).
pub open spec fn is_preferred(s: Seq<PeerInfoView>, i: int) -> bool {
    &&& 0 <= i < s.len()
    &&& forall|k: int|
        0 <= k < s.len() && (#[trigger] s[k]).server_ip == s[i].server_ip ==> {
            &&& s[i].priority <= s[k].priority
            &&& (k < i ==> s[k].priority > s[i].priority)
        }
}

/// `v` is the preferred peer (see [is_preferred]) of its address in `s`.
pub open spec fn is_kept_peer(s: Seq<PeerInfoView>, v: PeerInfoView) -> bool {
    exists|i: int| #[trigger] is_preferred(s, i) && s[i] == v
}

/// Some peer of `r` has address `a`.
pub open spec fn has_address(r: Seq<PeerInfoView>, a: IpAddress) -> bool {
    exists|j: int| 0 <= j < r.len() && #[trigger] r[j].server_ip == a
}

/// `r` is the peer list `s` with one peer kept per address: the preferred one
/// (see [is_preferred]), listed in the order in which the addresses first
/// appear in `s`.
pub open spec fn is_sanitized(s: Seq<PeerInfoView>, r: Seq<PeerInfoView>) -> bool {
    &&& forall|j: int| 0 <= j < r.len() ==> is_kept_peer(s, #[trigger] r[j])
    &&& forall|i: int| 0 <= i < s.len() ==> has_address(r, (#[trigger] s[i]).server_ip)
    &&& forall|j1: int, j2: int|
        0 <= j1 < j2 < r.len() ==> first_position(s, #[trigger] r[j1].server_ip).unwrap()
            < first_position(s, #[trigger] r[j2].server_ip).unwrap()
}

/// A peer list in which no two peers share an address.
pub struct SanitizedPeers(pub Vec<PeerInfo>);

proof fn lemma_first_position_found(s: Seq<PeerInfoView>, i: int)
    requires
        0 <= i < s.len(),
    ensures
        first_position(s, s[i].server_ip) matches Some(f) && 0 <= f <= i && s[f].server_ip == s[i].server_ip,
    decreases s.len(),
{
    if i < s.len() - 1 {
        lemma_first_position_found(s.drop_last(), i);
    } else {
        match first_position(s.drop_last(), s[i].server_ip) {
            Some(f) => {
                lemma_first_position_bounds(s.drop_last(), s[i].server_ip);
            },
            None => {},
        }
    }
}

proof fn lemma_first_position_bounds(s: Seq<PeerInfoView>, a: IpAddress)
    ensures
        first_position(s, a) matches Some(f) ==> 0 <= f < s.len() && s[f].server_ip == a,
        first_position(s, a) is None ==> forall|k: int| 0 <= k < s.len() ==> s[k].server_ip != a,
    decreases s.len(),
{
    if s.len() > 0 {
        lemma_first_position_bounds(s.drop_last(), a);
        if first_position(s, a) is None {
            assert forall|k: int| 0 <= k < s.len() implies s[k].server_ip != a by {
                if k < s.len() - 1 {
                    assert(s.drop_last()[k] == s[k]);
                }
            }
        }
    }
}

/// Extending a sequence keeps the first position of an address already in it.
proof fn lemma_first_position_prefix(s: Seq<PeerInfoView>, n: int, a: IpAddress)
    requires
        0 <= n <= s.len(),
        first_position(s.take(n), a) is Some,
    ensures
        first_position(s, a) == first_position(s.take(n), a),
    decreases s.len() - n,
{
    if n < s.len() {
        assert(s.take(n + 1).drop_last() =~= s.take(n));
        lemma_first_position_prefix(s, n + 1, a);
    } else {
        assert(s.take(n) =~= s);
    }
}

impl SanitizedPeers {
    /// Keeps one peer per address: the one with the lowest priority value,
    /// the first of them on equal priority. Addresses keep the order of their
    /// first appearance.
    pub fn from(peers: Vec<PeerInfo>) -> (r: SanitizedPeers)
        ensures
            is_sanitized(peer_views(peers@), peer_views(r.0@)),
    {
        let ghost s = peer_views(peers@);
        let mut out: Vec<PeerInfo> = Vec::new();
        // for each kept peer, its position in `s`
        let ghost mut kept: Seq<int> = Seq::empty();
        for peer in it: peers.into_iter()
            invariant
                it.seq() == peers@,
                s == peer_views(peers@),
                Self::step_invariant(s, it.index() as int, peer_views(out@), kept),
        {
            let ghost n = it.index() as int;
            let ghost o = peer_views(out@);
            proof {
                assert(peer == peers@[n]);
                assert(s[n] == peer@);
            }
            let mut j: usize = 0;
            let mut found = false;
            while j < out.len()
                invariant_except_break
                    0 <= j <= out.len(),
                    !found,
                    forall|k: int| 0 <= k < j ==> (#[trigger] out@[k]).server_ip != peer.server_ip,
                ensures
                    0 <= j <= out.len(),
                    found ==> j < out.len() && out@[j as int].server_ip == peer.server_ip,
                    !found ==> forall|k: int| 0 <= k < out@.len() ==> (#[trigger] out@[k]).server_ip != peer.server_ip,
                decreases out.len() - j,
            {
                if out[j].server_ip.same_as(&peer.server_ip) {
                    found = true;
                    break;
                }
                j = j + 1;
            }
            proof {
                Self::lemma_step(s, n, o, kept, j as int, found);
            }
            if found {
                if peer.priority < out[j].priority {
                    out[j] = peer;
                    proof {
                        kept = kept.update(j as int, n);
                        assert(peer_views(out@) =~= o.update(j as int, s[n]));
                    }
                } else {
                    proof {
                        assert(peer_views(out@) =~= o);
                    }
                }
            } else {
                out.push(peer);
                proof {
                    kept = kept.push(n);
                    assert(peer_views(out@) =~= o.push(s[n]));
                }
            }
        }
        proof {
            assert(s.take(s.len() as int) =~= s);
            Self::lemma_finish(s, peer_views(out@), kept);
        }
        SanitizedPeers(out)
    }

    /// What holds after the first `n` peers of `s` were handled: `o` holds the
    /// kept peers, `kept` their positions in `s`.
    spec fn step_invariant(s: Seq<PeerInfoView>, n: int, o: Seq<PeerInfoView>, kept: Seq<int>) -> bool {
        let p = s.take(n);
        &&& 0 <= n <= s.len()
        &&& o.len() == kept.len()
        &&& forall|j: int|
            0 <= j < o.len() ==> 0 <= #[trigger] kept[j] < n && o[j] == s[kept[j]] && is_preferred(p, kept[j])
        &&& forall|i: int| 0 <= i < n ==> has_address(o, (#[trigger] s[i]).server_ip)
        &&& forall|j1: int, j2: int|
            0 <= j1 < j2 < o.len() ==> first_position(p, #[trigger] o[j1].server_ip).unwrap()
                < first_position(p, #[trigger] o[j2].server_ip).unwrap()
    }

    /// A peer stays the preferred one of its address when a peer with another
    /// address, or with no lower priority value, is appended.
    proof fn lemma_preferred_extend(s: Seq<PeerInfoView>, n: int, i: int)
        requires
            0 <= n < s.len(),
            0 <= i < n,
            is_preferred(s.take(n), i),
            s[n].server_ip != s[i].server_ip || s[n].priority >= s[i].priority,
        ensures
            is_preferred(s.take(n + 1), i),
    {
        let p = s.take(n);
        let p2 = s.take(n + 1);
        assert forall|k: int| 0 <= k < p2.len() && (#[trigger] p2[k]).server_ip == p2[i].server_ip implies {
            &&& p2[i].priority <= p2[k].priority
            &&& (k < i ==> p2[k].priority > p2[i].priority)
        } by {
            if k < n {
                assert(p[k] == p2[k]);
            }
        }
    }

    /// An appended peer with a lower priority value than the preferred one of
    /// its address becomes the preferred one.
    proof fn lemma_preferred_new(s: Seq<PeerInfoView>, n: int, i: int)
        requires
            0 <= n < s.len(),
            0 <= i < n,
            is_preferred(s.take(n), i),
            s[n].server_ip == s[i].server_ip,
            s[n].priority < s[i].priority,
        ensures
            is_preferred(s.take(n + 1), n),
    {
        let p = s.take(n);
        let p2 = s.take(n + 1);
        assert forall|k: int| 0 <= k < p2.len() && (#[trigger] p2[k]).server_ip == p2[n].server_ip implies {
            &&& p2[n].priority <= p2[k].priority
            &&& (k < n ==> p2[k].priority > p2[n].priority)
        } by {
            if k < n {
                assert(p[k] == p2[k]);
                assert(p[k].server_ip == p[i].server_ip);
            }
        }
    }

    /// An appended peer whose address no earlier peer has is the preferred one
    /// of its address.
    proof fn lemma_preferred_alone(s: Seq<PeerInfoView>, n: int)
        requires
            0 <= n < s.len(),
            forall|k: int| 0 <= k < n ==> (#[trigger] s[k]).server_ip != s[n].server_ip,
        ensures
            is_preferred(s.take(n + 1), n),
    {
        let p2 = s.take(n + 1);
        assert forall|k: int| 0 <= k < p2.len() && (#[trigger] p2[k]).server_ip == p2[n].server_ip implies {
            &&& p2[n].priority <= p2[k].priority
            &&& (k < n ==> p2[k].priority > p2[n].priority)
        } by {
            if k < n {
                assert(s[k] == p2[k]);
            }
        }
    }

    proof fn lemma_step(s: Seq<PeerInfoView>, n: int, o: Seq<PeerInfoView>, kept: Seq<int>, j: int, found: bool)
        requires
            0 <= n < s.len(),
            Self::step_invariant(s, n, o, kept),
            0 <= j <= o.len(),
            found ==> j < o.len() && o[j].server_ip == s[n].server_ip,
            !found ==> forall|k: int| 0 <= k < o.len() ==> (#[trigger] o[k]).server_ip != s[n].server_ip,
        ensures
            found && s[n].priority < o[j].priority ==> Self::step_invariant(s, n + 1, o.update(j, s[n]), kept.update(j, n)),
            found && !(s[n].priority < o[j].priority) ==> Self::step_invariant(s, n + 1, o, kept),
            !found ==> Self::step_invariant(s, n + 1, o.push(s[n]), kept.push(n)),
    {
        let p = s.take(n);
        let p2 = s.take(n + 1);
        let e = s[n];
        assert(p2.drop_last() =~= p);
        // every kept address already occurs in the handled prefix
        assert forall|x: int| 0 <= x < o.len() implies
            first_position(p, (#[trigger] o[x]).server_ip) is Some
            && first_position(p2, o[x].server_ip) == first_position(p, o[x].server_ip)
            && first_position(p, o[x].server_ip).unwrap() < n
        by {
            assert(p[kept[x]] == s[kept[x]]);
            lemma_first_position_found(p, kept[x]);
            lemma_first_position_bounds(p, o[x].server_ip);
        }
        // kept addresses are pairwise distinct
        assert forall|x: int, y: int| 0 <= x < o.len() && 0 <= y < o.len() && x != y
            implies (#[trigger] o[x]).server_ip != (#[trigger] o[y]).server_ip
        by {
            if x < y {
                assert(first_position(p, o[x].server_ip).unwrap() < first_position(p, o[y].server_ip).unwrap());
            } else {
                assert(first_position(p, o[y].server_ip).unwrap() < first_position(p, o[x].server_ip).unwrap());
            }
        }
        if found {
            let i0 = kept[j];
            assert(is_preferred(p, i0));
            if e.priority < o[j].priority {
                let o2 = o.update(j, e);
                let k2 = kept.update(j, n);
                Self::lemma_preferred_new(s, n, i0);
                assert forall|x: int| 0 <= x < o2.len() implies
                    0 <= #[trigger] k2[x] < n + 1 && o2[x] == s[k2[x]] && is_preferred(p2, k2[x])
                by {
                    if x != j {
                        Self::lemma_preferred_extend(s, n, kept[x]);
                    }
                }
                assert forall|i: int| 0 <= i < n + 1 implies has_address(o2, (#[trigger] s[i]).server_ip) by {
                    if i < n {
                        let w = choose|w: int| 0 <= w < o.len() && #[trigger] o[w].server_ip == s[i].server_ip;
                        assert(o2[w].server_ip == s[i].server_ip);
                    } else {
                        assert(o2[j].server_ip == s[i].server_ip);
                    }
                }
                assert forall|j1: int, j2: int| 0 <= j1 < j2 < o2.len() implies
                    first_position(p2, #[trigger] o2[j1].server_ip).unwrap()
                        < first_position(p2, #[trigger] o2[j2].server_ip).unwrap()
                by {
                    assert(o2[j1].server_ip == o[j1].server_ip);
                    assert(o2[j2].server_ip == o[j2].server_ip);
                }
            } else {
                assert forall|x: int| 0 <= x < o.len() implies
                    0 <= #[trigger] kept[x] < n + 1 && o[x] == s[kept[x]] && is_preferred(p2, kept[x])
                by {
                    Self::lemma_preferred_extend(s, n, kept[x]);
                }
                assert forall|i: int| 0 <= i < n + 1 implies has_address(o, (#[trigger] s[i]).server_ip) by {
                    if i == n {
                        assert(o[j].server_ip == s[i].server_ip);
                    }
                }
            }
        } else {
            let o2 = o.push(e);
            let k2 = kept.push(n);
            assert forall|k: int| 0 <= k < n implies (#[trigger] s[k]).server_ip != s[n].server_ip by {
                assert(has_address(o, s[k].server_ip));
            }
            Self::lemma_preferred_alone(s, n);
            lemma_first_position_bounds(p, e.server_ip);
            assert(first_position(p, e.server_ip) is None) by {
                if first_position(p, e.server_ip) is Some {
                    let f = first_position(p, e.server_ip).unwrap();
                    assert(p[f] == s[f]);
                }
            }
            assert(first_position(p2, e.server_ip) == Some(n));
            assert forall|x: int| 0 <= x < o2.len() implies
                0 <= #[trigger] k2[x] < n + 1 && o2[x] == s[k2[x]] && is_preferred(p2, k2[x])
            by {
                if x < o.len() {
                    Self::lemma_preferred_extend(s, n, kept[x]);
                }
            }
            assert forall|i: int| 0 <= i < n + 1 implies has_address(o2, (#[trigger] s[i]).server_ip) by {
                if i < n {
                    let w = choose|w: int| 0 <= w < o.len() && #[trigger] o[w].server_ip == s[i].server_ip;
                    assert(o2[w].server_ip == s[i].server_ip);
                } else {
                    assert(o2[o.len() as int].server_ip == s[i].server_ip);
                }
            }
            assert forall|j1: int, j2: int| 0 <= j1 < j2 < o2.len() implies
                first_position(p2, #[trigger] o2[j1].server_ip).unwrap()
                    < first_position(p2, #[trigger] o2[j2].server_ip).unwrap()
            by {
                assert(o2[j1] == o[j1]);
                if j2 < o.len() {
                    assert(o2[j2] == o[j2]);
                }
            }
        }
    }

    proof fn lemma_finish(s: Seq<PeerInfoView>, o: Seq<PeerInfoView>, kept: Seq<int>)
        requires
            Self::step_invariant(s, s.len() as int, o, kept),
        ensures
            is_sanitized(s, o),
    {
        assert(s.take(s.len() as int) =~= s);
        assert forall|j: int| 0 <= j < o.len() implies is_kept_peer(s, #[trigger] o[j]) by {
            assert(is_preferred(s, kept[j]) && o[j] == s[kept[j]]);
        }
        assert forall|i: int| 0 <= i < s.len() implies has_address(o, (#[trigger] s[i]).server_ip) by {}
        assert forall|j1: int, j2: int| 0 <= j1 < j2 < o.len() implies
            first_position(s, #[trigger] o[j1].server_ip).unwrap()
                < first_position(s, #[trigger] o[j2].server_ip).unwrap()
        by {}
    }

    /// Whether no peer is left.
    pub fn is_empty(&self) -> (r: bool)
        ensures
            r == (self.0@.len() == 0),
    {
        self.0.len() == 0
    }
}

/// No two peers of the list share an address.
pub open spec fn distinct_addresses(s: Seq<PeerInfoView>) -> bool {
    forall|i: int, j: int| 0 <= i < s.len() && 0 <= j < s.len() && i != j ==> #[trigger] s[i].server_ip != #[trigger] s[j].server_ip
}

/// Law: no two peers of a sanitized list share an address.
pub proof fn lemma_sanitized_addresses_distinct(s: Seq<PeerInfoView>, r: Seq<PeerInfoView>)
    requires
        is_sanitized(s, r),
    ensures
        distinct_addresses(r),
{
    assert forall|i: int, j: int| 0 <= i < r.len() && 0 <= j < r.len() && i != j implies #[trigger] r[i].server_ip
        != #[trigger] r[j].server_ip by {
        if i < j {
            assert(first_position(s, r[i].server_ip).unwrap() < first_position(s, r[j].server_ip).unwrap());
        } else {
            assert(first_position(s, r[j].server_ip).unwrap() < first_position(s, r[i].server_ip).unwrap());
        }
    }
}

/// In a list without shared addresses, the first position of the address of
/// the peer at `i` is `i`.
proof fn lemma_first_position_distinct(s: Seq<PeerInfoView>, i: int)
    requires
        distinct_addresses(s),
        0 <= i < s.len(),
    ensures
        first_position(s, s[i].server_ip) == Some(i),
{
    lemma_first_position_found(s, i);
    let f = first_position(s, s[i].server_ip).unwrap();
    if f != i {
        assert(s[f].server_ip != s[i].server_ip);
    }
}

/// Law: sanitizing a list in which no two peers share an address gives the
/// list back unchanged.
pub proof fn lemma_sanitize_distinct_unchanged(s: Seq<PeerInfoView>, r: Seq<PeerInfoView>)
    requires
        distinct_addresses(s),
        is_sanitized(s, r),
    ensures
        r == s,
{
    lemma_sanitized_addresses_distinct(s, r);
    // the position in `s` of each kept peer
    let idx = Seq::new(r.len(), |j: int| first_position(s, r[j].server_ip).unwrap());
    assert forall|j: int| 0 <= j < r.len() implies 0 <= #[trigger] idx[j] < s.len() && s[idx[j]] == r[j] by {
        assert(is_kept_peer(s, r[j]));
        let i = choose|i: int| #[trigger] is_preferred(s, i) && s[i] == r[j];
        lemma_first_position_distinct(s, i);
    }
    // positions increase, and each is at least its index
    assert forall|j: int| 0 <= j < r.len() implies #[trigger] idx[j] >= j by {
        lemma_idx_at_least(s, r, idx, j);
    }
    // each position is its index
    assert forall|j: int| 0 <= j < r.len() implies #[trigger] idx[j] == j by {
        lemma_idx_identity(s, r, idx, j);
    }
    // no peer of `s` is left out
    if r.len() < s.len() {
        let m = r.len() as int;
        assert(has_address(r, s[m].server_ip));
        let j = choose|j: int| 0 <= j < r.len() && #[trigger] r[j].server_ip == s[m].server_ip;
        assert(s[idx[j]] == r[j]);
        assert(idx[j] == j);
        assert(s[j].server_ip == s[m].server_ip);
    }
    assert(r.len() <= s.len()) by {
        if r.len() > s.len() {
            let j = r.len() - 1;
            assert(idx[j] >= j);
        }
    }
    assert(r =~= s) by {
        assert forall|j: int| 0 <= j < r.len() implies r[j] == s[j] by {
            assert(idx[j] == j);
        }
    }
}

proof fn lemma_idx_at_least(s: Seq<PeerInfoView>, r: Seq<PeerInfoView>, idx: Seq<int>, j: int)
    requires
        is_sanitized(s, r),
        idx.len() == r.len(),
        forall|k: int| 0 <= k < r.len() ==> idx[k] == first_position(s, #[trigger] r[k].server_ip).unwrap(),
        forall|k: int| 0 <= k < r.len() ==> 0 <= #[trigger] idx[k] < s.len(),
        0 <= j < r.len(),
    ensures
        idx[j] >= j,
    decreases j,
{
    if j > 0 {
        lemma_idx_at_least(s, r, idx, j - 1);
        assert(first_position(s, r[j - 1].server_ip).unwrap() < first_position(s, r[j].server_ip).unwrap());
    }
}

proof fn lemma_idx_identity(s: Seq<PeerInfoView>, r: Seq<PeerInfoView>, idx: Seq<int>, j: int)
    requires
        distinct_addresses(s),
        is_sanitized(s, r),
        idx.len() == r.len(),
        forall|k: int| 0 <= k < r.len() ==> idx[k] == first_position(s, #[trigger] r[k].server_ip).unwrap(),
        forall|k: int| 0 <= k < r.len() ==> 0 <= #[trigger] idx[k] < s.len() && s[idx[k]] == r[k],
        forall|k: int| 0 <= k < r.len() ==> #[trigger] idx[k] >= k,
        0 <= j < r.len(),
    ensures
        idx[j] == j,
    decreases j,
{
    if j > 0 {
        lemma_idx_identity(s, r, idx, j - 1);
    }
    // s[j] is kept by some j2, whose position is j
    assert(j <= idx[j] < s.len());
    assert(has_address(r, s[j].server_ip));
    let j2 = choose|j2: int| 0 <= j2 < r.len() && #[trigger] r[j2].server_ip == s[j].server_ip;
    assert(s[idx[j2]] == r[j2]);
    assert(idx[j2] == j) by {
        if idx[j2] != j {
            assert(s[idx[j2]].server_ip != s[j].server_ip);
        }
    }
    if j2 < j {
        lemma_idx_identity(s, r, idx, j2);
    } else if j2 > j {
        assert(first_position(s, r[j].server_ip).unwrap() < first_position(s, r[j2].server_ip).unwrap());
    }
}

} // verus!
