//! The UDP rendezvous side: requests, and the two-slot pairing buffer that
//! introduces two peers to each other.

use vstd::prelude::*;
use crate::addr::PeerAddr;
use crate::seq_facts::lemma_push_contains;

verus! {

/// How long, in milliseconds, a pairing may wait for its second peer after
/// the first registered; past that the buffer is cleared.
pub const PAIRING_TIMEOUT_MS: u64 = 15_000;

/// How often, in milliseconds, the server checks whether a pairing expired.
pub const EXPIRY_CHECK_MS: u64 = 5_000;

/// A request datagram of a client to the UDP rendezvous server.
#[derive(Clone, Copy, Debug, PartialEq, Eq, Structural)]
pub enum Request {
    /// Register the sender's address.
    Ping,
    /// Send again the addresses of the other registered peers.
    Get,
}

/// The text of each request.
pub open spec fn request_text(r: Request) -> Seq<u8> {
    match r {
        Request::Ping => seq![112u8, 105u8, 110u8, 103u8],
        Request::Get => seq![103u8, 101u8, 116u8],
    }
}

impl Request {
    /// The datagram that carries this request.
    pub fn to_bytes(&self) -> (r: Vec<u8>)
        ensures
            r@ == request_text(*self),
    {
        match self {
            Request::Ping => {
                let v: Vec<u8> = vec![112u8, 105u8, 110u8, 103u8];
                assert(v@ =~= request_text(*self));
                v
            },
            Request::Get => {
                let v: Vec<u8> = vec![103u8, 101u8, 116u8];
                assert(v@ =~= request_text(*self));
                v
            },
        }
    }

    /// Reads a datagram as a request; anything but the exact text of one is
    /// no request.
    pub fn parse(b: &[u8]) -> (r: Option<Request>)
        ensures
            r == Some(Request::Ping) <==> b@ == request_text(Request::Ping),
            r == Some(Request::Get) <==> b@ == request_text(Request::Get),
            r is None <==> (b@ != request_text(Request::Ping) && b@ != request_text(Request::Get)),
    {
        if b.len() == 4 && b[0] == 112u8 && b[1] == 105u8 && b[2] == 110u8 && b[3] == 103u8 {
            assert(b@ =~= request_text(Request::Ping));
            Some(Request::Ping)
        } else if b.len() == 3 && b[0] == 103u8 && b[1] == 101u8 && b[2] == 116u8 {
            assert(b@ =~= request_text(Request::Get));
            Some(Request::Get)
        } else {
            proof {
                if b@ == request_text(Request::Ping) {
                    assert(b@[0] == 112u8 && b@[1] == 105u8 && b@[2] == 110u8 && b@[3] == 103u8);
                }
                if b@ == request_text(Request::Get) {
                    assert(b@[0] == 103u8 && b@[1] == 101u8 && b@[2] == 116u8);
                }
            }
            None
        }
    }
}

/// A datagram to send: the address `peer`, as text, to `to`.
#[derive(Clone, Copy, Debug, PartialEq, Eq, Structural)]
pub struct Delivery {
    pub to: PeerAddr,
    pub peer: PeerAddr,
}

/// The buffer after a ping from `a`: a new address joins while there is room.
pub open spec fn pinged(peers: Seq<PeerAddr>, a: PeerAddr) -> Seq<PeerAddr> {
    if peers.contains(a) || peers.len() >= 2 {
        peers
    } else {
        peers.push(a)
    }
}

/// What a ping from `a` sends: when it completes a pair, each of the two
/// learns the other's address; otherwise nothing.
pub open spec fn ping_deliveries(peers: Seq<PeerAddr>, a: PeerAddr) -> Seq<Delivery> {
    if peers.len() == 1 && peers[0] != a {
        seq![Delivery { to: peers[0], peer: a }, Delivery { to: a, peer: peers[0] }]
    } else {
        Seq::empty()
    }
}

/// The time of the first registration after a ping at `now`.
pub open spec fn pinged_since(peers: Seq<PeerAddr>, since: Option<u64>, now: u64) -> Option<u64> {
    if peers.len() == 0 {
        Some(now)
    } else {
        since
    }
}

/// What a `get` from `from` sends: the address of every other registered
/// peer, to `from`, in the buffer's order.
pub open spec fn get_deliveries(peers: Seq<PeerAddr>, from: PeerAddr) -> Seq<Delivery>
    decreases peers.len(),
{
    if peers.len() == 0 {
        Seq::empty()
    } else {
        let rest = get_deliveries(peers.drop_last(), from);
        if peers.last() == from {
            rest
        } else {
            rest.push(Delivery { to: from, peer: peers.last() })
        }
    }
}

/// Whether a pairing that began at `since` has expired at `now`: more than
/// the timeout has gone by.
pub open spec fn expired(since: Option<u64>, now: u64) -> bool {
    match since {
        Some(t) => now > t && now - t > PAIRING_TIMEOUT_MS,
        None => false,
    }
}

/// The pairing buffer of the UDP rendezvous server: up to two distinct peer
/// addresses, in the order they registered, and the time the first came.
pub struct PairingBuffer {
    peers: Vec<PeerAddr>,
    since: Option<u64>,
}

impl PairingBuffer {
    /// The registered addresses, in order.
    pub closed spec fn peers(&self) -> Seq<PeerAddr> {
        self.peers@
    }

    /// When the first of them registered, in milliseconds.
    pub closed spec fn since(&self) -> Option<u64> {
        self.since
    }

    /// At most two addresses, all distinct, and a start time exactly while
    /// some address waits.
    pub closed spec fn wf(&self) -> bool {
        &&& self.peers@.len() <= 2
        &&& (self.peers@.len() == 2 ==> self.peers@[0] != self.peers@[1])
        &&& (self.since is Some <==> self.peers@.len() > 0)
    }

    pub fn new() -> (r: PairingBuffer)
        ensures
            r.wf(),
            r.peers() == Seq::<PeerAddr>::empty(),
            r.since() is None,
    {
        PairingBuffer { peers: Vec::new(), since: None }
    }

    pub fn len(&self) -> (r: usize)
        ensures
            r == self.peers().len(),
    {
        self.peers.len()
    }

    /// A `ping` from `a` at time `now`: registers `a` unless it is already
    /// there or the buffer is full, and when that completes a pair returns the
    /// exchange of the two addresses.
    pub fn ping(&mut self, a: PeerAddr, now: u64) -> (r: Vec<Delivery>)
        requires
            old(self).wf(),
        ensures
            final(self).wf(),
            final(self).peers() == pinged(old(self).peers(), a),
            final(self).since() == pinged_since(old(self).peers(), old(self).since(), now),
            r@ == ping_deliveries(old(self).peers(), a),
    {
        let mut known = false;
        let mut i: usize = 0;
        while i < self.peers.len()
            invariant
                self.peers@ == old(self).peers@,
                self.since == old(self).since,
                i <= self.peers@.len(),
                known == self.peers@.subrange(0, i as int).contains(a),
            decreases self.peers@.len() - i,
        {
            proof {
                let s = self.peers@.subrange(0, i as int + 1);
                assert(s =~= self.peers@.subrange(0, i as int).push(self.peers@[i as int]));
                lemma_push_contains(self.peers@.subrange(0, i as int), self.peers@[i as int], a);
            }
            if self.peers[i] == a {
                known = true;
            }
            i = i + 1;
        }
        proof {
            assert(self.peers@.subrange(0, self.peers@.len() as int) =~= self.peers@);
        }
        let mut out: Vec<Delivery> = Vec::new();
        if !known && self.peers.len() < 2 {
            if self.peers.len() == 0 {
                self.since = Some(now);
            } else {
                let first = self.peers[0];
                out.push(Delivery { to: first, peer: a });
                out.push(Delivery { to: a, peer: first });
                proof {
                    assert(first != a) by {
                        assert(!old(self).peers@.contains(a));
                        assert(old(self).peers@[0] == first);
                    }
                }
            }
            self.peers.push(a);
        }
        proof {
            assert(out@ =~= ping_deliveries(old(self).peers(), a));
        }
        out
    }

    /// A `get` from `from`: the address of every other registered peer goes
    /// to `from` again.
    pub fn get(&self, from: PeerAddr) -> (r: Vec<Delivery>)
        ensures
            r@ == get_deliveries(self.peers(), from),
    {
        let mut out: Vec<Delivery> = Vec::new();
        let n = self.peers.len();
        let mut i: usize = 0;
        while i < n
            invariant
                n == self.peers@.len(),
                i <= n,
                out@ == get_deliveries(self.peers@.subrange(0, i as int), from),
            decreases n - i,
        {
            let p = self.peers[i];
            proof {
                let s = self.peers@.subrange(0, i as int + 1);
                assert(s.drop_last() =~= self.peers@.subrange(0, i as int));
            }
            if p != from {
                out.push(Delivery { to: from, peer: p });
            }
            i = i + 1;
        }
        proof {
            assert(self.peers@.subrange(0, n as int) =~= self.peers@);
        }
        out
    }

    /// The periodic check at time `now`: a pairing that waited longer than
    /// the timeout is dropped and the slot is free again.
    pub fn expire(&mut self, now: u64)
        requires
            old(self).wf(),
        ensures
            final(self).wf(),
            expired(old(self).since(), now) ==> final(self).peers() == Seq::<PeerAddr>::empty()
                && final(self).since() is None,
            !expired(old(self).since(), now) ==> final(self).peers() == old(self).peers()
                && final(self).since() == old(self).since(),
    {
        if let Some(t) = self.since {
            if now > t && now - t > PAIRING_TIMEOUT_MS {
                self.peers.clear();
                self.since = None;
            }
        }
    }

    /// One request datagram from `from` at time `now`: a ping or a get as
    /// above; anything else is ignored.
    pub fn handle(&mut self, datagram: &[u8], from: PeerAddr, now: u64) -> (r: Vec<Delivery>)
        requires
            old(self).wf(),
        ensures
            final(self).wf(),
            datagram@ == request_text(Request::Ping) ==> final(self).peers() == pinged(old(self).peers(), from)
                && final(self).since() == pinged_since(old(self).peers(), old(self).since(), now)
                && r@ == ping_deliveries(old(self).peers(), from),
            datagram@ != request_text(Request::Ping) ==> final(self).peers() == old(self).peers()
                && final(self).since() == old(self).since(),
            datagram@ == request_text(Request::Get) ==> r@ == get_deliveries(old(self).peers(), from),
            datagram@ != request_text(Request::Ping) && datagram@ != request_text(Request::Get) ==> r@.len() == 0,
    {
        match Request::parse(datagram) {
            Some(Request::Ping) => self.ping(from, now),
            Some(Request::Get) => self.get(from),
            None => Vec::new(),
        }
    }
}

/// Pinging twice from one address registers it once: the repetition leaves
/// the buffer as the first ping left it and sends nothing. Two distinct
/// addresses fill an empty buffer, and the second ping sends exactly one
/// exchange, each address to the other peer.
pub proof fn lemma_pairing_dedup(peers: Seq<PeerAddr>, a: PeerAddr, b: PeerAddr)
    requires
        peers.len() <= 2,
    ensures
        pinged(pinged(peers, a), a) == pinged(peers, a),
        ping_deliveries(pinged(peers, a), a).len() == 0,
        pinged(pinged(Seq::empty(), a), a).len() == 1,
        ping_deliveries(Seq::empty(), a).len() == 0,
        a != b ==> pinged(pinged(Seq::empty(), a), b) == seq![a, b],
        a != b ==> ping_deliveries(pinged(Seq::empty(), a), b)
            == seq![Delivery { to: a, peer: b }, Delivery { to: b, peer: a }],
{
    let p1 = pinged(peers, a);
    if !peers.contains(a) && peers.len() < 2 {
        lemma_push_contains(peers, a, a);
        if peers.len() == 0 {
            assert(p1[0] == a);
        }
    }
    let one = pinged(Seq::<PeerAddr>::empty(), a);
    assert(!Seq::<PeerAddr>::empty().contains(a));
    assert(one =~= seq![a]);
    assert(one.contains(a)) by {
        assert(one[0] == a);
    }
    if a != b {
        assert(!one.contains(b));
        assert(pinged(one, b) =~= seq![a, b]);
    }
}

/// A lone registration is dropped once more than the timeout has gone by
/// without a second peer; a ping after that starts a new pairing, as its
/// first address, and is not paired with the expired one.
pub proof fn lemma_pairing_expiry(a: PeerAddr, c: PeerAddr, t: u64, now: u64, later: u64)
    requires
        now > t,
        now - t > PAIRING_TIMEOUT_MS,
    ensures
        expired(pinged_since(Seq::empty(), None, t), now),
        pinged(Seq::empty(), c) == seq![c],
        ping_deliveries(Seq::empty(), c).len() == 0,
        pinged_since(Seq::empty(), None, later) == Some(later),
{
    assert(!Seq::<PeerAddr>::empty().contains(c));
    assert(pinged(Seq::<PeerAddr>::empty(), c) =~= seq![c]);
}

/// After two peers are paired, a `get` from either one sends it the same
/// address that the exchange sent it.
pub proof fn lemma_get_after_pairing(a: PeerAddr, b: PeerAddr)
    requires
        a != b,
    ensures
        get_deliveries(seq![a, b], a) == seq![ping_deliveries(seq![a], b)[0]],
        get_deliveries(seq![a, b], b) == seq![ping_deliveries(seq![a], b)[1]],
{
    let s = seq![a, b];
    let e = Seq::<PeerAddr>::empty();
    assert(s.drop_last() =~= seq![a]);
    assert(seq![a].drop_last() =~= e);
    assert(get_deliveries(e, a) == Seq::<Delivery>::empty());
    assert(get_deliveries(e, b) == Seq::<Delivery>::empty());
    assert(get_deliveries(seq![a], a) == Seq::<Delivery>::empty());
    assert(get_deliveries(seq![a], b) =~= seq![Delivery { to: b, peer: a }]);
    assert(get_deliveries(s, a) =~= seq![Delivery { to: a, peer: b }]);
    assert(get_deliveries(s, b) =~= seq![Delivery { to: b, peer: a }]);
}

} // verus!
