//! The UDP traversal client's decisions: probe the rendezvous server until
//! it names the peer, punch towards the peer until anything answers, then pin
//! the socket to whoever answered.

use vstd::prelude::*;
use crate::addr::{punch_target, punch_target_spec, PeerAddr};
use crate::pairing::Request;

verus! {

/// How long, in milliseconds, to wait for the server before asking again.
pub const PROBE_TIMEOUT_MS: u64 = 2_000;

/// How long, in milliseconds, to wait for the peer before punching again.
pub const PUNCH_TIMEOUT_MS: u64 = 200;

/// Where a UDP traversal stands.
#[derive(Clone, Copy, Debug, PartialEq, Eq, Structural)]
pub enum UdpPhase {
    /// Waiting for the server to name the peer.
    Probing,
    /// Sending to the peer's address until a datagram comes back.
    Punching(PeerAddr),
    /// The socket is connected to this peer; the confirmation is awaited.
    Pinned(PeerAddr),
    /// The confirmation came: the channel to this peer stands.
    Established(PeerAddr),
}

/// One UDP traversal towards the peer that the server at `server` names.
pub struct UdpTraversal {
    pub server: PeerAddr,
    pub phase: UdpPhase,
}

impl UdpTraversal {
    /// A traversal that starts by registering with the server.
    pub fn new(server: PeerAddr) -> (r: (UdpTraversal, Request))
        ensures
            r.0.server == server,
            r.0.phase == UdpPhase::Probing,
            r.1 == Request::Ping,
    {
        (UdpTraversal { server, phase: UdpPhase::Probing }, Request::Ping)
    }

    /// The server did not answer in time: ask it to send the peer again.
    pub fn on_probe_timeout(&self) -> (r: Request)
        requires
            self.phase == UdpPhase::Probing,
        ensures
            r == Request::Get,
    {
        Request::Get
    }

    /// The server named the peer: punching starts towards that address,
    /// canonicalized for the family of the server's address, which is
    /// returned.
    pub fn on_peer_address(&mut self, reported: PeerAddr) -> (r: PeerAddr)
        requires
            old(self).phase == UdpPhase::Probing,
        ensures
            r == punch_target_spec(old(self).server, reported),
            final(self).phase == UdpPhase::Punching(r),
            final(self).server == old(self).server,
    {
        let target = punch_target(&self.server, &reported);
        self.phase = UdpPhase::Punching(target);
        target
    }

    /// A punch went unanswered: the address to punch again.
    pub fn on_punch_timeout(&self) -> (r: PeerAddr)
        requires
            self.phase is Punching,
        ensures
            self.phase == UdpPhase::Punching(r),
    {
        match self.phase {
            UdpPhase::Punching(p) => p,
            _ => self.server,
        }
    }

    /// A datagram came from `from` while punching: the hole is open, and the
    /// socket is pinned to `from`, which is returned.
    pub fn on_punch_reply(&mut self, from: PeerAddr) -> (r: PeerAddr)
        requires
            old(self).phase is Punching,
        ensures
            r == from,
            final(self).phase == UdpPhase::Pinned(from),
            final(self).server == old(self).server,
    {
        self.phase = UdpPhase::Pinned(from);
        from
    }

    /// The pinned peer answered the confirmation: the channel stands.
    pub fn on_confirmation(&mut self)
        requires
            old(self).phase is Pinned,
        ensures
            final(self).phase == UdpPhase::Established(old(self).phase->Pinned_0),
            final(self).server == old(self).server,
    {
        if let UdpPhase::Pinned(p) = self.phase {
            self.phase = UdpPhase::Established(p);
        }
    }
}

} // verus!
