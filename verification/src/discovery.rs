//! Discovery protocol semantics: how a client locates a host on the local
//! network before connecting.
//!
//! The wire exchange is a best-effort UDP broadcast: the requester sends a
//! fixed ASCII request token to the subnet broadcast address on the
//! well-known discovery port; a responder bound on that port answers any
//! datagram starting with the request token with the fixed response token
//! and ignores everything else. A discovered address is a hint for the
//! user-driven connect step, not a trusted capability: there is no retry
//! tracking, no sequence number and no authentication.

use vstd::prelude::*;

verus! {

/// The well-known UDP port the discovery responder listens on, distinct
/// from the game's data port.
pub const DISCOVER_PORT: u16 = 53005;

/// Whether the host-side discovery responder is running. It runs while
/// the host waits in its lobby and stops the moment a client connects or
/// the lobby is left.
#[derive(Clone, Copy, Debug, Hash, PartialEq, Eq, Structural)]
pub enum DiscoveryServerState {
    Stopped,
    Running,
}

/// Whether the client-side discovery requester is running. It runs while
/// the player chooses a host to connect to and stops when that phase is
/// left.
#[derive(Clone, Copy, Debug, Hash, PartialEq, Eq, Structural)]
pub enum DiscoveryClientState {
    Stopped,
    Running,
}

/// The ASCII bytes of the request token, `TIC_TAC_TOE_DISCOVER`.
pub open spec fn request_token() -> Seq<u8> {
    seq![
        84u8, 73, 67, 95, 84, 65, 67, 95, 84, 79, 69, 95, 68, 73, 83, 67, 79, 86, 69, 82,
    ]
}

/// The ASCII bytes of the response token, `TIC_TAC_TOE_FOUND`.
pub open spec fn response_token() -> Seq<u8> {
    seq![84u8, 73, 67, 95, 84, 65, 67, 95, 84, 79, 69, 95, 70, 79, 85, 78, 68]
}

/// Whether `payload` starts with the byte sequence `token`.
pub open spec fn starts_with(payload: Seq<u8>, token: Seq<u8>) -> bool {
    payload.len() >= token.len() && payload.subrange(0, token.len() as int) == token
}

/// The request token as a datagram payload, for the requester to
/// broadcast.
pub fn request_payload() -> (r: Vec<u8>)
    ensures
        r@ == request_token(),
{
    let r: Vec<u8> = vec![
        84u8, 73, 67, 95, 84, 65, 67, 95, 84, 79, 69, 95, 68, 73, 83, 67, 79, 86, 69, 82,
    ];
    proof {
        assert(r@ =~= request_token());
    }
    r
}

/// The response token as a datagram payload, for the responder to send
/// back.
pub fn response_payload() -> (r: Vec<u8>)
    ensures
        r@ == response_token(),
{
    let r: Vec<u8> = vec![84u8, 73, 67, 95, 84, 65, 67, 95, 84, 79, 69, 95, 70, 79, 85, 78, 68];
    proof {
        assert(r@ =~= response_token());
    }
    r
}

/// Whether a received datagram is a recognized discovery request.
pub fn is_discovery_request(payload: &[u8]) -> (r: bool)
    ensures
        r == starts_with(payload@, request_token()),
{
    payload_starts_with_request(payload)
}

/// What the responder answers to a received datagram: the response token
/// for a recognized discovery request, nothing for any other payload.
pub fn responder_reply(payload: &[u8]) -> (r: Option<Vec<u8>>)
    ensures
        starts_with(payload@, request_token()) <==> r is Some,
        r matches Some(v) ==> v@ == response_token(),
{
    if payload_starts_with_request(payload) {
        Some(response_payload())
    } else {
        None
    }
}

fn payload_starts_with_request(payload: &[u8]) -> (r: bool)
    ensures
        r == starts_with(payload@, request_token()),
{
    let token = request_payload();
    starts_with_exec(payload, &token)
}

fn starts_with_exec(payload: &[u8], token: &Vec<u8>) -> (r: bool)
    ensures
        r == starts_with(payload@, token@),
{
    if payload.len() < token.len() {
        return false;
    }
    let mut k: usize = 0;
    while k < token.len()
        invariant
            k <= token@.len(),
            payload@.len() >= token@.len(),
            forall|i: int| 0 <= i < k ==> payload@[i] == token@[i],
        decreases token@.len() - k,
    {
        if payload[k] != token[k] {
            proof {
                assert(payload@.subrange(0, token@.len() as int)[k as int] != token@[k as int]);
            }
            return false;
        }
        k = k + 1;
    }
    proof {
        assert(payload@.subrange(0, token@.len() as int) =~= token@);
    }
    true
}

/// A host's address, as the plain values the discovery bookkeeping reads:
/// whether it is a sixteen-byte address, and its bits in network order.
/// The transport layer converts between this and its own address type.
#[derive(Clone, Copy, Debug, Hash, PartialEq, Eq, Structural)]
pub struct HostAddr {
    pub v6: bool,
    pub bits: u128,
}

/// Raised when a responding host's address is recorded for the first
/// time. Duplicate responses from an already-known address raise nothing.
#[derive(Clone, Copy, Debug, PartialEq, Eq, Structural)]
pub struct FoundNewServerEvent {
    pub server: HostAddr,
}

/// The hosts a requester has discovered so far, each recorded at most
/// once however often it responds.
pub struct DiscoverServers {
    servers: Vec<HostAddr>,
}

impl View for DiscoverServers {
    type V = Seq<HostAddr>;

    closed spec fn view(&self) -> Seq<HostAddr> {
        self.servers@
    }
}

impl DiscoverServers {
    /// No address is recorded twice.
    pub open spec fn wf(&self) -> bool {
        forall|i: int, j: int| 0 <= i < j < self@.len() ==> self@[i] != self@[j]
    }

    /// An empty record of discovered hosts.
    pub fn new() -> (r: Self)
        ensures
            r.wf(),
            r@.len() == 0,
    {
        DiscoverServers { servers: Vec::new() }
    }

    /// Whether `addr` has already been recorded.
    pub fn contains(&self, addr: &HostAddr) -> (r: bool)
        ensures
            r == self@.contains(*addr),
    {
        let mut k: usize = 0;
        while k < self.servers.len()
            invariant
                k <= self@.len(),
                forall|i: int| 0 <= i < k ==> self@[i] != *addr,
            decreases self@.len() - k,
        {
            if self.servers[k] == *addr {
                return true;
            }
            k = k + 1;
        }
        false
    }

    /// Records `addr` if it is new. Returns whether it was new; a known
    /// address leaves the record unchanged.
    pub fn add_server(&mut self, addr: HostAddr) -> (added: bool)
        requires
            old(self).wf(),
        ensures
            final(self).wf(),
            added == !old(self)@.contains(addr),
            added ==> final(self)@ == old(self)@.push(addr),
            !added ==> final(self)@ == old(self)@,
            final(self)@.contains(addr),
    {
        if self.contains(&addr) {
            false
        } else {
            let ghost before = self@;
            self.servers.push(addr);
            proof {
                assert(self@.drop_last() =~= before);
                assert(self@[self@.len() - 1] == addr);
            }
            true
        }
    }

    /// The recorded addresses, in discovery order.
    pub fn _servers(&self) -> (r: &Vec<HostAddr>)
        ensures
            r@ == self@,
    {
        &self.servers
    }

    /// What the requester does with a received datagram from `from`: a
    /// datagram starting with the response token, from an address not yet
    /// recorded, records the address and raises the discovered-host
    /// event; a duplicate response or any other payload changes nothing.
    pub fn observe_response(&mut self, payload: &[u8], from: HostAddr) -> (r: Option<
        FoundNewServerEvent,
    >)
        requires
            old(self).wf(),
        ensures
            final(self).wf(),
            r is Some <==> starts_with(payload@, response_token()) && !old(self)@.contains(from),
            r matches Some(e) ==> e.server == from,
            r is Some ==> final(self)@ == old(self)@.push(from),
            r is None ==> final(self)@ == old(self)@,
    {
        let token = response_payload();
        if !starts_with_exec(payload, &token) {
            return None;
        }
        if self.add_server(from) {
            Some(FoundNewServerEvent { server: from })
        } else {
            None
        }
    }
}

} // verus!
