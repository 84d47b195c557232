//! Replication channel semantics: the closed set of messages exchanged
//! between host and clients, and their deterministic wire encoding.
//!
//! Two logical message classes travel on two independent reliable, ordered
//! streams: host-to-client facts ("symbol S occupies cell C", "player P
//! holds symbol S"), applied by clients verbatim and in the host's order,
//! and client-to-host pick requests, which only the host evaluates.

use vstd::bytes::{
    lemma_auto_spec_u64_to_from_le_bytes, spec_u64_from_le_bytes, spec_u64_to_le_bytes,
    u64_from_le_bytes, u64_to_le_bytes,
};
use vstd::prelude::*;
use vstd::slice::slice_subrange;

use crate::symbol::Symbol;

verus! {

/// Fixed protocol identifier exchanged during the transport handshake.
pub const PROTOCOL_ID: u64 = 0;

/// Fixed application port the game transport listens on.
pub const PORT: u16 = 5000;

/// A connection is accepted only when the peer presents the fixed
/// protocol identifier.
pub fn handshake_accepts(offered: u64) -> (r: bool)
    ensures
        r <==> offered == PROTOCOL_ID,
{
    offered == PROTOCOL_ID
}

/// A state-changing fact the authoritative host replicates to clients,
/// which apply it verbatim, never re-derive it.
#[derive(Clone, Copy, Debug, PartialEq, Eq, Structural)]
pub enum Fact {
    /// The cell at `index` is now bound to `symbol`.
    CellOccupied { index: u64, symbol: Symbol },
    /// The player with connection identifier `client_id` holds `symbol`.
    PlayerJoined { client_id: u64, symbol: Symbol },
}

/// A client-submitted request to occupy the cell at this grid index.
/// The host is the sole evaluator of such requests: a claim sent over the
/// network is untrusted input and is re-validated there.
#[derive(Clone, Copy, Debug, PartialEq, Eq, Structural)]
pub struct CellPick(pub usize);

impl CellPick {
    pub fn new(index: usize) -> (r: Self)
        ensures
            r.0 == index,
    {
        CellPick(index)
    }

    pub fn index(&self) -> (r: usize)
        ensures
            r == self.0,
    {
        self.0
    }
}

/// Wire tag of a cell-occupied fact.
pub const TAG_CELL_OCCUPIED: u8 = 1;

/// Wire tag of a player-joined fact.
pub const TAG_PLAYER_JOINED: u8 = 2;

/// Wire tag of a pick request.
pub const TAG_PICK: u8 = 3;

/// Encoded size of every message of the protocol: a tag byte, an eight
/// byte little-endian integer, and a symbol byte where one is carried.
pub const FACT_WIRE_SIZE: usize = 10;

/// Encoded size of a pick request.
pub const PICK_WIRE_SIZE: usize = 9;

/// The byte a symbol is encoded as.
pub open spec fn symbol_byte(s: Symbol) -> u8 {
    match s {
        Symbol::Cross => 0,
        Symbol::Nought => 1,
    }
}

/// The encoding of a fact: its tag, its integer field in little-endian
/// order, then its symbol byte.
pub open spec fn spec_encode_fact(f: Fact) -> Seq<u8> {
    match f {
        Fact::CellOccupied { index, symbol } => seq![TAG_CELL_OCCUPIED] + spec_u64_to_le_bytes(
            index,
        ) + seq![symbol_byte(symbol)],
        Fact::PlayerJoined { client_id, symbol } => seq![TAG_PLAYER_JOINED] + spec_u64_to_le_bytes(
            client_id,
        ) + seq![symbol_byte(symbol)],
    }
}

/// The encoding of a pick request: its tag, then the cell index in
/// little-endian order.
pub open spec fn spec_encode_pick(p: CellPick) -> Seq<u8> {
    seq![TAG_PICK] + spec_u64_to_le_bytes(p.0 as u64)
}

fn symbol_to_byte(s: Symbol) -> (r: u8)
    ensures
        r == symbol_byte(s),
{
    match s {
        Symbol::Cross => 0,
        Symbol::Nought => 1,
    }
}

fn symbol_from_byte(b: u8) -> (r: Option<Symbol>)
    ensures
        b == 0 ==> r == Some(Symbol::Cross),
        b == 1 ==> r == Some(Symbol::Nought),
        b > 1 ==> r is None,
        r matches Some(s) ==> symbol_byte(s) == b,
{
    if b == 0 {
        Some(Symbol::Cross)
    } else if b == 1 {
        Some(Symbol::Nought)
    } else {
        None
    }
}

/// Serializes a fact for the replication stream.
pub fn encode_fact(f: &Fact) -> (r: Vec<u8>)
    ensures
        r@ == spec_encode_fact(*f),
        r@.len() == FACT_WIRE_SIZE,
{
    proof {
        lemma_auto_spec_u64_to_from_le_bytes();
    }
    let (tag, value, symbol) = match f {
        Fact::CellOccupied { index, symbol } => (TAG_CELL_OCCUPIED, *index, *symbol),
        Fact::PlayerJoined { client_id, symbol } => (TAG_PLAYER_JOINED, *client_id, *symbol),
    };
    let mut r: Vec<u8> = Vec::new();
    r.push(tag);
    let mut value_bytes = u64_to_le_bytes(value);
    r.append(&mut value_bytes);
    r.push(symbol_to_byte(symbol));
    proof {
        assert(r@ =~= spec_encode_fact(*f));
    }
    r
}

/// Deserializes one fact from exactly one encoded message. Returns the
/// fact whose encoding `bytes` is, and nothing on any other input: the
/// encoding is canonical.
pub fn decode_fact(bytes: &[u8]) -> (r: Option<Fact>)
    ensures
        r matches Some(f) ==> bytes@ == spec_encode_fact(f),
        forall|f: Fact| bytes@ == spec_encode_fact(f) ==> r == Some(f),
{
    proof {
        lemma_auto_spec_u64_to_from_le_bytes();
    }
    if bytes.len() != FACT_WIRE_SIZE {
        return None;
    }
    let tag = bytes[0];
    if tag != TAG_CELL_OCCUPIED && tag != TAG_PLAYER_JOINED {
        return None;
    }
    let value_bytes = slice_subrange(bytes, 1, 9);
    let value = u64_from_le_bytes(value_bytes);
    let symbol = match symbol_from_byte(bytes[9]) {
        Some(s) => s,
        None => {
            return None;
        },
    };
    let f = if tag == TAG_CELL_OCCUPIED {
        Fact::CellOccupied { index: value, symbol }
    } else {
        Fact::PlayerJoined { client_id: value, symbol }
    };
    proof {
        assert(bytes@ =~= spec_encode_fact(f));
        assert forall|f2: Fact| bytes@ == spec_encode_fact(f2) implies f2 == f by {
            lemma_encode_fact_injective(f, f2);
        }
    }
    Some(f)
}

/// Serializes a pick request for the client-to-host request stream.
pub fn encode_pick(p: &CellPick) -> (r: Vec<u8>)
    ensures
        r@ == spec_encode_pick(*p),
        r@.len() == PICK_WIRE_SIZE,
{
    proof {
        lemma_auto_spec_u64_to_from_le_bytes();
    }
    let mut r: Vec<u8> = Vec::new();
    r.push(TAG_PICK);
    let mut value_bytes = u64_to_le_bytes(p.0 as u64);
    r.append(&mut value_bytes);
    proof {
        assert(r@ =~= spec_encode_pick(*p));
    }
    r
}

/// Deserializes one pick request from exactly one encoded message.
/// An index too large for this platform's `usize` is malformed input and
/// yields nothing, as does any other byte string that is not a pick
/// request's canonical encoding.
pub fn decode_pick(bytes: &[u8]) -> (r: Option<CellPick>)
    ensures
        r matches Some(p) ==> bytes@ == spec_encode_pick(p),
        forall|p: CellPick| bytes@ == spec_encode_pick(p) ==> r == Some(p),
{
    proof {
        lemma_auto_spec_u64_to_from_le_bytes();
    }
    if bytes.len() != PICK_WIRE_SIZE {
        return None;
    }
    if bytes[0] != TAG_PICK {
        return None;
    }
    let value_bytes = slice_subrange(bytes, 1, 9);
    let value = u64_from_le_bytes(value_bytes);
    proof {
        assert forall|p: CellPick| bytes@ == spec_encode_pick(p) implies value == p.0 as u64 by {
            assert(bytes@.subrange(1, 9) =~= spec_u64_to_le_bytes(p.0 as u64));
        }
    }
    if value > usize::MAX as u64 {
        return None;
    }
    let p = CellPick(value as usize);
    proof {
        assert(bytes@ =~= spec_encode_pick(p));
        assert forall|p2: CellPick| bytes@ == spec_encode_pick(p2) implies p2 == p by {
            assert(p2.0 as u64 == value);
        }
    }
    Some(p)
}

/// The fact encoding is injective: equal encodings come from equal facts.
pub proof fn lemma_encode_fact_injective(f1: Fact, f2: Fact)
    requires
        spec_encode_fact(f1) == spec_encode_fact(f2),
    ensures
        f1 == f2,
{
    lemma_auto_spec_u64_to_from_le_bytes();
    let b1 = spec_encode_fact(f1);
    let b2 = spec_encode_fact(f2);
    assert(b1[0] == b2[0]);
    assert(b1[9] == b2[9]);
    assert(b1.subrange(1, 9) =~= b2.subrange(1, 9));
    lemma_fact_value_round_trip(f1);
    lemma_fact_value_round_trip(f2);
}

proof fn lemma_fact_value_round_trip(f: Fact)
    ensures
        spec_encode_fact(f).len() == FACT_WIRE_SIZE,
        spec_u64_from_le_bytes(spec_encode_fact(f).subrange(1, 9)) == fact_value(f),
        spec_encode_fact(f)[9] == symbol_byte(fact_symbol(f)),
        spec_encode_fact(f)[0] == fact_tag(f),
{
    lemma_auto_spec_u64_to_from_le_bytes();
    assert(spec_encode_fact(f).subrange(1, 9) =~= spec_u64_to_le_bytes(fact_value(f)));
}

/// The integer field a fact carries.
pub open spec fn fact_value(f: Fact) -> u64 {
    match f {
        Fact::CellOccupied { index, .. } => index,
        Fact::PlayerJoined { client_id, .. } => client_id,
    }
}

/// The symbol a fact carries.
pub open spec fn fact_symbol(f: Fact) -> Symbol {
    match f {
        Fact::CellOccupied { symbol, .. } => symbol,
        Fact::PlayerJoined { symbol, .. } => symbol,
    }
}

/// The tag a fact is encoded under.
pub open spec fn fact_tag(f: Fact) -> u8 {
    match f {
        Fact::CellOccupied { .. } => TAG_CELL_OCCUPIED,
        Fact::PlayerJoined { .. } => TAG_PLAYER_JOINED,
    }
}

} // verus!
