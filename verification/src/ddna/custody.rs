//! Chain of custody: the signed record of every node that handled a datum.

use vstd::prelude::*;
use crate::bytes::{le_i64, push_all, push_le_i64};
use crate::clock::now_micros;
use super::DdnaError;
use super::crypto::{ed25519_accepts, ed25519_public_key, ed25519_signature};
use super::identity::KeyPair;

verus! {

/// What a node did with the datum.
#[derive(Debug, Clone, Copy, PartialEq, Eq, Structural)]
pub enum CustodyAction {
    /// Created by this node.
    Created,
    /// Received from another node.
    Received,
    /// Validated by this node.
    Validated,
    /// Forwarded to another node.
    Forwarded,
}

/// One-byte code of an action in the signed custody message.
pub open spec fn action_code(a: CustodyAction) -> u8 {
    match a {
        CustodyAction::Created => 0,
        CustodyAction::Received => 1,
        CustodyAction::Validated => 2,
        CustodyAction::Forwarded => 3,
    }
}

/// One entry of the chain of custody.
#[derive(Debug, Clone, Copy)]
pub struct CustodyEntry {
    /// Node id (its public key).
    pub node_id: [u8; 32],
    /// Time of the action in microseconds.
    pub timestamp_us: i64,
    /// The action.
    pub action: CustodyAction,
    /// The node's signature of the entry.
    pub signature: [u8; 64],
}

/// The message a node signs for an entry: node id, little-endian timestamp, action code.
pub open spec fn custody_message(node_id: Seq<u8>, timestamp_us: i64, action: CustodyAction) -> Seq<u8> {
    node_id + le_i64(timestamp_us) + seq![action_code(action)]
}

/// `e` is the entry that the holder of `secret` makes for `node_id`, `action` at `timestamp_us`.
pub open spec fn is_entry_for(
    e: CustodyEntry,
    node_id: Seq<u8>,
    action: CustodyAction,
    secret: Seq<u8>,
    timestamp_us: i64,
) -> bool {
    &&& e.node_id@ == node_id
    &&& e.timestamp_us == timestamp_us
    &&& e.action == action
    &&& e.signature@ == ed25519_signature(secret, custody_message(node_id, timestamp_us, action))
    &&& ed25519_accepts(ed25519_public_key(secret), custody_message(node_id, timestamp_us, action), e.signature@)
}

impl CustodyEntry {
    /// The entry made at time `timestamp_us`.
    pub fn new_at(
        node_id: &[u8; 32],
        action: CustodyAction,
        keypair: &KeyPair,
        timestamp_us: i64,
    ) -> (r: Result<CustodyEntry, DdnaError>)
        ensures
            r matches Ok(e) && is_entry_for(e, node_id@, action, keypair@, timestamp_us),
    {
        let mut message: Vec<u8> = Vec::new();
        push_all(&mut message, node_id);
        push_le_i64(&mut message, timestamp_us);
        let code: u8 = match action {
            CustodyAction::Created => 0,
            CustodyAction::Received => 1,
            CustodyAction::Validated => 2,
            CustodyAction::Forwarded => 3,
        };
        message.push(code);
        assert(message@ =~= custody_message(node_id@, timestamp_us, action));
        let signature = keypair.sign(message.as_slice());
        Ok(CustodyEntry { node_id: *node_id, timestamp_us, action, signature })
    }

    /// A new entry stamped with the system clock.
    pub fn new(node_id: &[u8; 32], action: CustodyAction, keypair: &KeyPair) -> (r: Result<CustodyEntry, DdnaError>)
        ensures
            r matches Ok(e) && is_entry_for(e, node_id@, action, keypair@, e.timestamp_us),
    {
        Self::new_at(node_id, action, keypair, now_micros())
    }

    /// The creation entry (first of a chain), stamped with the system clock.
    pub fn new_creation(node_id: &[u8; 32], keypair: &KeyPair) -> (r: Result<CustodyEntry, DdnaError>)
        ensures
            r matches Ok(e) && is_entry_for(e, node_id@, CustodyAction::Created, keypair@, e.timestamp_us),
    {
        Self::new(node_id, CustodyAction::Created, keypair)
    }
}

/// Timestamps never decrease along the chain.
pub open spec fn timestamps_monotone(chain: Seq<CustodyEntry>) -> bool {
    forall|i: int| 0 <= i < chain.len() - 1 ==> chain[i].timestamp_us <= #[trigger] chain[i + 1].timestamp_us
}

/// A valid chain: not empty, starts with a creation, timestamps never decrease.
pub open spec fn chain_valid(chain: Seq<CustodyEntry>) -> bool {
    &&& chain.len() > 0
    &&& chain[0].action == CustodyAction::Created
    &&& timestamps_monotone(chain)
}

/// Checks a chain of custody.
pub fn verify_chain(chain: &[CustodyEntry]) -> (r: Result<(), DdnaError>)
    ensures
        r is Ok <==> chain_valid(chain@),
        r matches Err(e) ==> e matches DdnaError::InvalidCustody(m) && (if chain@.len() == 0 {
            m@ == "Catena vuota"@
        } else if chain@[0].action != CustodyAction::Created {
            m@ == "Prima entry non è Created"@
        } else {
            m@ == "Timestamp non monotono nella catena"@
        }),
{
    if chain.len() == 0 {
        return Err(DdnaError::InvalidCustody(String::from_str("Catena vuota")));
    }
    if chain[0].action != CustodyAction::Created {
        return Err(DdnaError::InvalidCustody(String::from_str("Prima entry non è Created")));
    }
    let n = chain.len();
    let mut i: usize = 0;
    while i < n - 1
        invariant
            n == chain@.len(),
            chain@.len() > 0,
            chain@[0].action == CustodyAction::Created,
            i < chain@.len(),
            forall|j: int| 0 <= j < i ==> chain@[j].timestamp_us <= #[trigger] chain@[j + 1].timestamp_us,
        decreases chain@.len() - i,
    {
        if chain[i + 1].timestamp_us < chain[i].timestamp_us {
            return Err(DdnaError::InvalidCustody(String::from_str("Timestamp non monotono nella catena")));
        }
        i = i + 1;
    }
    Ok(())
}

} // verus!
