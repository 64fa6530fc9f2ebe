//! The address resolver: bounds-checked lookup of a raw address in the
//! account-key table, canonical display encoding, and classification against
//! the three known aggregator program identifiers.

use vstd::prelude::*;
use crate::b58::{base58_of, base58_encode};

verus! {

/// The three mutually incompatible versions of the aggregator protocol.
#[derive(Clone, Copy, PartialEq, Eq, Structural, Debug)]
pub enum ProtocolVersion {
    V3,
    V4,
    V6,
}

pub open spec fn spec_v3_id() -> Seq<char> {
    "JUP3c2Uh3WA4Ng34tw6kPd2G4C5BB21Xo36Je1s32Ph"@
}

pub open spec fn spec_v4_id() -> Seq<char> {
    "JUP4Fb2cqiRUcaTHdrPC8h2gNsA2ETXiPDD33WcGuJB"@
}

pub open spec fn spec_v6_id() -> Seq<char> {
    "JUP6LkbZbjS1jKKwapdHNy74zcZ3tLUZoi5QNyVTaV4"@
}

/// The identifier of the token program whose transfers the trace correlator
/// recognizes.
pub open spec fn spec_token_program_id() -> Seq<char> {
    "TokenkegQfeZyiNwAJbNbGKPFXCWuBvf9Ss623VQ5DA"@
}

/// Which protocol version, if any, a display-encoded address names.
pub open spec fn spec_classify(addr: Seq<char>) -> Option<ProtocolVersion> {
    if addr == spec_v3_id() {
        Some(ProtocolVersion::V3)
    } else if addr == spec_v4_id() {
        Some(ProtocolVersion::V4)
    } else if addr == spec_v6_id() {
        Some(ProtocolVersion::V6)
    } else {
        None
    }
}

/// Which protocol version, if any, a raw address belongs to.
pub open spec fn spec_version_of_key(key: Seq<u8>) -> Option<ProtocolVersion> {
    spec_classify(base58_of(key))
}

/// Whether a raw address is the token program's.
pub open spec fn spec_is_token_program_key(key: Seq<u8>) -> bool {
    base58_of(key) == spec_token_program_id()
}

/// Classifies a display-encoded address against the three known protocol
/// identifiers.
pub fn is_target_protocol(addr: &String) -> (r: Option<ProtocolVersion>)
    ensures
        r == spec_classify(addr@),
{
    let v3: String = "JUP3c2Uh3WA4Ng34tw6kPd2G4C5BB21Xo36Je1s32Ph".to_owned();
    if *addr == v3 {
        return Some(ProtocolVersion::V3);
    }
    let v4: String = "JUP4Fb2cqiRUcaTHdrPC8h2gNsA2ETXiPDD33WcGuJB".to_owned();
    if *addr == v4 {
        return Some(ProtocolVersion::V4);
    }
    let v6: String = "JUP6LkbZbjS1jKKwapdHNy74zcZ3tLUZoi5QNyVTaV4".to_owned();
    if *addr == v6 {
        return Some(ProtocolVersion::V6);
    }
    None
}

/// Bounds-checked lookup of the address at `index` in the account-key table,
/// rendered in its canonical display encoding. An out-of-range index is a
/// local decode failure, never a panic.
pub fn resolve(account_keys: &Vec<Vec<u8>>, index: usize) -> (r: Option<String>)
    ensures
        match r {
            Some(s) => index < account_keys@.len() && s@ == base58_of(
                account_keys@[index as int]@,
            ),
            None => index >= account_keys@.len(),
        },
{
    if index < account_keys.len() {
        Some(base58_encode(&account_keys[index]))
    } else {
        None
    }
}

/// Which protocol version, if any, the account-table entry at `index` names.
/// `None` covers both an out-of-range index and an address that is not one of
/// the three known identifiers.
pub fn version_at(account_keys: &Vec<Vec<u8>>, index: usize) -> (r: Option<ProtocolVersion>)
    ensures
        r == (if index < account_keys@.len() {
            spec_version_of_key(account_keys@[index as int]@)
        } else {
            Option::<ProtocolVersion>::None
        }),
{
    match resolve(account_keys, index) {
        Some(addr) => is_target_protocol(&addr),
        None => None,
    }
}

/// Whether the account-table entry at `index` is the token program.
pub fn is_token_program_at(account_keys: &Vec<Vec<u8>>, index: usize) -> (r: bool)
    ensures
        r == (index < account_keys@.len() && spec_is_token_program_key(
            account_keys@[index as int]@,
        )),
{
    match resolve(account_keys, index) {
        Some(addr) => {
            let tok: String = "TokenkegQfeZyiNwAJbNbGKPFXCWuBvf9Ss623VQ5DA".to_owned();
            addr == tok
        },
        None => false,
    }
}

} // verus!
