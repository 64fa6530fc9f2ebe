//! The instruction decoder: a closed dispatch over protocol version crossed
//! with opcode, each arm reading a fixed binary layout with bounds checks
//! before every read.
//!
//! A payload is one opcode byte, then the requested input amount and the
//! requested output amount, both little-endian 64-bit. The three protocol
//! versions use pairwise disjoint opcode sets, so a payload shaped for one
//! version never decodes under another.

use vstd::prelude::*;
use crate::bytes::{read_u64_le, spec_le_u64};
use crate::data::InstructionView;
use crate::resolve::ProtocolVersion;

verus! {

/// The recognized instruction kinds of the aggregator protocol.
#[derive(Clone, Copy, PartialEq, Eq, Structural, Debug)]
pub enum SwapKind {
    Route,
    ExactInSwap,
    ExactOutSwap,
    SharedAccountsRoute,
}

/// A version-specific decoded instruction: what was requested, and which
/// accounts (by validated index) the instruction touches. The account at
/// role position 1, when present, is the designated fee account.
pub struct DecodedInstruction {
    pub version: ProtocolVersion,
    pub kind: SwapKind,
    pub in_amount: u64,
    pub out_amount: u64,
    pub accounts: Vec<u32>,
}

/// Mathematical view of a [`DecodedInstruction`].
pub ghost struct DecodedModel {
    pub version: ProtocolVersion,
    pub kind: SwapKind,
    pub in_amount: u64,
    pub out_amount: u64,
    pub accounts: Seq<u32>,
}

impl View for DecodedInstruction {
    type V = DecodedModel;

    open spec fn view(&self) -> DecodedModel {
        DecodedModel {
            version: self.version,
            kind: self.kind,
            in_amount: self.in_amount,
            out_amount: self.out_amount,
            accounts: self.accounts@,
        }
    }
}

/// The outcome of decoding one instruction. `Unrecognized` is an opcode
/// outside the version's known set (not an error: the protocol grows).
/// `Malformed` is an instruction whose bytes are shorter than the layout
/// requires or whose account indices leave the account-key table.
pub enum DecodeOutcome {
    Decoded(DecodedInstruction),
    Unrecognized,
    Malformed,
}

/// Mathematical view of a [`DecodeOutcome`].
pub ghost enum DecodeOutcomeModel {
    Decoded(DecodedModel),
    Unrecognized,
    Malformed,
}

impl View for DecodeOutcome {
    type V = DecodeOutcomeModel;

    open spec fn view(&self) -> DecodeOutcomeModel {
        match self {
            DecodeOutcome::Decoded(d) => DecodeOutcomeModel::Decoded(d@),
            DecodeOutcome::Unrecognized => DecodeOutcomeModel::Unrecognized,
            DecodeOutcome::Malformed => DecodeOutcomeModel::Malformed,
        }
    }
}

/// The instruction kind a given opcode byte names under a given protocol
/// version. The three versions' opcode sets are pairwise disjoint.
pub open spec fn spec_known_opcode(v: ProtocolVersion, op: u8) -> Option<SwapKind> {
    match v {
        ProtocolVersion::V3 => if op == 0x01 {
            Some(SwapKind::ExactInSwap)
        } else if op == 0x02 {
            Some(SwapKind::ExactOutSwap)
        } else if op == 0x03 {
            Some(SwapKind::Route)
        } else {
            None
        },
        ProtocolVersion::V4 => if op == 0x11 {
            Some(SwapKind::Route)
        } else if op == 0x12 {
            Some(SwapKind::ExactInSwap)
        } else if op == 0x13 {
            Some(SwapKind::ExactOutSwap)
        } else if op == 0x14 {
            Some(SwapKind::SharedAccountsRoute)
        } else {
            None
        },
        ProtocolVersion::V6 => if op == 0x21 {
            Some(SwapKind::Route)
        } else if op == 0x22 {
            Some(SwapKind::ExactInSwap)
        } else if op == 0x23 {
            Some(SwapKind::ExactOutSwap)
        } else if op == 0x24 {
            Some(SwapKind::SharedAccountsRoute)
        } else {
            None
        },
    }
}

/// The number of argument bytes every recognized payload must carry: one
/// opcode byte and two little-endian 64-bit amounts.
pub open spec fn spec_payload_len() -> int {
    17
}

/// Whether every account index of the instruction stays inside an
/// account-key table of `nkeys` entries.
pub open spec fn spec_accounts_in_range(accounts: Seq<u32>, nkeys: int) -> bool {
    forall|i: int| 0 <= i < accounts.len() ==> accounts[i] < nkeys
}

/// What decoding an instruction under version `v` yields, against an
/// account-key table of `nkeys` entries.
pub open spec fn spec_decode(v: ProtocolVersion, instr: InstructionView, nkeys: int) -> DecodeOutcomeModel {
    if instr.data@.len() < 1 {
        DecodeOutcomeModel::Malformed
    } else {
        match spec_known_opcode(v, instr.data@[0]) {
            None => DecodeOutcomeModel::Unrecognized,
            Some(kind) => if instr.data@.len() < spec_payload_len() {
                DecodeOutcomeModel::Malformed
            } else if !spec_accounts_in_range(instr.accounts@, nkeys) {
                DecodeOutcomeModel::Malformed
            } else {
                DecodeOutcomeModel::Decoded(
                    DecodedModel {
                        version: v,
                        kind,
                        in_amount: spec_le_u64(instr.data@, 1) as u64,
                        out_amount: spec_le_u64(instr.data@, 9) as u64,
                        accounts: instr.accounts@,
                    },
                )
            },
        }
    }
}

fn known_opcode(v: ProtocolVersion, op: u8) -> (r: Option<SwapKind>)
    ensures
        r == spec_known_opcode(v, op),
{
    match v {
        ProtocolVersion::V3 => {
            if op == 0x01 {
                Some(SwapKind::ExactInSwap)
            } else if op == 0x02 {
                Some(SwapKind::ExactOutSwap)
            } else if op == 0x03 {
                Some(SwapKind::Route)
            } else {
                None
            }
        },
        ProtocolVersion::V4 => {
            if op == 0x11 {
                Some(SwapKind::Route)
            } else if op == 0x12 {
                Some(SwapKind::ExactInSwap)
            } else if op == 0x13 {
                Some(SwapKind::ExactOutSwap)
            } else if op == 0x14 {
                Some(SwapKind::SharedAccountsRoute)
            } else {
                None
            }
        },
        ProtocolVersion::V6 => {
            if op == 0x21 {
                Some(SwapKind::Route)
            } else if op == 0x22 {
                Some(SwapKind::ExactInSwap)
            } else if op == 0x23 {
                Some(SwapKind::ExactOutSwap)
            } else if op == 0x24 {
                Some(SwapKind::SharedAccountsRoute)
            } else {
                None
            }
        },
    }
}

fn accounts_in_range(accounts: &Vec<u32>, nkeys: usize) -> (r: bool)
    ensures
        r == spec_accounts_in_range(accounts@, nkeys as int),
{
    let n = accounts.len();
    let mut i: usize = 0;
    while i < n
        invariant
            n == accounts@.len(),
            i <= n,
            forall|j: int| 0 <= j < i ==> accounts@[j] < nkeys,
        decreases n - i,
    {
        if accounts[i] as usize >= nkeys {
            return false;
        }
        i += 1;
    }
    true
}

/// Decodes one instruction's payload under a known protocol version, against
/// an account-key table of `nkeys` entries. Never fails the transaction: a
/// short payload or a stray account index is reported as `Malformed`, an
/// unknown opcode as `Unrecognized`.
pub fn decode(v: ProtocolVersion, instruction: &InstructionView, nkeys: usize) -> (r: DecodeOutcome)
    ensures
        r@ == spec_decode(v, *instruction, nkeys as int),
{
    if instruction.data.len() < 1 {
        return DecodeOutcome::Malformed;
    }
    let op = instruction.data[0];
    match known_opcode(v, op) {
        None => DecodeOutcome::Unrecognized,
        Some(kind) => {
            if instruction.data.len() < 17 {
                return DecodeOutcome::Malformed;
            }
            if !accounts_in_range(&instruction.accounts, nkeys) {
                return DecodeOutcome::Malformed;
            }
            let in_amount = read_u64_le(&instruction.data, 1);
            let out_amount = read_u64_le(&instruction.data, 9);
            let mut accounts: Vec<u32> = Vec::new();
            let n = instruction.accounts.len();
            let mut i: usize = 0;
            while i < n
                invariant
                    n == instruction.accounts@.len(),
                    i <= n,
                    accounts@ == instruction.accounts@.subrange(0, i as int),
                decreases n - i,
            {
                accounts.push(instruction.accounts[i]);
                proof {
                    assert(accounts@ =~= instruction.accounts@.subrange(0, i + 1));
                }
                i += 1;
            }
            proof {
                assert(accounts@ =~= instruction.accounts@);
            }
            DecodeOutcome::Decoded(
                DecodedInstruction { version: v, kind, in_amount, out_amount, accounts },
            )
        },
    }
}

} // verus!
