//! The execution-trace correlator: walks the inner instructions attributed
//! to an outer instruction and extracts, in execution order, the token
//! transfers they record.
//!
//! A transfer is an inner instruction of the token program carrying its
//! checked-transfer opcode: one opcode byte `12`, a little-endian 64-bit
//! amount, and a decimals byte, over the accounts source, mint, destination,
//! authority (in that order).

use vstd::prelude::*;
use crate::bytes::{copy_bytes, read_u64_le, spec_le_u64};
use crate::data::{InnerInstruction, InnerInstructionGroup, TokenTransfer, TransferModel};
use crate::resolve::{is_token_program_at, spec_is_token_program_key};

verus! {

/// The token program's checked-transfer opcode.
pub open spec fn spec_transfer_opcode() -> u8 {
    12
}

/// The argument bytes a checked transfer carries: opcode, amount, decimals.
pub open spec fn spec_transfer_payload_len() -> int {
    10
}

/// Whether an inner instruction is a well-formed token transfer against the
/// given account-key table.
pub open spec fn spec_is_transfer(inner: InnerInstruction, keys: Seq<Vec<u8>>) -> bool {
    &&& inner.program_id_index < keys.len()
    &&& spec_is_token_program_key(keys[inner.program_id_index as int]@)
    &&& inner.data@.len() >= spec_transfer_payload_len()
    &&& inner.data@[0] == spec_transfer_opcode()
    &&& inner.accounts@.len() >= 4
    &&& inner.accounts@[0] < keys.len()
    &&& inner.accounts@[1] < keys.len()
    &&& inner.accounts@[2] < keys.len()
    &&& inner.accounts@[3] < keys.len()
}

/// The transfer a well-formed token-transfer inner instruction records.
pub open spec fn spec_transfer_of(inner: InnerInstruction, keys: Seq<Vec<u8>>) -> TransferModel
    recommends
        spec_is_transfer(inner, keys),
{
    TransferModel {
        source: keys[inner.accounts@[0] as int]@,
        mint: keys[inner.accounts@[1] as int]@,
        destination: keys[inner.accounts@[2] as int]@,
        authority: keys[inner.accounts@[3] as int]@,
        amount: spec_le_u64(inner.data@, 1) as u64,
        decimals: inner.data@[9],
    }
}

/// The views of a sequence of transfers.
pub open spec fn models_of(ts: Seq<TokenTransfer>) -> Seq<TransferModel> {
    ts.map_values(|t: TokenTransfer| t@)
}

/// The transfers recorded by a list of inner instructions, in order;
/// anything that is not a well-formed token transfer is passed over.
pub open spec fn spec_transfers_of_list(
    instrs: Seq<InnerInstruction>,
    keys: Seq<Vec<u8>>,
) -> Seq<TransferModel>
    decreases instrs.len(),
{
    if instrs.len() == 0 {
        Seq::empty()
    } else {
        spec_transfers_of_list(instrs.drop_last(), keys) + (if spec_is_transfer(
            instrs.last(),
            keys,
        ) {
            seq![spec_transfer_of(instrs.last(), keys)]
        } else {
            Seq::empty()
        })
    }
}

/// The transfers attributed to the outer instruction at `outer`, in trace
/// order.
pub open spec fn spec_transfers_for(
    groups: Seq<InnerInstructionGroup>,
    outer: u32,
    keys: Seq<Vec<u8>>,
) -> Seq<TransferModel>
    decreases groups.len(),
{
    if groups.len() == 0 {
        Seq::empty()
    } else {
        spec_transfers_for(groups.drop_last(), outer, keys) + (if groups.last().index == outer {
            spec_transfers_of_list(groups.last().instructions@, keys)
        } else {
            Seq::empty()
        })
    }
}

fn push_transfers_of_list(
    out: &mut Vec<TokenTransfer>,
    instrs: &Vec<InnerInstruction>,
    account_keys: &Vec<Vec<u8>>,
)
    ensures
        models_of(final(out)@) == models_of(old(out)@) + spec_transfers_of_list(
            instrs@,
            account_keys@,
        ),
{
    let n = instrs.len();
    let mut i: usize = 0;
    while i < n
        invariant
            n == instrs@.len(),
            i <= n,
            models_of(out@) == models_of(old(out)@) + spec_transfers_of_list(
                instrs@.subrange(0, i as int),
                account_keys@,
            ),
        decreases n - i,
    {
        let inner = &instrs[i];
        let ghost pre_out = out@;
        let mut matched = false;
        if is_token_program_at(account_keys, inner.program_id_index as usize) {
            if inner.data.len() >= 10 && inner.accounts.len() >= 4 {
                if inner.data[0] == 12 {
                    let a0 = inner.accounts[0] as usize;
                    let a1 = inner.accounts[1] as usize;
                    let a2 = inner.accounts[2] as usize;
                    let a3 = inner.accounts[3] as usize;
                    let nkeys = account_keys.len();
                    if a0 < nkeys && a1 < nkeys && a2 < nkeys && a3 < nkeys {
                        matched = true;
                        let t = TokenTransfer {
                            source: copy_bytes(&account_keys[a0]),
                            mint: copy_bytes(&account_keys[a1]),
                            destination: copy_bytes(&account_keys[a2]),
                            authority: copy_bytes(&account_keys[a3]),
                            amount: read_u64_le(&inner.data, 1),
                            decimals: inner.data[9],
                        };
                        proof {
                            assert(spec_is_transfer(instrs@[i as int], account_keys@));
                            assert(t@ == spec_transfer_of(instrs@[i as int], account_keys@));
                        }
                        out.push(t);
                    }
                }
            }
        }
        proof {
            let prefix = instrs@.subrange(0, i + 1);
            assert(prefix.drop_last() =~= instrs@.subrange(0, i as int));
            assert(prefix.last() == instrs@[i as int]);
            if matched {
                assert(spec_is_transfer(instrs@[i as int], account_keys@));
                assert(spec_transfers_of_list(prefix, account_keys@) == spec_transfers_of_list(
                    instrs@.subrange(0, i as int),
                    account_keys@,
                ) + seq![spec_transfer_of(instrs@[i as int], account_keys@)]);
                assert(out@.last()@ == spec_transfer_of(instrs@[i as int], account_keys@));
                assert(out@ =~= pre_out.push(out@.last()));
                assert(models_of(out@) =~= models_of(pre_out) + seq![out@.last()@]);
                assert(models_of(out@) =~= models_of(old(out)@) + spec_transfers_of_list(
                    prefix,
                    account_keys@,
                ));
            } else {
                assert(!spec_is_transfer(instrs@[i as int], account_keys@));
                assert(models_of(out@) =~= models_of(old(out)@) + spec_transfers_of_list(
                    prefix,
                    account_keys@,
                ));
            }
        }
        i += 1;
    }
    proof {
        assert(instrs@.subrange(0, n as int) =~= instrs@);
    }
}

/// Extracts, in execution order, the token transfers the trace attributes to
/// the outer instruction at index `outer`.
pub fn transfers_for(
    groups: &Vec<InnerInstructionGroup>,
    outer: u32,
    account_keys: &Vec<Vec<u8>>,
) -> (r: Vec<TokenTransfer>)
    ensures
        models_of(r@) == spec_transfers_for(groups@, outer, account_keys@),
{
    let mut out: Vec<TokenTransfer> = Vec::new();
    let n = groups.len();
    let mut i: usize = 0;
    while i < n
        invariant
            n == groups@.len(),
            i <= n,
            models_of(out@) == spec_transfers_for(
                groups@.subrange(0, i as int),
                outer,
                account_keys@,
            ),
        decreases n - i,
    {
        proof {
            let prefix = groups@.subrange(0, i + 1);
            assert(prefix.drop_last() =~= groups@.subrange(0, i as int));
            assert(prefix.last() == groups@[i as int]);
        }
        if groups[i].index == outer {
            push_transfers_of_list(&mut out, &groups[i].instructions, account_keys);
        } else {
            proof {
                assert(models_of(out@) =~= spec_transfers_for(
                    groups@.subrange(0, i + 1),
                    outer,
                    account_keys@,
                ));
            }
        }
        i += 1;
    }
    proof {
        assert(groups@.subrange(0, n as int) =~= groups@);
    }
    out
}

} // verus!
