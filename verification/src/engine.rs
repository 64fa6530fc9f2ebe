//! The per-block engine: scans a block's transactions in order, classifies
//! each instruction against the known aggregator protocol identifiers,
//! decodes, correlates with the trace, and assembles swap records.
//!
//! No input makes the engine fail: a malformed or unrecognized instruction
//! is passed over and the rest of the transaction is still processed.

use vstd::prelude::*;
use crate::assemble::{assemble, spec_assemble};
use crate::data::{Block, Pool, Route, Swap, SwapModel, Token, TransactionRecord};
use crate::decode::{decode, DecodeOutcome, DecodeOutcomeModel, spec_decode};
use crate::resolve::{spec_version_of_key, version_at};
use crate::transfers::{spec_transfers_for, transfers_for};

verus! {

/// An error surfaced to the host. The core itself recovers from every local
/// decode problem; `DuplicateKey` is the one caller error the entity mapper
/// reports instead of silently merging rows.
#[derive(Clone, Copy, PartialEq, Eq, Structural, Debug)]
pub enum EngineError {
    DuplicateKey,
}

/// The views of a sequence of swaps.
pub open spec fn swap_models_of(ss: Seq<Swap>) -> Seq<SwapModel> {
    ss.map_values(|s: Swap| s@)
}

/// Whether a transaction takes part in extraction at all: it must have
/// executed successfully and carry a fee payer (account-table entry 0).
pub open spec fn spec_tx_active(tx: TransactionRecord) -> bool {
    tx.succeeded && tx.account_keys@.len() > 0
}

/// The swap the instruction at `i` of `tx` yields, if any: the instruction
/// must name one of the known protocol identifiers, decode under that
/// version, and correlate with a trace that moves tokens out of and back to
/// the user.
pub open spec fn spec_swap_at(tx: TransactionRecord, slot: u64, timestamp: i64, i: int) -> Option<
    SwapModel,
>
    recommends
        0 <= i < tx.instructions@.len(),
        spec_tx_active(tx),
{
    let instr = tx.instructions@[i];
    let keys = tx.account_keys@;
    if instr.program_id_index < keys.len() {
        match spec_version_of_key(keys[instr.program_id_index as int]@) {
            None => None,
            Some(v) => match spec_decode(v, instr, keys.len() as int) {
                DecodeOutcomeModel::Decoded(d) => spec_assemble(
                    d,
                    spec_transfers_for(tx.inner_instruction_groups@, i as u32, keys),
                    keys,
                    keys[0]@,
                    tx.signature@,
                    slot,
                    timestamp,
                    i as nat,
                ),
                DecodeOutcomeModel::Unrecognized => None,
                DecodeOutcomeModel::Malformed => None,
            },
        }
    } else {
        None
    }
}

/// The swaps of the first `n` instructions of `tx`, in instruction order.
pub open spec fn spec_swaps_of_tx_prefix(
    tx: TransactionRecord,
    slot: u64,
    timestamp: i64,
    n: int,
) -> Seq<SwapModel>
    decreases n,
{
    if n <= 0 {
        Seq::empty()
    } else {
        spec_swaps_of_tx_prefix(tx, slot, timestamp, n - 1) + match spec_swap_at(
            tx,
            slot,
            timestamp,
            n - 1,
        ) {
            Some(s) => seq![s],
            None => Seq::empty(),
        }
    }
}

/// All swaps of one transaction: one per instruction that decodes to a
/// known-protocol instruction and correlates with user transfers.
pub open spec fn spec_swaps_of_tx(tx: TransactionRecord, slot: u64, timestamp: i64) -> Seq<
    SwapModel,
> {
    if !spec_tx_active(tx) {
        Seq::empty()
    } else {
        spec_swaps_of_tx_prefix(tx, slot, timestamp, tx.instructions@.len() as int)
    }
}

/// The swaps of the first `n` transactions of a block.
pub open spec fn spec_swaps_of_block_prefix(b: Block, n: int) -> Seq<SwapModel>
    decreases n,
{
    if n <= 0 {
        Seq::empty()
    } else {
        spec_swaps_of_block_prefix(b, n - 1) + spec_swaps_of_tx(
            b.transactions@[n - 1],
            b.slot,
            b.timestamp,
        )
    }
}

/// All swaps of a block, in transaction order, then instruction order.
pub open spec fn spec_swaps_of_block(b: Block) -> Seq<SwapModel> {
    spec_swaps_of_block_prefix(b, b.transactions@.len() as int)
}

/// Extracts every swap of one transaction, one per independent top-level
/// aggregator instruction, in instruction order.
pub fn extract_swap_from_transaction(block: &Block, tx: &TransactionRecord) -> (r: Vec<Swap>)
    ensures
        swap_models_of(r@) == spec_swaps_of_tx(*tx, block.slot, block.timestamp),
{
    let mut out: Vec<Swap> = Vec::new();
    if !tx.succeeded {
        return out;
    }
    if tx.account_keys.len() == 0 {
        return out;
    }
    let n = tx.instructions.len();
    let mut i: usize = 0;
    while i < n
        invariant
            n == tx.instructions@.len(),
            i <= n,
            spec_tx_active(*tx),
            swap_models_of(out@) == spec_swaps_of_tx_prefix(*tx, block.slot, block.timestamp, i as int),
        decreases n - i,
    {
        let ghost pre_out = out@;
        let instruction = &tx.instructions[i];
        let mut emitted: Option<Ghost<SwapModel>> = None;
        match version_at(&tx.account_keys, instruction.program_id_index as usize) {
            None => {},
            Some(v) => {
                match decode(v, instruction, tx.account_keys.len()) {
                    DecodeOutcome::Decoded(d) => {
                        let transfers = transfers_for(
                            &tx.inner_instruction_groups,
                            i as u32,
                            &tx.account_keys,
                        );
                        match assemble(
                            &d,
                            &transfers,
                            &tx.account_keys,
                            &tx.account_keys[0],
                            &tx.signature,
                            block.slot,
                            block.timestamp,
                            i as u64,
                        ) {
                            Some(s) => {
                                emitted = Some(Ghost(s@));
                                out.push(s);
                            },
                            None => {},
                        }
                    },
                    DecodeOutcome::Unrecognized => {},
                    DecodeOutcome::Malformed => {},
                }
            },
        }
        proof {
            match emitted {
                Some(g) => {
                    assert(spec_swap_at(*tx, block.slot, block.timestamp, i as int) == Some(g@));
                    assert(out@ =~= pre_out.push(out@.last()));
                    assert(swap_models_of(out@) =~= swap_models_of(pre_out) + seq![out@.last()@]);
                    assert(swap_models_of(out@) =~= spec_swaps_of_tx_prefix(
                        *tx,
                        block.slot,
                        block.timestamp,
                        i + 1,
                    ));
                },
                None => {
                    assert(spec_swap_at(*tx, block.slot, block.timestamp, i as int) is None);
                    assert(swap_models_of(out@) =~= spec_swaps_of_tx_prefix(
                        *tx,
                        block.slot,
                        block.timestamp,
                        i + 1,
                    ));
                },
            }
        }
        i += 1;
    }
    out
}

/// Extracts every swap of a block, scanning transactions sequentially in
/// the order delivered. Pure computation: the result is a function of the
/// block alone.
pub fn map_swaps(block: &Block) -> (r: Result<Vec<Swap>, EngineError>)
    ensures
        r matches Ok(swaps) && swap_models_of(swaps@) == spec_swaps_of_block(*block),
{
    let mut out: Vec<Swap> = Vec::new();
    let n = block.transactions.len();
    let mut i: usize = 0;
    while i < n
        invariant
            n == block.transactions@.len(),
            i <= n,
            swap_models_of(out@) == spec_swaps_of_block_prefix(*block, i as int),
        decreases n - i,
    {
        let ghost pre_out = out@;
        let mut swaps = extract_swap_from_transaction(block, &block.transactions[i]);
        let ghost tx_swaps = swap_models_of(swaps@);
        let m = swaps.len();
        let mut j: usize = 0;
        while j < m
            invariant
                m == tx_swaps.len(),
                j <= m,
                swaps@.len() == m - j,
                forall|k: int| 0 <= k < m - j ==> swaps@[k]@ == tx_swaps[j + k],
                swap_models_of(out@) == spec_swaps_of_block_prefix(*block, i as int)
                    + tx_swaps.subrange(0, j as int),
            decreases m - j,
        {
            let ghost pre_inner = out@;
            let s = swaps.remove(0);
            proof {
                assert(s@ == tx_swaps[j as int]);
            }
            out.push(s);
            proof {
                assert(out@ =~= pre_inner.push(out@.last()));
                assert(swap_models_of(out@) =~= swap_models_of(pre_inner) + seq![out@.last()@]);
                assert(swap_models_of(out@) =~= spec_swaps_of_block_prefix(*block, i as int)
                    + tx_swaps.subrange(0, j + 1));
            }
            j += 1;
        }
        proof {
            assert(tx_swaps.subrange(0, m as int) =~= tx_swaps);
            assert(tx_swaps == spec_swaps_of_tx(
                block.transactions@[i as int],
                block.slot,
                block.timestamp,
            ));
            assert(swap_models_of(out@) =~= spec_swaps_of_block_prefix(*block, i + 1));
        }
        i += 1;
    }
    Ok(out)
}

/// Pool extraction is a clearly separated extension: the engine defines the
/// entity shape and the row mapping, and extracts none yet.
pub fn map_pools(block: &Block) -> (r: Result<Vec<Pool>, EngineError>)
    ensures
        r matches Ok(pools) && pools@.len() == 0,
{
    Ok(Vec::new())
}

/// Token extraction is a clearly separated extension: the engine defines
/// the entity shape and the row mapping, and extracts none yet.
pub fn map_tokens(block: &Block) -> (r: Result<Vec<Token>, EngineError>)
    ensures
        r matches Ok(tokens) && tokens@.len() == 0,
{
    Ok(Vec::new())
}

/// Route extraction is a clearly separated extension: the engine defines
/// the entity shape and the row mapping, and extracts none yet.
pub fn map_routes(block: &Block) -> (r: Result<Vec<Route>, EngineError>)
    ensures
        r matches Ok(routes) && routes@.len() == 0,
{
    Ok(Vec::new())
}

} // verus!
