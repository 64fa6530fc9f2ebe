//! The engine's global laws, stated over the same spec functions its
//! contracts use, and proved once and for all.

use vstd::prelude::*;
use crate::b58::base58_of;
use crate::data::{Block, InstructionView, SwapModel, TransactionRecord};
use crate::decode::spec_decode;
use crate::engine::{
    spec_swap_at, spec_swaps_of_block, spec_swaps_of_tx, spec_swaps_of_tx_prefix, spec_tx_active,
};
use crate::mapper::{spec_entity_rows, RowModel};
use crate::numfmt::{dec_of, digit_char};
use crate::resolve::{spec_version_of_key, ProtocolVersion};
use crate::assemble::{spec_first_from_user, spec_last_to_user, spec_swap_id};
use crate::transfers::spec_transfers_for;

verus! {

/// Whether the instruction at `i` of `tx` names one of the known protocol
/// identifiers.
pub open spec fn spec_invokes_protocol(tx: TransactionRecord, i: int) -> bool {
    &&& tx.instructions@[i].program_id_index < tx.account_keys@.len()
    &&& spec_version_of_key(
        tx.account_keys@[tx.instructions@[i].program_id_index as int]@,
    ) is Some
}

proof fn lemma_prefix_empty(tx: TransactionRecord, slot: u64, timestamp: i64, n: int)
    requires
        n <= tx.instructions@.len(),
        forall|i: int| 0 <= i < tx.instructions@.len() ==> !spec_invokes_protocol(tx, i),
    ensures
        spec_swaps_of_tx_prefix(tx, slot, timestamp, n) == Seq::<SwapModel>::empty(),
    decreases n,
{
    if n <= 0 {
    } else {
        lemma_prefix_empty(tx, slot, timestamp, n - 1);
        assert(!spec_invokes_protocol(tx, n - 1));
        assert(spec_swap_at(tx, slot, timestamp, n - 1) is None);
        assert(spec_swaps_of_tx_prefix(tx, slot, timestamp, n) =~= Seq::<SwapModel>::empty());
    }
}

/// A transaction that invokes none of the known protocol identifiers yields
/// no swap record at all.
pub proof fn lemma_no_protocol_no_swaps(tx: TransactionRecord, slot: u64, timestamp: i64)
    requires
        forall|i: int| 0 <= i < tx.instructions@.len() ==> !spec_invokes_protocol(tx, i),
    ensures
        spec_swaps_of_tx(tx, slot, timestamp) == Seq::<SwapModel>::empty(),
{
    if spec_tx_active(tx) {
        lemma_prefix_empty(tx, slot, timestamp, tx.instructions@.len() as int);
    }
}

/// The number of instructions among the first `n` of `tx` that yield a swap.
pub open spec fn spec_emitting_count(tx: TransactionRecord, slot: u64, timestamp: i64, n: int) -> int
    decreases n,
{
    if n <= 0 {
        0
    } else {
        spec_emitting_count(tx, slot, timestamp, n - 1) + if spec_swap_at(
            tx,
            slot,
            timestamp,
            n - 1,
        ) is Some {
            1int
        } else {
            0int
        }
    }
}

proof fn lemma_prefix_count(tx: TransactionRecord, slot: u64, timestamp: i64, n: int)
    requires
        0 <= n,
    ensures
        spec_swaps_of_tx_prefix(tx, slot, timestamp, n).len() == spec_emitting_count(
            tx,
            slot,
            timestamp,
            n,
        ),
    decreases n,
{
    if n <= 0 {
    } else {
        lemma_prefix_count(tx, slot, timestamp, n - 1);
    }
}

/// An active transaction yields exactly one swap per emitting instruction:
/// the length of its swap sequence equals the number of its instructions
/// that decode under a known protocol and correlate with user transfers.
pub proof fn lemma_one_swap_per_instruction(tx: TransactionRecord, slot: u64, timestamp: i64)
    requires
        spec_tx_active(tx),
    ensures
        spec_swaps_of_tx(tx, slot, timestamp).len() == spec_emitting_count(
            tx,
            slot,
            timestamp,
            tx.instructions@.len() as int,
        ),
{
    lemma_prefix_count(tx, slot, timestamp, tx.instructions@.len() as int);
}

proof fn lemma_prefix_contains(tx: TransactionRecord, slot: u64, timestamp: i64, i: int, n: int, s: SwapModel)
    requires
        0 <= i < n <= tx.instructions@.len(),
        spec_swap_at(tx, slot, timestamp, i) == Some(s),
    ensures
        spec_swaps_of_tx_prefix(tx, slot, timestamp, n).contains(s),
    decreases n,
{
    if n - 1 == i {
        let prefix = spec_swaps_of_tx_prefix(tx, slot, timestamp, n);
        assert(prefix[prefix.len() - 1] == s);
    } else {
        lemma_prefix_contains(tx, slot, timestamp, i, n - 1, s);
        let shorter = spec_swaps_of_tx_prefix(tx, slot, timestamp, n - 1);
        let k = choose|k: int| 0 <= k < shorter.len() && shorter[k] == s;
        assert(spec_swaps_of_tx_prefix(tx, slot, timestamp, n)[k] == s);
    }
}

/// The swap of an emitting instruction stands in the transaction's output.
pub proof fn lemma_swap_in_output(tx: TransactionRecord, slot: u64, timestamp: i64, i: int, s: SwapModel)
    requires
        spec_tx_active(tx),
        0 <= i < tx.instructions@.len(),
        spec_swap_at(tx, slot, timestamp, i) == Some(s),
    ensures
        spec_swaps_of_tx(tx, slot, timestamp).contains(s),
{
    lemma_prefix_contains(tx, slot, timestamp, i, tx.instructions@.len() as int, s);
}

/// An emitted swap carries the amounts and mints of the actual first-input
/// and last-output transfers of the trace — never the instruction's
/// requested amounts.
pub proof fn lemma_swap_amounts(tx: TransactionRecord, slot: u64, timestamp: i64, i: int)
    requires
        spec_tx_active(tx),
        0 <= i < tx.instructions@.len(),
        spec_swap_at(tx, slot, timestamp, i) is Some,
    ensures
        ({
            let ts = spec_transfers_for(tx.inner_instruction_groups@, i as u32, tx.account_keys@);
            let user = tx.account_keys@[0]@;
            let fi = spec_first_from_user(ts, user);
            let li = spec_last_to_user(ts, user);
            let s = spec_swap_at(tx, slot, timestamp, i).unwrap();
            &&& 0 <= fi < ts.len()
            &&& 0 <= li < ts.len()
            &&& s.input_amount == dec_of(ts[fi].amount as nat)
            &&& s.output_amount == dec_of(ts[li].amount as nat)
            &&& s.input_mint == base58_of(ts[fi].mint)
            &&& s.output_mint == base58_of(ts[li].mint)
            &&& s.user == base58_of(user)
            &&& s.id == spec_swap_id(base58_of(tx.signature@), i as nat)
        }),
{
    let ts = spec_transfers_for(tx.inner_instruction_groups@, i as u32, tx.account_keys@);
    let user = tx.account_keys@[0]@;
    crate::assemble::lemma_first_in_bounds(ts, user);
    crate::assemble::lemma_last_in_bounds(ts, user);
}

/// Decoding is version-isolated: a payload that decodes under one protocol
/// version never decodes under a different one, whatever the account table.
pub proof fn lemma_version_isolation(
    v1: ProtocolVersion,
    v2: ProtocolVersion,
    instr: InstructionView,
    nkeys: int,
)
    requires
        v1 != v2,
        spec_decode(v1, instr, nkeys) is Decoded,
    ensures
        !(spec_decode(v2, instr, nkeys) is Decoded),
{
}

/// Rerunning swap extraction on the same block gives the same records: the
/// output is a function of the block alone, with no dependence on iteration
/// order, clocks, or any other ambient state.
pub proof fn lemma_rerun_identical(b: Block, r1: Seq<SwapModel>, r2: Seq<SwapModel>)
    requires
        r1 == spec_swaps_of_block(b),
        r2 == spec_swaps_of_block(b),
    ensures
        r1 == r2,
{
}

/// Rerunning the entity mapper on the same batch gives byte-identical rows.
pub proof fn lemma_rows_rerun_identical(
    ss: Seq<SwapModel>,
    ps: Seq<crate::data::PoolModel>,
    ts: Seq<crate::data::TokenModel>,
    rs: Seq<crate::data::RouteModel>,
    rows1: Seq<RowModel>,
    rows2: Seq<RowModel>,
)
    requires
        rows1 == spec_entity_rows(ss, ps, ts, rs),
        rows2 == spec_entity_rows(ss, ps, ts, rs),
    ensures
        rows1 == rows2,
{
}

proof fn lemma_dec_of_digits(n: nat)
    ensures
        dec_of(n).len() >= 1,
        forall|k: int| 0 <= k < dec_of(n).len() ==> dec_of(n)[k] != '-',
    decreases n,
{
    if n < 10 {
    } else {
        lemma_dec_of_digits(n / 10);
    }
}

proof fn lemma_dec_of_injective(a: nat, b: nat)
    requires
        dec_of(a) == dec_of(b),
    ensures
        a == b,
    decreases a,
{
    if a < 10 && b < 10 {
        assert(dec_of(a)[0] == digit_char(a));
        assert(dec_of(b)[0] == digit_char(b));
    } else if a < 10 && b >= 10 {
        lemma_dec_of_digits(b / 10);
        assert(dec_of(b).len() >= 2);
        assert(false);
    } else if a >= 10 && b < 10 {
        lemma_dec_of_digits(a / 10);
        assert(dec_of(a).len() >= 2);
        assert(false);
    } else {
        assert(dec_of(a).last() == digit_char(a % 10));
        assert(dec_of(b).last() == digit_char(b % 10));
        assert(a % 10 == b % 10);
        assert(dec_of(a).drop_last() =~= dec_of(a / 10));
        assert(dec_of(b).drop_last() =~= dec_of(b / 10));
        lemma_dec_of_injective(a / 10, b / 10);
    }
}

/// An entity id reads back as the encoded signature it was derived from:
/// the id is the encoded signature, then its first dash, then the decimal
/// instruction index — so the signature part is recovered by cutting at the
/// first dash.
pub proof fn lemma_id_recovers_signature(sig_text: Seq<char>, i: nat)
    requires
        forall|k: int| 0 <= k < sig_text.len() ==> sig_text[k] != '-',
    ensures
        ({
            let id = spec_swap_id(sig_text, i);
            &&& id.len() == sig_text.len() + 1 + dec_of(i).len()
            &&& id.subrange(0, sig_text.len() as int) == sig_text
            &&& id[sig_text.len() as int] == '-'
            &&& forall|k: int| 0 <= k < sig_text.len() ==> id[k] != '-'
            &&& id.subrange(sig_text.len() as int + 1, id.len() as int) == dec_of(i)
        }),
{
    let id = spec_swap_id(sig_text, i);
    assert(id.subrange(0, sig_text.len() as int) =~= sig_text);
    assert(id.subrange(sig_text.len() as int + 1, id.len() as int) =~= dec_of(i));
}

/// Entity ids are collision-free: two ids agree only when both the encoded
/// signatures and the instruction indices agree.
pub proof fn lemma_id_injective(e1: Seq<char>, i1: nat, e2: Seq<char>, i2: nat)
    requires
        forall|k: int| 0 <= k < e1.len() ==> e1[k] != '-',
        forall|k: int| 0 <= k < e2.len() ==> e2[k] != '-',
        spec_swap_id(e1, i1) == spec_swap_id(e2, i2),
    ensures
        e1 == e2,
        i1 == i2,
{
    lemma_id_recovers_signature(e1, i1);
    lemma_id_recovers_signature(e2, i2);
    let id = spec_swap_id(e1, i1);
    if e1.len() < e2.len() {
        assert(id[e1.len() as int] == '-');
        assert(spec_swap_id(e2, i2)[e1.len() as int] != '-');
        assert(false);
    } else if e2.len() < e1.len() {
        assert(id[e2.len() as int] != '-');
        assert(spec_swap_id(e2, i2)[e2.len() as int] == '-');
        assert(false);
    } else {
        assert(e1 =~= e2);
        assert(dec_of(i1) =~= dec_of(i2));
        lemma_dec_of_injective(i1, i2);
    }
}

} // verus!
