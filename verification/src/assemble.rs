//! The swap assembler: merges one decoded instruction with its correlated
//! transfers into a canonical swap record.
//!
//! The input side of the swap is the first transfer out of the signing
//! user (by source account or signing authority); the output side is the
//! last transfer whose destination is the user. Intermediate transfers are summarized into the route field as
//! an ordered, comma-separated list of their mints. The fee is the amount of
//! the first transfer into the designated fee account (role position 1 of
//! the decoded instruction's accounts), or zero when there is none.

use vstd::prelude::*;
use vstd::string::StringExecFns;
use crate::b58::{base58_of, base58_encode};
use crate::bytes::bytes_eq;
use crate::data::{Swap, SwapModel, TokenTransfer, TransferModel};
use crate::decode::{DecodedInstruction, DecodedModel};
use crate::numfmt::{dec_of, dec_signed_of, u64_to_dec, i64_to_dec};
use crate::transfers::models_of;

verus! {

/// Whether a transfer moves tokens out of the user: its source account is
/// the user, or the user is the authority that signed it.
pub open spec fn spec_from_user(t: TransferModel, user: Seq<u8>) -> bool {
    t.source == user || t.authority == user
}

/// The index of the first transfer out of the user, or `-1`.
pub open spec fn spec_first_from_user(ts: Seq<TransferModel>, user: Seq<u8>) -> int
    decreases ts.len(),
{
    if ts.len() == 0 {
        -1
    } else if spec_from_user(ts[0], user) {
        0
    } else {
        let rest = spec_first_from_user(ts.drop_first(), user);
        if rest < 0 {
            -1
        } else {
            rest + 1
        }
    }
}

/// The index of the last transfer whose destination is the user, or `-1`.
pub open spec fn spec_last_to_user(ts: Seq<TransferModel>, user: Seq<u8>) -> int
    decreases ts.len(),
{
    if ts.len() == 0 {
        -1
    } else if ts.last().destination == user {
        ts.len() - 1
    } else {
        spec_last_to_user(ts.drop_last(), user)
    }
}

/// The amount of the first transfer whose destination is `acct`, or zero.
pub open spec fn spec_fee_amount_in(ts: Seq<TransferModel>, acct: Seq<u8>) -> u64
    decreases ts.len(),
{
    if ts.len() == 0 {
        0
    } else if ts[0].destination == acct {
        ts[0].amount
    } else {
        spec_fee_amount_in(ts.drop_first(), acct)
    }
}

/// The designated fee account of a decoded instruction: the account at role
/// position 1, when the instruction names one inside the table.
pub open spec fn spec_fee_account(d: DecodedModel, keys: Seq<Vec<u8>>) -> Option<Seq<u8>> {
    if d.accounts.len() >= 2 && d.accounts[1] < keys.len() {
        Some(keys[d.accounts[1] as int]@)
    } else {
        None
    }
}

/// The fee the trace shows for a decoded instruction: zero when no fee
/// account is designated or nothing was paid into it.
pub open spec fn spec_fee_of(d: DecodedModel, ts: Seq<TransferModel>, keys: Seq<Vec<u8>>) -> u64 {
    match spec_fee_account(d, keys) {
        None => 0,
        Some(acct) => spec_fee_amount_in(ts, acct),
    }
}

/// The comma-separated join of the mints of `ts[from .. to]` (exclusive of
/// `to`), in order.
pub open spec fn spec_join_mints(ts: Seq<TransferModel>, from: int, to: int) -> Seq<char>
    decreases to - from,
{
    if to <= from {
        Seq::empty()
    } else if to == from + 1 {
        base58_of(ts[from].mint)
    } else {
        spec_join_mints(ts, from, to - 1) + seq![','] + base58_of(ts[to - 1].mint)
    }
}

/// The stable identifier of a swap: the display-encoded signature, a dash,
/// and the decimal index of the instruction inside its transaction.
pub open spec fn spec_swap_id(sig_text: Seq<char>, instr_idx: nat) -> Seq<char> {
    sig_text + seq!['-'] + dec_of(instr_idx)
}

/// What assembling a decoded instruction with its correlated transfers
/// yields. `None` when the trace shows no transfer out of the user or none
/// back into the user: then no swap took place.
pub open spec fn spec_assemble(
    d: DecodedModel,
    ts: Seq<TransferModel>,
    keys: Seq<Vec<u8>>,
    user: Seq<u8>,
    sig: Seq<u8>,
    slot: u64,
    timestamp: i64,
    instr_idx: nat,
) -> Option<SwapModel> {
    let fi = spec_first_from_user(ts, user);
    let li = spec_last_to_user(ts, user);
    if fi < 0 || li < 0 {
        None
    } else {
        Some(
            SwapModel {
                id: spec_swap_id(base58_of(sig), instr_idx),
                transaction_hash: base58_of(sig),
                block_number: slot,
                block_timestamp: dec_signed_of(timestamp as int),
                input_mint: base58_of(ts[fi].mint),
                output_mint: base58_of(ts[li].mint),
                input_amount: dec_of(ts[fi].amount as nat),
                output_amount: dec_of(ts[li].amount as nat),
                user: base58_of(user),
                route: spec_join_mints(ts, fi + 1, li),
                fee_amount: dec_of(spec_fee_of(d, ts, keys) as nat),
            },
        )
    }
}

/// The first-input index is either absent or a position inside the trace
/// whose transfer really leaves the user.
pub proof fn lemma_first_in_bounds(ts: Seq<TransferModel>, user: Seq<u8>)
    ensures
        spec_first_from_user(ts, user) == -1 || (0 <= spec_first_from_user(ts, user) < ts.len()
            && spec_from_user(ts[spec_first_from_user(ts, user)], user)),
    decreases ts.len(),
{
    if ts.len() == 0 {
    } else if spec_from_user(ts[0], user) {
    } else {
        lemma_first_in_bounds(ts.drop_first(), user);
    }
}

/// The last-output index is either absent or a position inside the trace
/// whose transfer really reaches the user.
pub proof fn lemma_last_in_bounds(ts: Seq<TransferModel>, user: Seq<u8>)
    ensures
        spec_last_to_user(ts, user) == -1 || (0 <= spec_last_to_user(ts, user) < ts.len()
            && ts[spec_last_to_user(ts, user)].destination == user),
    decreases ts.len(),
{
    if ts.len() == 0 {
    } else if ts.last().destination == user {
    } else {
        lemma_last_in_bounds(ts.drop_last(), user);
    }
}

proof fn lemma_first_found(ts: Seq<TransferModel>, user: Seq<u8>, j: int)
    requires
        0 <= j < ts.len(),
        spec_from_user(ts[j], user),
        forall|k: int| 0 <= k < j ==> !spec_from_user(#[trigger] ts[k], user),
    ensures
        spec_first_from_user(ts, user) == j,
    decreases j,
{
    if j == 0 {
    } else {
        assert(!spec_from_user(ts[0], user));
        assert(forall|k: int| 0 <= k < j - 1 ==> ts.drop_first()[k] == ts[k + 1]);
        lemma_first_found(ts.drop_first(), user, j - 1);
    }
}

proof fn lemma_first_none(ts: Seq<TransferModel>, user: Seq<u8>)
    requires
        forall|k: int| 0 <= k < ts.len() ==> !spec_from_user(#[trigger] ts[k], user),
    ensures
        spec_first_from_user(ts, user) == -1,
    decreases ts.len(),
{
    if ts.len() == 0 {
    } else {
        assert(forall|k: int| 0 <= k < ts.len() - 1 ==> ts.drop_first()[k] == ts[k + 1]);
        lemma_first_none(ts.drop_first(), user);
    }
}

proof fn lemma_last_found(ts: Seq<TransferModel>, user: Seq<u8>, j: int)
    requires
        0 <= j < ts.len(),
        ts[j].destination == user,
        forall|k: int| j < k < ts.len() ==> ts[k].destination != user,
    ensures
        spec_last_to_user(ts, user) == j,
    decreases ts.len(),
{
    if j == ts.len() - 1 {
    } else {
        assert(ts.last().destination != user);
        assert(forall|k: int| 0 <= k < ts.len() - 1 ==> ts.drop_last()[k] == ts[k]);
        lemma_last_found(ts.drop_last(), user, j);
    }
}

proof fn lemma_last_none(ts: Seq<TransferModel>, user: Seq<u8>)
    requires
        forall|k: int| 0 <= k < ts.len() ==> ts[k].destination != user,
    ensures
        spec_last_to_user(ts, user) == -1,
    decreases ts.len(),
{
    if ts.len() == 0 {
    } else {
        assert(forall|k: int| 0 <= k < ts.len() - 1 ==> ts.drop_last()[k] == ts[k]);
        lemma_last_none(ts.drop_last(), user);
    }
}

proof fn lemma_fee_found(ts: Seq<TransferModel>, acct: Seq<u8>, j: int)
    requires
        0 <= j < ts.len(),
        ts[j].destination == acct,
        forall|k: int| 0 <= k < j ==> ts[k].destination != acct,
    ensures
        spec_fee_amount_in(ts, acct) == ts[j].amount,
    decreases j,
{
    if j == 0 {
    } else {
        assert(ts[0].destination != acct);
        assert(forall|k: int| 0 <= k < j - 1 ==> ts.drop_first()[k] == ts[k + 1]);
        lemma_fee_found(ts.drop_first(), acct, j - 1);
    }
}

proof fn lemma_fee_none(ts: Seq<TransferModel>, acct: Seq<u8>)
    requires
        forall|k: int| 0 <= k < ts.len() ==> ts[k].destination != acct,
    ensures
        spec_fee_amount_in(ts, acct) == 0,
    decreases ts.len(),
{
    if ts.len() == 0 {
    } else {
        assert(forall|k: int| 0 <= k < ts.len() - 1 ==> ts.drop_first()[k] == ts[k + 1]);
        lemma_fee_none(ts.drop_first(), acct);
    }
}

fn find_first_from_user(ts: &Vec<TokenTransfer>, user: &Vec<u8>) -> (r: Option<usize>)
    ensures
        match r {
            Some(j) => j < ts@.len() && spec_first_from_user(models_of(ts@), user@) == j,
            None => spec_first_from_user(models_of(ts@), user@) == -1,
        },
{
    let n = ts.len();
    let mut j: usize = 0;
    while j < n
        invariant
            n == ts@.len(),
            j <= n,
            forall|k: int| 0 <= k < j ==> !spec_from_user(#[trigger] models_of(ts@)[k], user@),
        decreases n - j,
    {
        proof {
            assert(models_of(ts@)[j as int] == ts@[j as int]@);
        }
        if bytes_eq(&ts[j].source, user) || bytes_eq(&ts[j].authority, user) {
            proof {
                lemma_first_found(models_of(ts@), user@, j as int);
            }
            return Some(j);
        }
        j += 1;
    }
    proof {
        lemma_first_none(models_of(ts@), user@);
    }
    None
}

fn find_last_to_user(ts: &Vec<TokenTransfer>, user: &Vec<u8>) -> (r: Option<usize>)
    ensures
        match r {
            Some(j) => j < ts@.len() && spec_last_to_user(models_of(ts@), user@) == j,
            None => spec_last_to_user(models_of(ts@), user@) == -1,
        },
{
    let n = ts.len();
    let mut j: usize = n;
    while j > 0
        invariant
            n == ts@.len(),
            j <= n,
            forall|k: int| j <= k < n ==> models_of(ts@)[k].destination != user@,
        decreases j,
    {
        j -= 1;
        proof {
            assert(models_of(ts@)[j as int] == ts@[j as int]@);
        }
        if bytes_eq(&ts[j].destination, user) {
            proof {
                lemma_last_found(models_of(ts@), user@, j as int);
            }
            return Some(j);
        }
    }
    proof {
        lemma_last_none(models_of(ts@), user@);
    }
    None
}

fn fee_amount_in(ts: &Vec<TokenTransfer>, acct: &Vec<u8>) -> (r: u64)
    ensures
        r == spec_fee_amount_in(models_of(ts@), acct@),
{
    let n = ts.len();
    let mut j: usize = 0;
    while j < n
        invariant
            n == ts@.len(),
            j <= n,
            forall|k: int| 0 <= k < j ==> models_of(ts@)[k].destination != acct@,
        decreases n - j,
    {
        proof {
            assert(models_of(ts@)[j as int] == ts@[j as int]@);
        }
        if bytes_eq(&ts[j].destination, acct) {
            proof {
                lemma_fee_found(models_of(ts@), acct@, j as int);
            }
            return ts[j].amount;
        }
        j += 1;
    }
    proof {
        lemma_fee_none(models_of(ts@), acct@);
    }
    0
}

fn join_mints(ts: &Vec<TokenTransfer>, from: usize, to: usize) -> (r: String)
    requires
        to <= ts@.len(),
    ensures
        r@ == spec_join_mints(models_of(ts@), from as int, to as int),
{
    let mut route = String::new();
    if from >= to {
        return route;
    }
    let mut j: usize = from;
    while j < to
        invariant
            from < to <= ts@.len(),
            from <= j <= to,
            route@ == spec_join_mints(models_of(ts@), from as int, j as int),
        decreases to - j,
    {
        if j > from {
            route.append(",");
        }
        proof {
            assert(models_of(ts@)[j as int] == ts@[j as int]@);
        }
        let mint_text = base58_encode(&ts[j].mint);
        route.append(mint_text.as_str());
        proof {
            reveal_strlit(",");
            assert(route@ =~= spec_join_mints(models_of(ts@), from as int, j + 1));
        }
        j += 1;
    }
    route
}

/// Assembles one decoded instruction and its correlated transfers into a
/// swap record, against the transaction's context: its account-key table,
/// the signing user, the signature, the block's slot and timestamp, and the
/// instruction's index within the transaction.
pub fn assemble(
    decoded: &DecodedInstruction,
    ts: &Vec<TokenTransfer>,
    account_keys: &Vec<Vec<u8>>,
    user: &Vec<u8>,
    signature: &Vec<u8>,
    slot: u64,
    timestamp: i64,
    instr_idx: u64,
) -> (r: Option<Swap>)
    ensures
        match r {
            Some(s) => Some(s@) == spec_assemble(
                decoded@,
                models_of(ts@),
                account_keys@,
                user@,
                signature@,
                slot,
                timestamp,
                instr_idx as nat,
            ),
            None => spec_assemble(
                decoded@,
                models_of(ts@),
                account_keys@,
                user@,
                signature@,
                slot,
                timestamp,
                instr_idx as nat,
            ) is None,
        },
{
    let n = ts.len();
    if n == 0 {
        return None;
    }
    let fi = match find_first_from_user(ts, user) {
        Some(j) => j,
        None => {
            return None;
        },
    };
    let li = match find_last_to_user(ts, user) {
        Some(j) => j,
        None => {
            return None;
        },
    };
    let sig_text = base58_encode(signature);
    let mut id = sig_text.clone();
    id.append("-");
    let idx_text = u64_to_dec(instr_idx);
    id.append(idx_text.as_str());
    proof {
        reveal_strlit("-");
        assert(id@ =~= spec_swap_id(base58_of(signature@), instr_idx as nat));
    }
    let fee: u64 = if decoded.accounts.len() >= 2 {
        let acct_idx = decoded.accounts[1] as usize;
        if acct_idx < account_keys.len() {
            fee_amount_in(ts, &account_keys[acct_idx])
        } else {
            0
        }
    } else {
        0
    };
    assert(fee == spec_fee_of(decoded@, models_of(ts@), account_keys@));
    proof {
        assert(models_of(ts@)[fi as int] == ts@[fi as int]@);
        assert(models_of(ts@)[li as int] == ts@[li as int]@);
    }
    let route = join_mints(ts, fi + 1, li);
    let swap = Swap {
        id,
        transaction_hash: sig_text,
        block_number: slot,
        block_timestamp: i64_to_dec(timestamp),
        input_mint: base58_encode(&ts[fi].mint),
        output_mint: base58_encode(&ts[li].mint),
        input_amount: u64_to_dec(ts[fi].amount),
        output_amount: u64_to_dec(ts[li].amount),
        user: base58_encode(user),
        route,
        fee_amount: u64_to_dec(fee),
    };
    Some(swap)
}

} // verus!
