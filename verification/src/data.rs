//! The input data model (blocks, transactions, instructions, the execution
//! trace) and the output entities (swaps, pools, tokens, routes), together
//! with their mathematical views.

use vstd::prelude::*;

verus! {

/// One top-level instruction: which account-table entry names the program,
/// which accounts it touches (by index), and its raw argument bytes.
pub struct InstructionView {
    pub program_id_index: u32,
    pub accounts: Vec<u32>,
    pub data: Vec<u8>,
}

/// A nested instruction recorded in the execution trace as a side effect of
/// running an outer instruction.
pub struct InnerInstruction {
    pub program_id_index: u32,
    pub accounts: Vec<u32>,
    pub data: Vec<u8>,
}

/// The inner instructions attributed to the outer instruction at `index`.
pub struct InnerInstructionGroup {
    pub index: u32,
    pub instructions: Vec<InnerInstruction>,
}

/// A legacy-format transaction: signature, account-key table (raw addresses),
/// instruction list, and execution metadata (trace plus success flag).
pub struct TransactionRecord {
    pub signature: Vec<u8>,
    pub account_keys: Vec<Vec<u8>>,
    pub instructions: Vec<InstructionView>,
    pub inner_instruction_groups: Vec<InnerInstructionGroup>,
    pub succeeded: bool,
}

/// An ordered sequence of transactions at a given slot and wall-clock time.
pub struct Block {
    pub slot: u64,
    pub timestamp: i64,
    pub transactions: Vec<TransactionRecord>,
}

/// A token transfer reconstructed from the execution trace: who moved which
/// mint where, how much, and with how many decimals. Addresses are raw bytes.
pub struct TokenTransfer {
    pub source: Vec<u8>,
    pub mint: Vec<u8>,
    pub destination: Vec<u8>,
    pub authority: Vec<u8>,
    pub amount: u64,
    pub decimals: u8,
}

/// Mathematical view of a [`TokenTransfer`].
pub ghost struct TransferModel {
    pub source: Seq<u8>,
    pub mint: Seq<u8>,
    pub destination: Seq<u8>,
    pub authority: Seq<u8>,
    pub amount: u64,
    pub decimals: u8,
}

impl View for TokenTransfer {
    type V = TransferModel;

    open spec fn view(&self) -> TransferModel {
        TransferModel {
            source: self.source@,
            mint: self.mint@,
            destination: self.destination@,
            authority: self.authority@,
            amount: self.amount,
            decimals: self.decimals,
        }
    }
}

/// One canonical swap: a user exchanged `input_amount` of `input_mint` for
/// `output_amount` of `output_mint`, with the amounts taken from the actual
/// transfers in the trace. Amounts are decimal strings.
#[derive(PartialEq, Eq)]
pub struct Swap {
    pub id: String,
    pub transaction_hash: String,
    pub block_number: u64,
    pub block_timestamp: String,
    pub input_mint: String,
    pub output_mint: String,
    pub input_amount: String,
    pub output_amount: String,
    pub user: String,
    pub route: String,
    pub fee_amount: String,
}

/// Mathematical view of a [`Swap`].
pub ghost struct SwapModel {
    pub id: Seq<char>,
    pub transaction_hash: Seq<char>,
    pub block_number: u64,
    pub block_timestamp: Seq<char>,
    pub input_mint: Seq<char>,
    pub output_mint: Seq<char>,
    pub input_amount: Seq<char>,
    pub output_amount: Seq<char>,
    pub user: Seq<char>,
    pub route: Seq<char>,
    pub fee_amount: Seq<char>,
}

impl View for Swap {
    type V = SwapModel;

    open spec fn view(&self) -> SwapModel {
        SwapModel {
            id: self.id@,
            transaction_hash: self.transaction_hash@,
            block_number: self.block_number,
            block_timestamp: self.block_timestamp@,
            input_mint: self.input_mint@,
            output_mint: self.output_mint@,
            input_amount: self.input_amount@,
            output_amount: self.output_amount@,
            user: self.user@,
            route: self.route@,
            fee_amount: self.fee_amount@,
        }
    }
}

/// A liquidity pool entity. Extraction of pools is an extension point: the
/// engine only defines the shape and the row mapping.
pub struct Pool {
    pub id: String,
    pub program_id: String,
    pub token_a_mint: String,
    pub token_b_mint: String,
    pub token_a_amount: String,
    pub token_b_amount: String,
    pub fee_rate: String,
    pub creation_timestamp: String,
    pub last_update_timestamp: String,
}

/// Mathematical view of a [`Pool`].
pub ghost struct PoolModel {
    pub id: Seq<char>,
    pub program_id: Seq<char>,
    pub token_a_mint: Seq<char>,
    pub token_b_mint: Seq<char>,
    pub token_a_amount: Seq<char>,
    pub token_b_amount: Seq<char>,
    pub fee_rate: Seq<char>,
    pub creation_timestamp: Seq<char>,
    pub last_update_timestamp: Seq<char>,
}

impl View for Pool {
    type V = PoolModel;

    open spec fn view(&self) -> PoolModel {
        PoolModel {
            id: self.id@,
            program_id: self.program_id@,
            token_a_mint: self.token_a_mint@,
            token_b_mint: self.token_b_mint@,
            token_a_amount: self.token_a_amount@,
            token_b_amount: self.token_b_amount@,
            fee_rate: self.fee_rate@,
            creation_timestamp: self.creation_timestamp@,
            last_update_timestamp: self.last_update_timestamp@,
        }
    }
}

/// A token entity, keyed by its mint address.
pub struct Token {
    pub mint: String,
    pub symbol: String,
    pub name: String,
    pub decimals: String,
    pub total_volume: String,
    pub price_usd: String,
}

/// Mathematical view of a [`Token`].
pub ghost struct TokenModel {
    pub mint: Seq<char>,
    pub symbol: Seq<char>,
    pub name: Seq<char>,
    pub decimals: Seq<char>,
    pub total_volume: Seq<char>,
    pub price_usd: Seq<char>,
}

impl View for Token {
    type V = TokenModel;

    open spec fn view(&self) -> TokenModel {
        TokenModel {
            mint: self.mint@,
            symbol: self.symbol@,
            name: self.name@,
            decimals: self.decimals@,
            total_volume: self.total_volume@,
            price_usd: self.price_usd@,
        }
    }
}

/// A multi-hop route entity.
pub struct Route {
    pub id: String,
    pub input_mint: String,
    pub output_mint: String,
    pub in_amount: String,
    pub out_amount: String,
    pub price_impact: String,
    pub market_info_address: String,
}

/// Mathematical view of a [`Route`].
pub ghost struct RouteModel {
    pub id: Seq<char>,
    pub input_mint: Seq<char>,
    pub output_mint: Seq<char>,
    pub in_amount: Seq<char>,
    pub out_amount: Seq<char>,
    pub price_impact: Seq<char>,
    pub market_info_address: Seq<char>,
}

impl View for Route {
    type V = RouteModel;

    open spec fn view(&self) -> RouteModel {
        RouteModel {
            id: self.id@,
            input_mint: self.input_mint@,
            output_mint: self.output_mint@,
            in_amount: self.in_amount@,
            out_amount: self.out_amount@,
            price_impact: self.price_impact@,
            market_info_address: self.market_info_address@,
        }
    }
}

} // verus!
