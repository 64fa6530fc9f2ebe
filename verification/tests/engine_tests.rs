//! End-to-end scenarios for the swap-extraction engine, built on concrete
//! blocks with real base58 account keys.

use jupiter_dex::data::{
    Block, InnerInstruction, InnerInstructionGroup, InstructionView, TransactionRecord,
};
use jupiter_dex::engine::{extract_swap_from_transaction, map_pools, map_routes, map_swaps, map_tokens};

const V3_ID: &str = "JUP3c2Uh3WA4Ng34tw6kPd2G4C5BB21Xo36Je1s32Ph";
const V4_ID: &str = "JUP4Fb2cqiRUcaTHdrPC8h2gNsA2ETXiPDD33WcGuJB";
const V6_ID: &str = "JUP6LkbZbjS1jKKwapdHNy74zcZ3tLUZoi5QNyVTaV4";
const TOKEN_ID: &str = "TokenkegQfeZyiNwAJbNbGKPFXCWuBvf9Ss623VQ5DA";

fn key(s: &str) -> Vec<u8> {
    bs58::decode(s).into_vec().unwrap()
}

fn enc(b: &[u8]) -> String {
    bs58::encode(b).into_string()
}

/// A swap payload: opcode, then little-endian requested in/out amounts.
fn payload(op: u8, in_amount: u64, out_amount: u64) -> Vec<u8> {
    let mut d = vec![op];
    d.extend_from_slice(&in_amount.to_le_bytes());
    d.extend_from_slice(&out_amount.to_le_bytes());
    d
}

/// A checked token transfer payload: opcode 12, amount, decimals.
fn transfer_payload(amount: u64, decimals: u8) -> Vec<u8> {
    let mut d = vec![12u8];
    d.extend_from_slice(&amount.to_le_bytes());
    d.push(decimals);
    d
}

fn transfer(
    token_program_index: u32,
    source: u32,
    mint: u32,
    destination: u32,
    authority: u32,
    amount: u64,
) -> InnerInstruction {
    InnerInstruction {
        program_id_index: token_program_index,
        accounts: vec![source, mint, destination, authority],
        data: transfer_payload(amount, 6),
    }
}

fn single_tx_block(tx: TransactionRecord) -> Block {
    Block { slot: 5000, timestamp: 1_700_000_000, transactions: vec![tx] }
}

#[test]
fn no_protocol_means_no_swaps() {
    // The program key is an unrelated address, not one of the three ids.
    let tx = TransactionRecord {
        signature: vec![7u8; 64],
        account_keys: vec![vec![9u8; 32], key(TOKEN_ID)],
        instructions: vec![InstructionView {
            program_id_index: 1,
            accounts: vec![0],
            data: payload(0x22, 1000, 900),
        }],
        inner_instruction_groups: vec![],
        succeeded: true,
    };
    let block = single_tx_block(tx);
    let swaps = map_swaps(&block).unwrap();
    assert_eq!(swaps.len(), 0);
}

#[test]
fn v6_exact_in_swap_uses_actual_transfer_amounts() {
    let user = vec![1u8; 32];
    let pool = vec![2u8; 32];
    let mint_x = vec![3u8; 32];
    let mint_y = vec![4u8; 32];
    // keys: 0 user, 1 V6 program, 2 token program, 3 pool, 4 mint X, 5 mint Y
    let keys = vec![
        user.clone(),
        key(V6_ID),
        key(TOKEN_ID),
        pool.clone(),
        mint_x.clone(),
        mint_y.clone(),
    ];
    let tx = TransactionRecord {
        signature: vec![42u8; 64],
        account_keys: keys,
        instructions: vec![InstructionView {
            program_id_index: 1,
            // requested amounts differ from what actually moved
            accounts: vec![0],
            data: payload(0x22, 990, 940),
        }],
        inner_instruction_groups: vec![InnerInstructionGroup {
            index: 0,
            instructions: vec![
                // user -> pool, 1000 of mint X
                transfer(2, 0, 4, 3, 0, 1000),
                // pool -> user, 950 of mint Y
                transfer(2, 3, 5, 0, 3, 950),
            ],
        }],
        succeeded: true,
    };
    let block = single_tx_block(tx);
    let swaps = map_swaps(&block).unwrap();
    assert_eq!(swaps.len(), 1);
    let s = &swaps[0];
    assert_eq!(s.input_mint, enc(&mint_x));
    assert_eq!(s.output_mint, enc(&mint_y));
    assert_eq!(s.input_amount, "1000");
    assert_eq!(s.output_amount, "950");
    assert_eq!(s.user, enc(&[1u8; 32]));
    assert_eq!(s.block_number, 5000);
    assert_eq!(s.block_timestamp, "1700000000");
    assert_eq!(s.transaction_hash, enc(&[42u8; 64]));
    assert_eq!(s.id, format!("{}-0", enc(&[42u8; 64])));
    assert_eq!(s.route, "");
    assert_eq!(s.fee_amount, "0");
}

#[test]
fn v4_three_hop_route_collapses_to_one_swap() {
    let user = vec![1u8; 32];
    let pool1 = vec![2u8; 32];
    let pool2 = vec![3u8; 32];
    let mint_x = vec![10u8; 32];
    let mint_y = vec![11u8; 32];
    let mint_z = vec![12u8; 32];
    // keys: 0 user, 1 V4 program, 2 token program, 3 pool1, 4 pool2,
    //       5 mint X, 6 mint Y, 7 mint Z
    let keys = vec![
        user.clone(),
        key(V4_ID),
        key(TOKEN_ID),
        pool1,
        pool2,
        mint_x.clone(),
        mint_y.clone(),
        mint_z.clone(),
    ];
    let tx = TransactionRecord {
        signature: vec![13u8; 64],
        account_keys: keys,
        instructions: vec![InstructionView {
            program_id_index: 1,
            accounts: vec![0],
            data: payload(0x11, 1000, 900),
        }],
        inner_instruction_groups: vec![InnerInstructionGroup {
            index: 0,
            instructions: vec![
                // user -> pool1, 1000 X
                transfer(2, 0, 5, 3, 0, 1000),
                // pool1 -> pool2, 980 Y (intermediate hop)
                transfer(2, 3, 6, 4, 3, 980),
                // pool2 -> user, 950 Z
                transfer(2, 4, 7, 0, 4, 950),
            ],
        }],
        succeeded: true,
    };
    let block = single_tx_block(tx);
    let swaps = map_swaps(&block).unwrap();
    assert_eq!(swaps.len(), 1);
    let s = &swaps[0];
    assert_eq!(s.input_mint, enc(&mint_x));
    assert_eq!(s.output_mint, enc(&mint_z));
    assert_eq!(s.input_amount, "1000");
    assert_eq!(s.output_amount, "950");
    assert_eq!(s.route, enc(&mint_y));
}

#[test]
fn unknown_opcode_of_known_protocol_yields_no_swap() {
    let user = vec![1u8; 32];
    let keys = vec![user, key(V6_ID), key(TOKEN_ID)];
    let tx = TransactionRecord {
        signature: vec![5u8; 64],
        account_keys: keys,
        instructions: vec![InstructionView {
            program_id_index: 1,
            accounts: vec![0],
            data: payload(0x7f, 1000, 900),
        }],
        inner_instruction_groups: vec![InnerInstructionGroup {
            index: 0,
            instructions: vec![transfer(2, 0, 0, 0, 0, 1000)],
        }],
        succeeded: true,
    };
    let block = single_tx_block(tx);
    let swaps = map_swaps(&block).unwrap();
    assert_eq!(swaps.len(), 0);
}

#[test]
fn v6_opcode_through_v3_program_yields_no_swap() {
    // A V6-shaped payload (opcode 0x22) sent to the V3 program must not
    // decode: versions are isolated.
    let user = vec![1u8; 32];
    let pool = vec![2u8; 32];
    let mint_x = vec![3u8; 32];
    let mint_y = vec![4u8; 32];
    let keys = vec![user, key(V3_ID), key(TOKEN_ID), pool, mint_x, mint_y];
    let tx = TransactionRecord {
        signature: vec![6u8; 64],
        account_keys: keys,
        instructions: vec![InstructionView {
            program_id_index: 1,
            accounts: vec![0],
            data: payload(0x22, 1000, 900),
        }],
        inner_instruction_groups: vec![InnerInstructionGroup {
            index: 0,
            instructions: vec![transfer(2, 0, 4, 3, 0, 1000), transfer(2, 3, 5, 0, 3, 950)],
        }],
        succeeded: true,
    };
    let block = single_tx_block(tx);
    let swaps = map_swaps(&block).unwrap();
    assert_eq!(swaps.len(), 0);
}

#[test]
fn out_of_range_account_index_only_kills_that_instruction() {
    let user = vec![1u8; 32];
    let pool = vec![2u8; 32];
    let mint_x = vec![3u8; 32];
    let mint_y = vec![4u8; 32];
    let keys = vec![
        user,
        key(V6_ID),
        key(TOKEN_ID),
        pool,
        mint_x.clone(),
        mint_y.clone(),
    ];
    let tx = TransactionRecord {
        signature: vec![8u8; 64],
        account_keys: keys,
        instructions: vec![
            // malformed: account index 99 leaves the table
            InstructionView {
                program_id_index: 1,
                accounts: vec![0, 99],
                data: payload(0x22, 1000, 900),
            },
            // well-formed: still processed
            InstructionView {
                program_id_index: 1,
                accounts: vec![0],
                data: payload(0x22, 1000, 900),
            },
        ],
        inner_instruction_groups: vec![InnerInstructionGroup {
            index: 1,
            instructions: vec![transfer(2, 0, 4, 3, 0, 1000), transfer(2, 3, 5, 0, 3, 950)],
        }],
        succeeded: true,
    };
    let block = single_tx_block(tx);
    let swaps = map_swaps(&block).unwrap();
    assert_eq!(swaps.len(), 1);
    assert_eq!(swaps[0].input_mint, enc(&mint_x));
    assert_eq!(swaps[0].id, format!("{}-1", enc(&[8u8; 64])));
}

#[test]
fn matched_instruction_without_transfers_yields_no_swap() {
    let user = vec![1u8; 32];
    let keys = vec![user, key(V6_ID), key(TOKEN_ID)];
    let tx = TransactionRecord {
        signature: vec![9u8; 64],
        account_keys: keys,
        instructions: vec![InstructionView {
            program_id_index: 1,
            accounts: vec![0],
            data: payload(0x22, 1000, 900),
        }],
        inner_instruction_groups: vec![],
        succeeded: true,
    };
    let block = single_tx_block(tx);
    let swaps = map_swaps(&block).unwrap();
    assert_eq!(swaps.len(), 0);
}

#[test]
fn failed_transaction_yields_no_swap() {
    let user = vec![1u8; 32];
    let pool = vec![2u8; 32];
    let mint_x = vec![3u8; 32];
    let mint_y = vec![4u8; 32];
    let keys = vec![user, key(V6_ID), key(TOKEN_ID), pool, mint_x, mint_y];
    let tx = TransactionRecord {
        signature: vec![10u8; 64],
        account_keys: keys,
        instructions: vec![InstructionView {
            program_id_index: 1,
            accounts: vec![0],
            data: payload(0x22, 1000, 900),
        }],
        inner_instruction_groups: vec![InnerInstructionGroup {
            index: 0,
            instructions: vec![transfer(2, 0, 4, 3, 0, 1000), transfer(2, 3, 5, 0, 3, 950)],
        }],
        succeeded: false,
    };
    let block = single_tx_block(tx);
    let swaps = map_swaps(&block).unwrap();
    assert_eq!(swaps.len(), 0);
}

#[test]
fn batched_instructions_yield_one_swap_each() {
    let user = vec![1u8; 32];
    let pool = vec![2u8; 32];
    let mint_x = vec![3u8; 32];
    let mint_y = vec![4u8; 32];
    let keys = vec![
        user,
        key(V6_ID),
        key(TOKEN_ID),
        pool,
        mint_x.clone(),
        mint_y.clone(),
    ];
    let tx = TransactionRecord {
        signature: vec![11u8; 64],
        account_keys: keys,
        instructions: vec![
            InstructionView {
                program_id_index: 1,
                accounts: vec![0],
                data: payload(0x22, 1000, 900),
            },
            InstructionView {
                program_id_index: 1,
                accounts: vec![0],
                data: payload(0x22, 300, 200),
            },
        ],
        inner_instruction_groups: vec![
            InnerInstructionGroup {
                index: 0,
                instructions: vec![transfer(2, 0, 4, 3, 0, 1000), transfer(2, 3, 5, 0, 3, 950)],
            },
            InnerInstructionGroup {
                index: 1,
                instructions: vec![transfer(2, 0, 4, 3, 0, 300), transfer(2, 3, 5, 0, 3, 290)],
            },
        ],
        succeeded: true,
    };
    let block = single_tx_block(tx);
    let swaps = map_swaps(&block).unwrap();
    assert_eq!(swaps.len(), 2);
    assert_eq!(swaps[0].input_amount, "1000");
    assert_eq!(swaps[0].output_amount, "950");
    assert_eq!(swaps[1].input_amount, "300");
    assert_eq!(swaps[1].output_amount, "290");
    assert_eq!(swaps[0].id, format!("{}-0", enc(&[11u8; 64])));
    assert_eq!(swaps[1].id, format!("{}-1", enc(&[11u8; 64])));
}

#[test]
fn fee_transfer_into_designated_account_is_reported() {
    let user = vec![1u8; 32];
    let pool = vec![2u8; 32];
    let fee_acct = vec![7u8; 32];
    let mint_x = vec![3u8; 32];
    let mint_y = vec![4u8; 32];
    // keys: 0 user, 1 V6 program, 2 token program, 3 pool, 4 X, 5 Y, 6 fee
    let keys = vec![
        user,
        key(V6_ID),
        key(TOKEN_ID),
        pool,
        mint_x,
        mint_y,
        fee_acct,
    ];
    let tx = TransactionRecord {
        signature: vec![12u8; 64],
        account_keys: keys,
        instructions: vec![InstructionView {
            program_id_index: 1,
            // role position 1 designates the fee account (key index 6)
            accounts: vec![0, 6],
            data: payload(0x22, 1000, 900),
        }],
        inner_instruction_groups: vec![InnerInstructionGroup {
            index: 0,
            instructions: vec![
                transfer(2, 0, 4, 3, 0, 1000),
                // pool -> fee account, 5 of Y
                transfer(2, 3, 5, 6, 3, 5),
                transfer(2, 3, 5, 0, 3, 945),
            ],
        }],
        succeeded: true,
    };
    let block = single_tx_block(tx);
    let swaps = map_swaps(&block).unwrap();
    assert_eq!(swaps.len(), 1);
    assert_eq!(swaps[0].fee_amount, "5");
    assert_eq!(swaps[0].output_amount, "945");
}

#[test]
fn user_owned_token_account_counts_through_its_authority() {
    // The user moves tokens from a separate token account; the transfer
    // still counts as the input side because the user signed it.
    let user = vec![1u8; 32];
    let user_token_acct = vec![9u8; 32];
    let pool = vec![2u8; 32];
    let mint_x = vec![3u8; 32];
    let mint_y = vec![4u8; 32];
    // keys: 0 user, 1 V6, 2 token program, 3 pool, 4 X, 5 Y, 6 user's token account
    let keys = vec![
        user,
        key(V6_ID),
        key(TOKEN_ID),
        pool,
        mint_x.clone(),
        mint_y,
        user_token_acct,
    ];
    let tx = TransactionRecord {
        signature: vec![22u8; 64],
        account_keys: keys,
        instructions: vec![InstructionView {
            program_id_index: 1,
            accounts: vec![0],
            data: payload(0x22, 1000, 900),
        }],
        inner_instruction_groups: vec![InnerInstructionGroup {
            index: 0,
            instructions: vec![
                // token account -> pool, authority is the user
                transfer(2, 6, 4, 3, 0, 1000),
                // pool -> user
                transfer(2, 3, 5, 0, 3, 950),
            ],
        }],
        succeeded: true,
    };
    let block = single_tx_block(tx);
    let swaps = map_swaps(&block).unwrap();
    assert_eq!(swaps.len(), 1);
    assert_eq!(swaps[0].input_mint, enc(&mint_x));
    assert_eq!(swaps[0].input_amount, "1000");
}

#[test]
fn rerunning_the_engine_is_idempotent() {
    let user = vec![1u8; 32];
    let pool = vec![2u8; 32];
    let mint_x = vec![3u8; 32];
    let mint_y = vec![4u8; 32];
    let keys = vec![user, key(V6_ID), key(TOKEN_ID), pool, mint_x, mint_y];
    let tx = TransactionRecord {
        signature: vec![21u8; 64],
        account_keys: keys,
        instructions: vec![InstructionView {
            program_id_index: 1,
            accounts: vec![0],
            data: payload(0x22, 1000, 900),
        }],
        inner_instruction_groups: vec![InnerInstructionGroup {
            index: 0,
            instructions: vec![transfer(2, 0, 4, 3, 0, 1000), transfer(2, 3, 5, 0, 3, 950)],
        }],
        succeeded: true,
    };
    let block = single_tx_block(tx);
    let first = map_swaps(&block).unwrap();
    let second = map_swaps(&block).unwrap();
    assert!(first == second);
}

#[test]
fn extract_handles_single_transaction_directly() {
    let user = vec![1u8; 32];
    let keys = vec![user, key(V6_ID)];
    let tx = TransactionRecord {
        signature: vec![30u8; 64],
        account_keys: keys,
        instructions: vec![],
        inner_instruction_groups: vec![],
        succeeded: true,
    };
    let block = single_tx_block(tx);
    let swaps = extract_swap_from_transaction(&block, &block.transactions[0]);
    assert_eq!(swaps.len(), 0);
}

#[test]
fn unimplemented_extractions_stay_empty() {
    let block = Block { slot: 1, timestamp: 2, transactions: vec![] };
    assert_eq!(map_pools(&block).unwrap().len(), 0);
    assert_eq!(map_tokens(&block).unwrap().len(), 0);
    assert_eq!(map_routes(&block).unwrap().len(), 0);
    assert_eq!(map_swaps(&block).unwrap().len(), 0);
}
