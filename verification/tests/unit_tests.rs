//! Unit-level checks: the decoder's dispatch and bounds checks, address
//! resolution, number formatting, transfer correlation, and entity ids.

use jupiter_dex::bytes::{bytes_eq, copy_bytes, read_u64_le};
use jupiter_dex::data::{InnerInstruction, InnerInstructionGroup, InstructionView};
use jupiter_dex::decode::{decode, DecodeOutcome, SwapKind};
use jupiter_dex::numfmt::{i64_to_dec, u64_to_dec};
use jupiter_dex::resolve::{is_target_protocol, resolve, version_at, ProtocolVersion};
use jupiter_dex::transfers::transfers_for;

const V3_ID: &str = "JUP3c2Uh3WA4Ng34tw6kPd2G4C5BB21Xo36Je1s32Ph";
const V4_ID: &str = "JUP4Fb2cqiRUcaTHdrPC8h2gNsA2ETXiPDD33WcGuJB";
const V6_ID: &str = "JUP6LkbZbjS1jKKwapdHNy74zcZ3tLUZoi5QNyVTaV4";
const TOKEN_ID: &str = "TokenkegQfeZyiNwAJbNbGKPFXCWuBvf9Ss623VQ5DA";

fn key(s: &str) -> Vec<u8> {
    bs58::decode(s).into_vec().unwrap()
}

fn payload(op: u8, in_amount: u64, out_amount: u64) -> Vec<u8> {
    let mut d = vec![op];
    d.extend_from_slice(&in_amount.to_le_bytes());
    d.extend_from_slice(&out_amount.to_le_bytes());
    d
}

#[test]
fn resolve_renders_canonical_encoding() {
    // If resolution handed raw bytes through unchanged, this comparison
    // against the canonical display form would fail.
    let keys = vec![key(V6_ID), vec![0xFFu8; 4]];
    assert_eq!(resolve(&keys, 0).unwrap(), V6_ID);
    assert_eq!(resolve(&keys, 1).unwrap(), bs58::encode(&[0xFFu8; 4]).into_string());
    assert!(resolve(&keys, 2).is_none());
}

#[test]
fn classification_matches_the_three_ids_only() {
    assert_eq!(is_target_protocol(&V3_ID.to_string()), Some(ProtocolVersion::V3));
    assert_eq!(is_target_protocol(&V4_ID.to_string()), Some(ProtocolVersion::V4));
    assert_eq!(is_target_protocol(&V6_ID.to_string()), Some(ProtocolVersion::V6));
    assert_eq!(is_target_protocol(&TOKEN_ID.to_string()), None);
    assert_eq!(is_target_protocol(&String::new()), None);
}

#[test]
fn version_at_checks_bounds_and_identity() {
    let keys = vec![key(V4_ID), vec![1u8; 32]];
    assert_eq!(version_at(&keys, 0), Some(ProtocolVersion::V4));
    assert_eq!(version_at(&keys, 1), None);
    assert_eq!(version_at(&keys, 7), None);
}

#[test]
fn decoder_accepts_each_version_own_opcodes() {
    let instr = InstructionView { program_id_index: 0, accounts: vec![0, 1], data: payload(0x01, 7, 9) };
    match decode(ProtocolVersion::V3, &instr, 4) {
        DecodeOutcome::Decoded(d) => {
            assert_eq!(d.kind, SwapKind::ExactInSwap);
            assert_eq!(d.in_amount, 7);
            assert_eq!(d.out_amount, 9);
            assert_eq!(d.accounts, vec![0, 1]);
        },
        _ => panic!("expected a decoded instruction"),
    }
    let instr = InstructionView { program_id_index: 0, accounts: vec![], data: payload(0x14, 1, 2) };
    match decode(ProtocolVersion::V4, &instr, 4) {
        DecodeOutcome::Decoded(d) => assert_eq!(d.kind, SwapKind::SharedAccountsRoute),
        _ => panic!("expected a decoded instruction"),
    }
    let instr = InstructionView { program_id_index: 0, accounts: vec![], data: payload(0x21, 1, 2) };
    match decode(ProtocolVersion::V6, &instr, 4) {
        DecodeOutcome::Decoded(d) => assert_eq!(d.kind, SwapKind::Route),
        _ => panic!("expected a decoded instruction"),
    }
}

#[test]
fn decoder_is_version_isolated() {
    // Every opcode of every other version must fall out as unrecognized.
    let versions = [ProtocolVersion::V3, ProtocolVersion::V4, ProtocolVersion::V6];
    let opcodes: [(ProtocolVersion, &[u8]); 3] = [
        (ProtocolVersion::V3, &[0x01, 0x02, 0x03]),
        (ProtocolVersion::V4, &[0x11, 0x12, 0x13, 0x14]),
        (ProtocolVersion::V6, &[0x21, 0x22, 0x23, 0x24]),
    ];
    for (owner, ops) in opcodes {
        for &op in ops {
            let instr = InstructionView {
                program_id_index: 0,
                accounts: vec![],
                data: payload(op, 1, 2),
            };
            for v in versions {
                let outcome = decode(v, &instr, 4);
                if v == owner {
                    assert!(matches!(outcome, DecodeOutcome::Decoded(_)));
                } else {
                    assert!(matches!(outcome, DecodeOutcome::Unrecognized));
                }
            }
        }
    }
}

#[test]
fn decoder_reports_short_and_stray_inputs_as_malformed() {
    let short = InstructionView { program_id_index: 0, accounts: vec![], data: vec![0x22, 1, 2] };
    assert!(matches!(decode(ProtocolVersion::V6, &short, 4), DecodeOutcome::Malformed));
    let empty = InstructionView { program_id_index: 0, accounts: vec![], data: vec![] };
    assert!(matches!(decode(ProtocolVersion::V6, &empty, 4), DecodeOutcome::Malformed));
    let stray = InstructionView { program_id_index: 0, accounts: vec![9], data: payload(0x22, 1, 2) };
    assert!(matches!(decode(ProtocolVersion::V6, &stray, 4), DecodeOutcome::Malformed));
    let unknown = InstructionView { program_id_index: 0, accounts: vec![], data: payload(0x7f, 1, 2) };
    assert!(matches!(decode(ProtocolVersion::V6, &unknown, 4), DecodeOutcome::Unrecognized));
}

#[test]
fn little_endian_reads_match_rust() {
    let data = vec![0u8, 0x11, 0x22, 0x33, 0x44, 0x55, 0x66, 0x77, 0x88, 0x99];
    let expected = u64::from_le_bytes([0x11, 0x22, 0x33, 0x44, 0x55, 0x66, 0x77, 0x88]);
    assert_eq!(read_u64_le(&data, 1), expected);
    assert_eq!(read_u64_le(&data, 0), u64::from_le_bytes([0, 0x11, 0x22, 0x33, 0x44, 0x55, 0x66, 0x77]));
}

#[test]
fn byte_helpers_compare_and_copy() {
    let a = vec![1u8, 2, 3];
    let b = vec![1u8, 2, 3];
    let c = vec![1u8, 2, 4];
    assert!(bytes_eq(&a, &b));
    assert!(!bytes_eq(&a, &c));
    assert!(!bytes_eq(&a, &vec![1u8, 2]));
    assert_eq!(copy_bytes(&a), a);
}

#[test]
fn decimal_formatting_is_exact() {
    assert_eq!(u64_to_dec(0), "0");
    assert_eq!(u64_to_dec(7), "7");
    assert_eq!(u64_to_dec(950), "950");
    assert_eq!(u64_to_dec(u64::MAX), "18446744073709551615");
    assert_eq!(i64_to_dec(0), "0");
    assert_eq!(i64_to_dec(1_700_000_000), "1700000000");
    assert_eq!(i64_to_dec(-42), "-42");
    assert_eq!(i64_to_dec(i64::MIN), "-9223372036854775808");
}

#[test]
fn correlator_keeps_order_and_attribution() {
    let token = 0u32;
    let keys = vec![key(TOKEN_ID), vec![1u8; 32], vec![2u8; 32], vec![3u8; 32]];
    let mk = |amount: u64| {
        let mut d = vec![12u8];
        d.extend_from_slice(&amount.to_le_bytes());
        d.push(9);
        InnerInstruction { program_id_index: token, accounts: vec![1, 2, 3, 1], data: d }
    };
    let groups = vec![
        InnerInstructionGroup { index: 0, instructions: vec![mk(10), mk(20)] },
        InnerInstructionGroup { index: 1, instructions: vec![mk(99)] },
        InnerInstructionGroup { index: 0, instructions: vec![mk(30)] },
    ];
    let got = transfers_for(&groups, 0, &keys);
    let amounts: Vec<u64> = got.iter().map(|t| t.amount).collect();
    assert_eq!(amounts, vec![10, 20, 30]);
    assert_eq!(got[0].decimals, 9);
    assert_eq!(got[0].source, vec![1u8; 32]);
    assert_eq!(got[0].mint, vec![2u8; 32]);
    assert_eq!(got[0].destination, vec![3u8; 32]);
}

#[test]
fn correlator_skips_non_transfers() {
    let keys = vec![key(TOKEN_ID), vec![1u8; 32], vec![2u8; 32], vec![3u8; 32]];
    let mut good = vec![12u8];
    good.extend_from_slice(&5u64.to_le_bytes());
    good.push(6);
    let groups = vec![InnerInstructionGroup {
        index: 0,
        instructions: vec![
            // wrong program
            InnerInstruction { program_id_index: 1, accounts: vec![1, 2, 3, 1], data: good.clone() },
            // wrong opcode
            InnerInstruction {
                program_id_index: 0,
                accounts: vec![1, 2, 3, 1],
                data: {
                    let mut d = good.clone();
                    d[0] = 3;
                    d
                },
            },
            // too few accounts
            InnerInstruction { program_id_index: 0, accounts: vec![1, 2], data: good.clone() },
            // account index out of range
            InnerInstruction { program_id_index: 0, accounts: vec![1, 2, 9, 1], data: good.clone() },
            // short payload
            InnerInstruction { program_id_index: 0, accounts: vec![1, 2, 3, 1], data: vec![12, 0] },
            // the one well-formed transfer
            InnerInstruction { program_id_index: 0, accounts: vec![1, 2, 3, 1], data: good.clone() },
        ],
    }];
    let got = transfers_for(&groups, 0, &keys);
    assert_eq!(got.len(), 1);
    assert_eq!(got[0].amount, 5);
}

#[test]
fn entity_ids_round_trip_to_signatures() {
    // A corpus of distinct signatures: the derived ids are pairwise
    // distinct, and each maps back to its signature by cutting at the
    // first dash.
    let corpus: Vec<Vec<u8>> = (0u8..32).map(|b| vec![b; 64]).collect();
    let mut ids: Vec<String> = Vec::new();
    for sig in &corpus {
        let encoded = bs58::encode(sig).into_string();
        let id = format!("{}-0", encoded);
        let prefix = id.split('-').next().unwrap();
        assert_eq!(prefix, encoded);
        assert_eq!(bs58::decode(prefix).into_vec().unwrap(), *sig);
        ids.push(id);
    }
    for i in 0..ids.len() {
        for j in (i + 1)..ids.len() {
            assert_ne!(ids[i], ids[j]);
        }
    }
}
