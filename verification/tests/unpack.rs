use lending_instruction::error::LendingError;
use lending_instruction::instruction::LendingInstruction;
use lending_instruction::pubkey::Pubkey;

/// The assigned tags, each with the number of payload bytes its fixed fields take.
const LAYOUT: [(u8, usize); 26] = [
    (0, 64),
    (1, 32),
    (2, 50),
    (3, 0),
    (4, 8),
    (5, 8),
    (6, 0),
    (7, 0),
    (8, 8),
    (9, 8),
    (10, 8),
    (11, 8),
    (12, 8),
    (13, 8),
    (14, 0),
    (16, 0),
    (17, 0),
    (18, 8),
    (19, 8),
    (20, 0),
    (21, 0),
    (22, 0),
    (23, 0),
    (24, 0),
    (25, 8),
    (26, 4),
];

fn init_reserve_bytes(legacy: &[u8; 32], speed: u64, kink: u64, pyth: u8, lp: u8) -> Vec<u8> {
    let mut bytes = vec![2u8];
    bytes.extend_from_slice(legacy);
    bytes.extend_from_slice(&speed.to_le_bytes());
    bytes.extend_from_slice(&kink.to_le_bytes());
    bytes.push(pyth);
    bytes.push(lp);
    bytes
}

fn with_amount(tag: u8, amount: u64) -> Vec<u8> {
    let mut bytes = vec![tag];
    bytes.extend_from_slice(&amount.to_le_bytes());
    bytes
}

#[test]
fn empty_buffer_is_missing_tag() {
    assert_eq!(LendingInstruction::unpack(&[]), Err(LendingError::MissingTag));
}

#[test]
fn unassigned_tags_are_unrecognized() {
    for tag in [15u8, 27, 255] {
        assert_eq!(LendingInstruction::unpack(&[tag]), Err(LendingError::UnrecognizedOperation));
        let mut long = vec![tag];
        long.extend_from_slice(&[0u8; 80]);
        assert_eq!(LendingInstruction::unpack(&long), Err(LendingError::UnrecognizedOperation));
    }
}

#[test]
fn every_tag_outside_the_table_is_unrecognized() {
    for tag in 0..=255u8 {
        let assigned = LAYOUT.iter().any(|(t, _)| *t == tag);
        let mut bytes = vec![tag];
        bytes.extend_from_slice(&[0u8; 80]);
        let r = LendingInstruction::unpack(&bytes);
        if assigned {
            assert!(r.is_ok(), "tag {tag}");
        } else {
            assert_eq!(r, Err(LendingError::UnrecognizedOperation), "tag {tag}");
        }
    }
}

#[test]
fn short_payloads_are_truncated() {
    for (tag, needed) in LAYOUT {
        for len in 0..needed {
            let mut bytes = vec![tag];
            bytes.extend_from_slice(&vec![0u8; len]);
            assert_eq!(
                LendingInstruction::unpack(&bytes),
                Err(LendingError::TruncatedInput),
                "tag {tag}, {len} payload bytes"
            );
        }
        let mut bytes = vec![tag];
        bytes.extend_from_slice(&vec![0u8; needed]);
        assert!(LendingInstruction::unpack(&bytes).is_ok(), "tag {tag}");
    }
}

#[test]
fn init_reserve_bad_boolean_comes_before_missing_byte() {
    let mut bytes = init_reserve_bytes(&[0; 32], 1, 2, 5, 0);
    bytes.pop();
    assert_eq!(bytes.len(), 50);
    assert_eq!(LendingInstruction::unpack(&bytes), Err(LendingError::InvalidFieldEncoding));
    bytes[49] = 1;
    assert_eq!(LendingInstruction::unpack(&bytes), Err(LendingError::TruncatedInput));
}

#[test]
fn init_reserve_rejects_non_canonical_booleans() {
    let bytes = init_reserve_bytes(&[0; 32], 1, 2, 2, 0);
    assert_eq!(LendingInstruction::unpack(&bytes), Err(LendingError::InvalidFieldEncoding));
    let bytes = init_reserve_bytes(&[0; 32], 1, 2, 1, 255);
    assert_eq!(LendingInstruction::unpack(&bytes), Err(LendingError::InvalidFieldEncoding));
    let bytes = init_reserve_bytes(&[0; 32], 1, 2, 0, 1);
    assert_eq!(
        LendingInstruction::unpack(&bytes),
        Ok(LendingInstruction::InitReserve {
            total_mining_speed: 1,
            kink_util_rate: 2,
            use_pyth_oracle: false,
            is_lp: true,
        })
    );
}

#[test]
fn init_reserve_keeps_only_the_last_four_fields() {
    let expected = LendingInstruction::InitReserve {
        total_mining_speed: 42,
        kink_util_rate: 7,
        use_pyth_oracle: true,
        is_lp: false,
    };
    let zeros = [0u8; 32];
    let ones = [0xffu8; 32];
    let mixed: [u8; 32] = core::array::from_fn(|i| (i as u8).wrapping_mul(37).wrapping_add(11));
    for legacy in [zeros, ones, mixed] {
        let bytes = init_reserve_bytes(&legacy, 42, 7, 1, 0);
        assert_eq!(bytes.len(), 51);
        assert_eq!(LendingInstruction::unpack(&bytes), Ok(expected.clone()));
    }
}

#[test]
fn flash_loan_takes_all_trailing_bytes() {
    for len in [0usize, 1, 37] {
        let trailing: Vec<u8> = (0..len).map(|i| (i as u8) ^ 0x5a).collect();
        let mut bytes = with_amount(13, 1000);
        bytes.extend_from_slice(&trailing);
        assert_eq!(
            LendingInstruction::unpack(&bytes),
            Ok(LendingInstruction::FlashLoan { amount: 1000, call_back_data: trailing })
        );
    }
}

#[test]
fn init_lending_market_reads_owner_then_currency() {
    let owner: [u8; 32] = core::array::from_fn(|i| i as u8 + 1);
    let mut currency = [0u8; 32];
    currency[..3].copy_from_slice(b"USD");
    let mut bytes = vec![0u8];
    bytes.extend_from_slice(&owner);
    bytes.extend_from_slice(&currency);
    assert_eq!(
        LendingInstruction::unpack(&bytes),
        Ok(LendingInstruction::InitLendingMarket {
            owner: Pubkey::new_from_array(owner),
            quote_currency: currency,
        })
    );
}

#[test]
fn set_lending_market_owner_reads_the_new_owner() {
    let owner: [u8; 32] = core::array::from_fn(|i| 200 - i as u8);
    let mut bytes = vec![1u8];
    bytes.extend_from_slice(&owner);
    bytes.push(99);
    assert_eq!(
        LendingInstruction::unpack(&bytes),
        Ok(LendingInstruction::SetLendingMarketOwner { new_owner: Pubkey::new_from_array(owner) })
    );
}

#[test]
fn amounts_are_read_little_endian() {
    let amount = 0x1122_3344_5566_7788u64;
    let cases = [
        (4u8, LendingInstruction::DepositReserveLiquidity { liquidity_amount: amount }),
        (5, LendingInstruction::RedeemReserveCollateral { collateral_amount: amount }),
        (8, LendingInstruction::DepositObligationCollateral { collateral_amount: amount }),
        (9, LendingInstruction::WithdrawObligationCollateral { collateral_amount: amount }),
        (10, LendingInstruction::BorrowObligationLiquidity { liquidity_amount: amount }),
        (11, LendingInstruction::RepayObligationLiquidity { liquidity_amount: amount }),
        (12, LendingInstruction::LiquidateObligation { liquidity_amount: amount }),
        (18, LendingInstruction::DepositMining { amount }),
        (19, LendingInstruction::WithdrawMining { amount }),
        (25, LendingInstruction::LiquidateObligation2 { liquidity_amount: amount }),
    ];
    for (tag, expected) in cases {
        let bytes = with_amount(tag, amount);
        assert_eq!(bytes[1], 0x88);
        assert_eq!(LendingInstruction::unpack(&bytes), Ok(expected));
    }
}

#[test]
fn operations_without_fields_ignore_their_payload() {
    let cases = [
        (3u8, LendingInstruction::RefreshReserve),
        (6, LendingInstruction::InitObligation),
        (7, LendingInstruction::RefreshObligation),
        (14, LendingInstruction::SetConfig),
        (16, LendingInstruction::InitMining),
        (17, LendingInstruction::RefreshMining),
        (20, LendingInstruction::ClaimMiningMine),
        (21, LendingInstruction::ClaimObligationMine),
        (22, LendingInstruction::ClaimOwnerFee),
        (23, LendingInstruction::ReceivePendingOwner),
        (24, LendingInstruction::RefreshReserves),
    ];
    for (tag, expected) in cases {
        assert_eq!(LendingInstruction::unpack(&[tag]), Ok(expected.clone()));
        assert_eq!(LendingInstruction::unpack(&[tag, 1, 2, 3]), Ok(expected));
    }
}

#[test]
fn claim_mine_reads_two_u16() {
    let bytes = [26u8, 100, 0, 0x10, 0x27];
    assert_eq!(
        LendingInstruction::unpack(&bytes),
        Ok(LendingInstruction::ClaimMine { claim_times: 100, claim_ratio: 10000 })
    );
}

#[test]
fn trailing_bytes_after_fixed_fields_are_ignored() {
    let mut bytes = with_amount(18, 5);
    bytes.extend_from_slice(&[1, 2, 3]);
    assert_eq!(LendingInstruction::unpack(&bytes), Ok(LendingInstruction::DepositMining { amount: 5 }));
}
