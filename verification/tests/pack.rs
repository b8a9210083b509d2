use lending_instruction::instruction::LendingInstruction;
use lending_instruction::pubkey::Pubkey;

fn every_variant() -> Vec<LendingInstruction> {
    let key: [u8; 32] = core::array::from_fn(|i| (i as u8).wrapping_mul(5).wrapping_add(1));
    let other: [u8; 32] = core::array::from_fn(|i| 255 - i as u8);
    vec![
        LendingInstruction::InitLendingMarket {
            owner: Pubkey::new_from_array(key),
            quote_currency: other,
        },
        LendingInstruction::SetLendingMarketOwner { new_owner: Pubkey::new_from_array(other) },
        LendingInstruction::InitReserve {
            total_mining_speed: 42,
            kink_util_rate: u64::MAX,
            use_pyth_oracle: true,
            is_lp: false,
        },
        LendingInstruction::InitReserve {
            total_mining_speed: 0,
            kink_util_rate: 7,
            use_pyth_oracle: false,
            is_lp: true,
        },
        LendingInstruction::RefreshReserve,
        LendingInstruction::DepositReserveLiquidity { liquidity_amount: 1 },
        LendingInstruction::RedeemReserveCollateral { collateral_amount: 256 },
        LendingInstruction::InitObligation,
        LendingInstruction::RefreshObligation,
        LendingInstruction::DepositObligationCollateral { collateral_amount: 65_536 },
        LendingInstruction::WithdrawObligationCollateral { collateral_amount: u64::MAX },
        LendingInstruction::BorrowObligationLiquidity { liquidity_amount: 1 << 40 },
        LendingInstruction::RepayObligationLiquidity { liquidity_amount: 123_456_789 },
        LendingInstruction::LiquidateObligation { liquidity_amount: 987_654_321 },
        LendingInstruction::FlashLoan { amount: 1000, call_back_data: vec![] },
        LendingInstruction::FlashLoan { amount: 1, call_back_data: vec![9, 8, 7] },
        LendingInstruction::SetConfig,
        LendingInstruction::InitMining,
        LendingInstruction::RefreshMining,
        LendingInstruction::DepositMining { amount: 5 },
        LendingInstruction::WithdrawMining { amount: 6 },
        LendingInstruction::ClaimMiningMine,
        LendingInstruction::ClaimObligationMine,
        LendingInstruction::ClaimOwnerFee,
        LendingInstruction::ReceivePendingOwner,
        LendingInstruction::RefreshReserves,
        LendingInstruction::LiquidateObligation2 { liquidity_amount: 77 },
        LendingInstruction::ClaimMine { claim_times: 100, claim_ratio: 10_000 },
    ]
}

#[test]
fn refresh_reserve_packs_to_its_tag() {
    assert_eq!(LendingInstruction::RefreshReserve.pack(), vec![3u8]);
}

#[test]
fn deposit_mining_packs_tag_and_amount() {
    assert_eq!(
        LendingInstruction::DepositMining { amount: 5 }.pack(),
        vec![18u8, 5, 0, 0, 0, 0, 0, 0, 0]
    );
}

#[test]
fn first_byte_is_the_tag() {
    let tags: Vec<u8> = every_variant().iter().map(|op| op.pack()[0]).collect();
    assert_eq!(
        tags,
        vec![
            0, 1, 2, 2, 3, 4, 5, 6, 7, 8, 9, 10, 11, 12, 13, 13, 14, 16, 17, 18, 19, 20, 21, 22,
            23, 24, 25, 26
        ]
    );
}

#[test]
fn unpack_inverts_pack_for_every_variant() {
    for op in every_variant() {
        let bytes = op.pack();
        assert_eq!(LendingInstruction::unpack(&bytes), Ok(op));
    }
}

#[test]
fn pack_inverts_unpack_on_minimal_buffers() {
    let layout: [(u8, usize); 26] = [
        (0, 64),
        (1, 32),
        (2, 50),
        (3, 0),
        (4, 8),
        (5, 8),
        (6, 0),
        (7, 0),
        (8, 8),
        (9, 8),
        (10, 8),
        (11, 8),
        (12, 8),
        (13, 8),
        (14, 0),
        (16, 0),
        (17, 0),
        (18, 8),
        (19, 8),
        (20, 0),
        (21, 0),
        (22, 0),
        (23, 0),
        (24, 0),
        (25, 8),
        (26, 4),
    ];
    for (tag, len) in layout {
        let mut bytes = vec![tag];
        for i in 0..len {
            bytes.push((i as u8).wrapping_mul(29).wrapping_add(tag));
        }
        if tag == 2 {
            for b in &mut bytes[1..33] {
                *b = 0;
            }
            bytes[49] = 1;
            bytes[50] = 0;
        }
        let op = LendingInstruction::unpack(&bytes).unwrap();
        assert_eq!(op.pack(), bytes, "tag {tag}");
    }
}

#[test]
fn pack_inverts_unpack_on_flash_loans_with_callback_data() {
    for len in [0usize, 1, 37] {
        let mut bytes = vec![13u8];
        bytes.extend_from_slice(&1000u64.to_le_bytes());
        bytes.extend((0..len).map(|i| i as u8 + 1));
        let op = LendingInstruction::unpack(&bytes).unwrap();
        assert_eq!(op.pack(), bytes);
    }
}

#[test]
fn init_lending_market_packs_owner_then_currency() {
    let owner = [3u8; 32];
    let mut currency = [0u8; 32];
    currency[..3].copy_from_slice(b"USD");
    let bytes = LendingInstruction::InitLendingMarket {
        owner: Pubkey::new_from_array(owner),
        quote_currency: currency,
    }
    .pack();
    assert_eq!(bytes.len(), 65);
    assert_eq!(bytes[0], 0);
    assert_eq!(&bytes[1..33], &owner[..]);
    assert_eq!(&bytes[33..], &currency[..]);
}

#[test]
fn init_reserve_packs_zeros_for_the_legacy_bytes() {
    let bytes = LendingInstruction::InitReserve {
        total_mining_speed: 42,
        kink_util_rate: 7,
        use_pyth_oracle: true,
        is_lp: false,
    }
    .pack();
    let mut expected = vec![2u8];
    expected.extend_from_slice(&[0u8; 32]);
    expected.extend_from_slice(&42u64.to_le_bytes());
    expected.extend_from_slice(&7u64.to_le_bytes());
    expected.extend_from_slice(&[1, 0]);
    assert_eq!(bytes, expected);
}

#[test]
fn flash_loan_packs_amount_then_callback_data() {
    let bytes =
        LendingInstruction::FlashLoan { amount: 0x0102, call_back_data: vec![0xaa, 0xbb] }.pack();
    assert_eq!(bytes, vec![13, 2, 1, 0, 0, 0, 0, 0, 0, 0xaa, 0xbb]);
}

#[test]
fn claim_mine_packs_two_u16() {
    let bytes = LendingInstruction::ClaimMine { claim_times: 0x0102, claim_ratio: 0xfffe }.pack();
    assert_eq!(bytes, vec![26, 2, 1, 0xfe, 0xff]);
}

#[test]
fn set_config_and_owner_operations_pack_to_their_tags() {
    assert_eq!(LendingInstruction::SetConfig.pack(), vec![14u8]);
    assert_eq!(LendingInstruction::ClaimOwnerFee.pack(), vec![22u8]);
    assert_eq!(LendingInstruction::ReceivePendingOwner.pack(), vec![23u8]);
    assert_eq!(
        LendingInstruction::LiquidateObligation { liquidity_amount: 1 }.pack(),
        vec![12u8, 1, 0, 0, 0, 0, 0, 0, 0]
    );
}
