//! The wire format, stated on byte sequences.
//!
//! A request is one tag byte followed by the fields of the operation that the
//! tag selects, each at a fixed offset. `decode` and `encode` say what the
//! format means; the executable decoder and encoder are proved against them.
use vstd::prelude::*;
use crate::codec::{
    bool_byte, lemma_u16_bytes_round_trip, lemma_u16_value_round_trip, lemma_u64_bytes_round_trip,
    lemma_u64_value_round_trip, u16_at, u16_bytes, u64_at, u64_bytes,
};
use crate::error::LendingError;

verus! {

/// An operation as a mathematical value: the fields that travel on the wire,
/// with every 32-byte value and the callback data as a byte sequence.
pub enum LendingInstructionView {
    InitLendingMarket { owner: Seq<u8>, quote_currency: Seq<u8> },
    SetLendingMarketOwner { new_owner: Seq<u8> },
    InitReserve { total_mining_speed: u64, kink_util_rate: u64, use_pyth_oracle: bool, is_lp: bool },
    RefreshReserve,
    DepositReserveLiquidity { liquidity_amount: u64 },
    RedeemReserveCollateral { collateral_amount: u64 },
    InitObligation,
    RefreshObligation,
    DepositObligationCollateral { collateral_amount: u64 },
    WithdrawObligationCollateral { collateral_amount: u64 },
    BorrowObligationLiquidity { liquidity_amount: u64 },
    RepayObligationLiquidity { liquidity_amount: u64 },
    LiquidateObligation { liquidity_amount: u64 },
    FlashLoan { amount: u64, call_back_data: Seq<u8> },
    SetConfig,
    InitMining,
    RefreshMining,
    DepositMining { amount: u64 },
    WithdrawMining { amount: u64 },
    ClaimMiningMine,
    ClaimObligationMine,
    ClaimOwnerFee,
    ReceivePendingOwner,
    RefreshReserves,
    LiquidateObligation2 { liquidity_amount: u64 },
    ClaimMine { claim_times: u16, claim_ratio: u16 },
}

impl LendingInstructionView {
    /// Every 32-byte field holds exactly 32 bytes.
    pub open spec fn wf(self) -> bool {
        match self {
            LendingInstructionView::InitLendingMarket { owner, quote_currency } => owner.len() == 32
                && quote_currency.len() == 32,
            LendingInstructionView::SetLendingMarketOwner { new_owner } => new_owner.len() == 32,
            _ => true,
        }
    }

    /// The tag byte that selects this operation.
    pub open spec fn tag(self) -> u8 {
        match self {
            LendingInstructionView::InitLendingMarket { .. } => 0,
            LendingInstructionView::SetLendingMarketOwner { .. } => 1,
            LendingInstructionView::InitReserve { .. } => 2,
            LendingInstructionView::RefreshReserve => 3,
            LendingInstructionView::DepositReserveLiquidity { .. } => 4,
            LendingInstructionView::RedeemReserveCollateral { .. } => 5,
            LendingInstructionView::InitObligation => 6,
            LendingInstructionView::RefreshObligation => 7,
            LendingInstructionView::DepositObligationCollateral { .. } => 8,
            LendingInstructionView::WithdrawObligationCollateral { .. } => 9,
            LendingInstructionView::BorrowObligationLiquidity { .. } => 10,
            LendingInstructionView::RepayObligationLiquidity { .. } => 11,
            LendingInstructionView::LiquidateObligation { .. } => 12,
            LendingInstructionView::FlashLoan { .. } => 13,
            LendingInstructionView::SetConfig => 14,
            LendingInstructionView::InitMining => 16,
            LendingInstructionView::RefreshMining => 17,
            LendingInstructionView::DepositMining { .. } => 18,
            LendingInstructionView::WithdrawMining { .. } => 19,
            LendingInstructionView::ClaimMiningMine => 20,
            LendingInstructionView::ClaimObligationMine => 21,
            LendingInstructionView::ClaimOwnerFee => 22,
            LendingInstructionView::ReceivePendingOwner => 23,
            LendingInstructionView::RefreshReserves => 24,
            LendingInstructionView::LiquidateObligation2 { .. } => 25,
            LendingInstructionView::ClaimMine { .. } => 26,
        }
    }
}

/// Number of payload bytes that the fixed fields of a tag occupy; `None` for a
/// tag that selects no operation. Tag 15 is a gap in the numbering.
pub open spec fn payload_len(tag: u8) -> Option<nat> {
    if tag == 0 {
        Some(64)
    } else if tag == 1 {
        Some(32)
    } else if tag == 2 {
        Some(50)
    } else if tag == 4 || tag == 5 || (8 <= tag <= 13) || tag == 18 || tag == 19 || tag == 25 {
        Some(8)
    } else if tag == 26 {
        Some(4)
    } else if tag <= 24 && tag != 15 {
        Some(0)
    } else {
        None
    }
}

/// Number of bytes at the start of the payload of tag 2 that once held
/// configuration values: seven bytes, three 64-bit numbers and one more byte.
/// They are read past and not kept.
pub open spec fn legacy_len() -> nat {
    32
}

/// The error of the first field of `tag` that `payload` does not hold, in the
/// order of the fields; `None` where every field is there. Only tag 2 has
/// fields that can be present and still wrong: its two booleans.
pub open spec fn first_fault(tag: u8, payload: Seq<u8>) -> Option<LendingError>
    recommends
        payload_len(tag) is Some,
{
    if tag == 2 {
        if payload.len() < 49 {
            Some(LendingError::TruncatedInput)
        } else if payload[48] > 1 {
            Some(LendingError::InvalidFieldEncoding)
        } else if payload.len() < 50 {
            Some(LendingError::TruncatedInput)
        } else if payload[49] > 1 {
            Some(LendingError::InvalidFieldEncoding)
        } else {
            None
        }
    } else if payload.len() < payload_len(tag).unwrap() {
        Some(LendingError::TruncatedInput)
    } else {
        None
    }
}

/// The operation that `payload` holds under `tag`, each field read at its
/// offset. Bytes after the last field are ignored, except under tag 13, where
/// they are the callback data, however many there are.
pub open spec fn operation(tag: u8, payload: Seq<u8>) -> LendingInstructionView
    recommends
        payload_len(tag) is Some,
        first_fault(tag, payload) is None,
{
    if tag == 0 {
        LendingInstructionView::InitLendingMarket {
            owner: payload.subrange(0, 32),
            quote_currency: payload.subrange(32, 64),
        }
    } else if tag == 1 {
        LendingInstructionView::SetLendingMarketOwner { new_owner: payload.subrange(0, 32) }
    } else if tag == 2 {
        LendingInstructionView::InitReserve {
            total_mining_speed: u64_at(payload, 32),
            kink_util_rate: u64_at(payload, 40),
            use_pyth_oracle: payload[48] == 1,
            is_lp: payload[49] == 1,
        }
    } else if tag == 3 {
        LendingInstructionView::RefreshReserve
    } else if tag == 4 {
        LendingInstructionView::DepositReserveLiquidity { liquidity_amount: u64_at(payload, 0) }
    } else if tag == 5 {
        LendingInstructionView::RedeemReserveCollateral { collateral_amount: u64_at(payload, 0) }
    } else if tag == 6 {
        LendingInstructionView::InitObligation
    } else if tag == 7 {
        LendingInstructionView::RefreshObligation
    } else if tag == 8 {
        LendingInstructionView::DepositObligationCollateral { collateral_amount: u64_at(payload, 0) }
    } else if tag == 9 {
        LendingInstructionView::WithdrawObligationCollateral {
            collateral_amount: u64_at(payload, 0),
        }
    } else if tag == 10 {
        LendingInstructionView::BorrowObligationLiquidity { liquidity_amount: u64_at(payload, 0) }
    } else if tag == 11 {
        LendingInstructionView::RepayObligationLiquidity { liquidity_amount: u64_at(payload, 0) }
    } else if tag == 12 {
        LendingInstructionView::LiquidateObligation { liquidity_amount: u64_at(payload, 0) }
    } else if tag == 13 {
        LendingInstructionView::FlashLoan {
            amount: u64_at(payload, 0),
            call_back_data: payload.skip(8),
        }
    } else if tag == 14 {
        LendingInstructionView::SetConfig
    } else if tag == 16 {
        LendingInstructionView::InitMining
    } else if tag == 17 {
        LendingInstructionView::RefreshMining
    } else if tag == 18 {
        LendingInstructionView::DepositMining { amount: u64_at(payload, 0) }
    } else if tag == 19 {
        LendingInstructionView::WithdrawMining { amount: u64_at(payload, 0) }
    } else if tag == 20 {
        LendingInstructionView::ClaimMiningMine
    } else if tag == 21 {
        LendingInstructionView::ClaimObligationMine
    } else if tag == 22 {
        LendingInstructionView::ClaimOwnerFee
    } else if tag == 23 {
        LendingInstructionView::ReceivePendingOwner
    } else if tag == 24 {
        LendingInstructionView::RefreshReserves
    } else if tag == 25 {
        LendingInstructionView::LiquidateObligation2 { liquidity_amount: u64_at(payload, 0) }
    } else {
        // tag 26, the last one assigned
        LendingInstructionView::ClaimMine {
            claim_times: u16_at(payload, 0),
            claim_ratio: u16_at(payload, 2),
        }
    }
}

/// What a buffer decodes to: the operation it holds, or the reason it holds
/// none.
pub open spec fn decode(bytes: Seq<u8>) -> Result<LendingInstructionView, LendingError> {
    if bytes.len() == 0 {
        Err(LendingError::MissingTag)
    } else if payload_len(bytes[0]) is None {
        Err(LendingError::UnrecognizedOperation)
    } else {
        match first_fault(bytes[0], bytes.skip(1)) {
            Some(e) => Err(e),
            None => Ok(operation(bytes[0], bytes.skip(1))),
        }
    }
}

/// The fields of an operation in wire order, without the tag byte. The legacy
/// bytes of tag 2 are written as zeros.
pub open spec fn payload(op: LendingInstructionView) -> Seq<u8> {
    match op {
        LendingInstructionView::InitLendingMarket { owner, quote_currency } => owner
            + quote_currency,
        LendingInstructionView::SetLendingMarketOwner { new_owner } => new_owner,
        LendingInstructionView::InitReserve {
            total_mining_speed,
            kink_util_rate,
            use_pyth_oracle,
            is_lp,
        } => Seq::new(legacy_len(), |i: int| 0u8) + u64_bytes(total_mining_speed) + u64_bytes(
            kink_util_rate,
        ) + seq![bool_byte(use_pyth_oracle), bool_byte(is_lp)],
        LendingInstructionView::DepositReserveLiquidity { liquidity_amount } => u64_bytes(
            liquidity_amount,
        ),
        LendingInstructionView::RedeemReserveCollateral { collateral_amount } => u64_bytes(
            collateral_amount,
        ),
        LendingInstructionView::DepositObligationCollateral { collateral_amount } => u64_bytes(
            collateral_amount,
        ),
        LendingInstructionView::WithdrawObligationCollateral { collateral_amount } => u64_bytes(
            collateral_amount,
        ),
        LendingInstructionView::BorrowObligationLiquidity { liquidity_amount } => u64_bytes(
            liquidity_amount,
        ),
        LendingInstructionView::RepayObligationLiquidity { liquidity_amount } => u64_bytes(
            liquidity_amount,
        ),
        LendingInstructionView::LiquidateObligation { liquidity_amount } => u64_bytes(
            liquidity_amount,
        ),
        LendingInstructionView::FlashLoan { amount, call_back_data } => u64_bytes(amount)
            + call_back_data,
        LendingInstructionView::DepositMining { amount } => u64_bytes(amount),
        LendingInstructionView::WithdrawMining { amount } => u64_bytes(amount),
        LendingInstructionView::LiquidateObligation2 { liquidity_amount } => u64_bytes(
            liquidity_amount,
        ),
        LendingInstructionView::ClaimMine { claim_times, claim_ratio } => u16_bytes(claim_times)
            + u16_bytes(claim_ratio),
        _ => Seq::empty(),
    }
}

/// The canonical buffer of an operation: its tag byte, then its fields.
pub open spec fn encode(op: LendingInstructionView) -> Seq<u8> {
    seq![op.tag()] + payload(op)
}

/// A buffer that holds an operation and nothing else: no byte follows the
/// last field (under tag 13 every byte after the amount is callback data), and
/// the legacy bytes of tag 2 are zero, as `encode` writes them.
pub open spec fn canonical(bytes: Seq<u8>) -> bool {
    &&& bytes.len() > 0
    &&& payload_len(bytes[0]) matches Some(n) && (bytes.len() == 1 + n || (bytes[0] == 13
        && bytes.len() >= 1 + n))
    &&& bytes[0] == 2 ==> forall|i: int| 1 <= i <= legacy_len() ==> bytes[i] == 0
}

/// An empty buffer has no tag byte, so decoding it reports `MissingTag`.
pub proof fn lemma_empty_buffer_has_no_tag(bytes: Seq<u8>)
    requires
        bytes.len() == 0,
    ensures
        decode(bytes) == Err::<LendingInstructionView, LendingError>(LendingError::MissingTag),
{
}

/// Tag 15 and every tag above 26 select no operation: a buffer that starts
/// with one is refused as `UnrecognizedOperation`, whatever follows.
pub proof fn lemma_unassigned_tag_is_refused(bytes: Seq<u8>)
    requires
        bytes.len() > 0,
        bytes[0] == 15 || bytes[0] > 26,
    ensures
        decode(bytes) == Err::<LendingInstructionView, LendingError>(
            LendingError::UnrecognizedOperation,
        ),
{
}

/// A buffer with an assigned tag and fewer payload bytes than the tag's fixed
/// fields occupy is refused as `TruncatedInput`. The one exception is left out:
/// under tag 2, a payload that ends with the first boolean and holds neither 0
/// nor 1 there is refused for that byte before the missing one is looked for.
pub proof fn lemma_short_payload_is_truncated(bytes: Seq<u8>)
    requires
        bytes.len() > 0,
        payload_len(bytes[0]) matches Some(n) && bytes.len() < 1 + n,
        !(bytes[0] == 2 && bytes.len() == 50 && bytes[49] > 1),
    ensures
        decode(bytes) == Err::<LendingInstructionView, LendingError>(LendingError::TruncatedInput),
{
}

/// Whatever decodes is well formed: each 32-byte field has 32 bytes.
pub proof fn lemma_decoded_is_well_formed(bytes: Seq<u8>)
    ensures
        decode(bytes) matches Ok(op) ==> op.wf(),
{
}

/// The tag fixes the operation: whatever decodes carries the tag that the
/// buffer starts with.
pub proof fn lemma_decoded_tag_is_first_byte(bytes: Seq<u8>)
    ensures
        decode(bytes) matches Ok(op) ==> bytes.len() > 0 && op.tag() == bytes[0],
{
}

/// Under tag 13 every byte after the amount is callback data: a buffer with
/// at least the eight bytes of the amount decodes, whatever follows them, and
/// the callback data are the bytes that follow, none added and none dropped.
pub proof fn lemma_flash_loan_takes_the_rest(bytes: Seq<u8>)
    requires
        bytes.len() >= 9,
        bytes[0] == 13,
    ensures
        decode(bytes) == Ok::<LendingInstructionView, LendingError>(
            LendingInstructionView::FlashLoan {
                amount: u64_at(bytes, 1),
                call_back_data: bytes.skip(9),
            },
        ),
{
    assert(bytes.skip(1).skip(8) =~= bytes.skip(9));
}

/// The legacy bytes of tag 2 do not reach the result: two buffers of that tag
/// that agree after them decode alike.
pub proof fn lemma_init_reserve_ignores_legacy_bytes(a: Seq<u8>, b: Seq<u8>)
    requires
        a.len() > 0,
        a[0] == 2,
        b.len() == a.len(),
        b[0] == 2,
        forall|i: int| 1 + legacy_len() <= i < a.len() ==> a[i] == b[i],
    ensures
        decode(a) == decode(b),
{
}

/// Decoding inverts encoding: the canonical buffer of every operation decodes
/// to that operation.
pub proof fn lemma_decode_encode(op: LendingInstructionView)
    requires
        op.wf(),
    ensures
        decode(encode(op)) == Ok::<LendingInstructionView, LendingError>(op),
{
    let bytes = encode(op);
    let body = payload(op);
    assert(bytes.skip(1) =~= body);
    match op {
        LendingInstructionView::InitLendingMarket { owner, quote_currency } => {
            assert(body.subrange(0, 32) =~= owner);
            assert(body.subrange(32, 64) =~= quote_currency);
        },
        LendingInstructionView::SetLendingMarketOwner { new_owner } => {
            assert(body.subrange(0, 32) =~= new_owner);
        },
        LendingInstructionView::InitReserve {
            total_mining_speed,
            kink_util_rate,
            use_pyth_oracle,
            is_lp,
        } => {
            lemma_u64_value_round_trip(total_mining_speed);
            lemma_u64_value_round_trip(kink_util_rate);
            assert(u64_at(body, 32) == u64_at(u64_bytes(total_mining_speed), 0));
            assert(u64_at(body, 40) == u64_at(u64_bytes(kink_util_rate), 0));
        },
        LendingInstructionView::DepositReserveLiquidity { liquidity_amount } => {
            lemma_u64_value_round_trip(liquidity_amount);
        },
        LendingInstructionView::RedeemReserveCollateral { collateral_amount } => {
            lemma_u64_value_round_trip(collateral_amount);
        },
        LendingInstructionView::DepositObligationCollateral { collateral_amount } => {
            lemma_u64_value_round_trip(collateral_amount);
        },
        LendingInstructionView::WithdrawObligationCollateral { collateral_amount } => {
            lemma_u64_value_round_trip(collateral_amount);
        },
        LendingInstructionView::BorrowObligationLiquidity { liquidity_amount } => {
            lemma_u64_value_round_trip(liquidity_amount);
        },
        LendingInstructionView::RepayObligationLiquidity { liquidity_amount } => {
            lemma_u64_value_round_trip(liquidity_amount);
        },
        LendingInstructionView::LiquidateObligation { liquidity_amount } => {
            lemma_u64_value_round_trip(liquidity_amount);
        },
        LendingInstructionView::FlashLoan { amount, call_back_data } => {
            lemma_u64_value_round_trip(amount);
            assert(u64_at(body, 0) == u64_at(u64_bytes(amount), 0));
            assert(body.skip(8) =~= call_back_data);
        },
        LendingInstructionView::DepositMining { amount } => {
            lemma_u64_value_round_trip(amount);
        },
        LendingInstructionView::WithdrawMining { amount } => {
            lemma_u64_value_round_trip(amount);
        },
        LendingInstructionView::LiquidateObligation2 { liquidity_amount } => {
            lemma_u64_value_round_trip(liquidity_amount);
        },
        LendingInstructionView::ClaimMine { claim_times, claim_ratio } => {
            lemma_u16_value_round_trip(claim_times);
            lemma_u16_value_round_trip(claim_ratio);
            assert(u16_at(body, 0) == u16_at(u16_bytes(claim_times), 0));
            assert(u16_at(body, 2) == u16_at(u16_bytes(claim_ratio), 0));
        },
        _ => {},
    }
}

/// Encoding inverts decoding on canonical buffers: a buffer that decodes and
/// holds nothing but the operation is the buffer that encoding the operation
/// gives back.
pub proof fn lemma_encode_decode(bytes: Seq<u8>)
    requires
        canonical(bytes),
        decode(bytes) is Ok,
    ensures
        decode(bytes) matches Ok(op) && encode(op) == bytes,
{
    let tag = bytes[0];
    let body = bytes.skip(1);
    let op = operation(tag, body);
    if tag == 2 {
        lemma_u64_bytes_round_trip(body, 32);
        lemma_u64_bytes_round_trip(body, 40);
        assert(payload(op) =~= body);
    } else if tag == 26 {
        lemma_u16_bytes_round_trip(body, 0);
        lemma_u16_bytes_round_trip(body, 2);
        assert(payload(op) =~= body);
    } else if payload_len(tag) == Some(8nat) {
        lemma_u64_bytes_round_trip(body, 0);
        assert(payload(op) =~= body);
    } else {
        assert(payload(op) =~= body);
    }
    assert(encode(op) =~= bytes);
}

} // verus!
