//! The operations of the lending program, their decoder and encoder, and the
//! builders that assemble a full instruction for the client-facing ones.
use vstd::prelude::*;
use crate::codec::{
    pack_bool, pack_bytes32, pack_pubkey, pack_u16, pack_u64, pack_u8, unpack_bool,
    unpack_bytes32, unpack_pubkey, unpack_u16, unpack_u64, unpack_u8,
};
use crate::error::LendingError;
use crate::message::{
    account_views, readonly, writable, AccountMeta, AccountMetaView, Instruction, InstructionView,
};
use crate::pubkey::{find_program_address, program_address, spl_token_id, token_program_id, Pubkey};
use crate::wire::{
    decode, encode, first_fault, legacy_len, lemma_decode_encode, operation,
    LendingInstructionView,
};

verus! {

/// Instructions supported by the lending program. The number above each
/// variant is its tag byte; the list under it gives the accounts that the
/// program expects, in order.
#[derive(Clone, Debug, PartialEq, Eq)]
pub enum LendingInstruction {
    // 0
    /// Initializes a new lending market.
    ///
    ///   0. `[signer]` Init lending market authority.
    ///   1. `[writable]` Lending market account, uninitialized.
    ///   2. `[]` Rent sysvar.
    ///   3. `[]` Token program id.
    ///   4. `[]` Pyth oracle program id.
    ///   5. `[]` Larix oracle program id.
    ///   6. `[]` Larix oracle id.
    InitLendingMarket {
        /// Owner authority which can add new reserves.
        owner: Pubkey,
        /// Currency that market prices are quoted in: a null-padded name such
        /// as "USD", or the identity of a token mint.
        quote_currency: [u8; 32],
    },
    // 1
    /// Sets the new owner of a lending market.
    ///
    ///   0. `[writable]` Lending market account.
    ///   1. `[signer]` Current owner.
    SetLendingMarketOwner {
        /// The new owner.
        new_owner: Pubkey,
    },
    // 2
    /// Initializes a new lending market reserve. On the wire, 32 bytes of
    /// retired configuration precede the fields kept here.
    ///
    ///   0. `[writable]` Reserve account, uninitialized.
    ///   1. `[]` Reserve liquidity token mint.
    ///   2. `[]` Reserve liquidity supply token account.
    ///   3. `[]` Reserve liquidity fee receiver.
    ///   4. `[]` Pyth product account (any account for a liquidity-pool reserve).
    ///   5. `[]` Pyth price account (bridge pool account for a liquidity-pool reserve).
    ///   6. `[]` Larix oracle account (pool price account for a liquidity-pool reserve).
    ///   7. `[]` Reserve collateral token mint.
    ///   8. `[]` Reserve collateral token supply.
    ///   9. `[]` Lending market account.
    ///   10. `[signer]` Lending market owner.
    ///   11. `[]` Uncollateralized supply account.
    ///   12. `[]` Clock sysvar.
    ///   13. `[]` Rent sysvar.
    ///   14. `[]` Token program id.
    InitReserve {
        /// Mining speed of the whole reserve.
        total_mining_speed: u64,
        /// Utilization rate at which the interest curve bends.
        kink_util_rate: u64,
        /// Whether prices come from the Pyth oracle.
        use_pyth_oracle: bool,
        /// Whether the reserve holds liquidity-pool tokens.
        is_lp: bool,
    },
    // 3
    /// Accrues interest and updates the market price of liquidity on a reserve.
    ///
    ///   0. `[writable]` Reserve account.
    ///   1. `[]` Reserve liquidity oracle account.
    ///   2. `[]` Larix oracle.
    RefreshReserve,
    // 4
    /// Deposits liquidity into a reserve in exchange for collateral.
    ///
    ///   0. `[writable]` Source liquidity token account.
    ///   1. `[writable]` Destination collateral token account.
    ///   2. `[writable]` Reserve account.
    ///   3. `[writable]` Reserve collateral token mint.
    ///   4. `[writable]` Reserve liquidity supply token account.
    ///   5. `[]` Lending market account.
    ///   6. `[]` Derived lending market authority.
    ///   7. `[signer]` User transfer authority.
    ///   8. `[]` Token program id.
    DepositReserveLiquidity {
        /// Amount of liquidity to deposit in exchange for collateral tokens.
        liquidity_amount: u64,
    },
    // 5
    /// Redeems collateral from a reserve in exchange for liquidity.
    ///
    ///   0. `[writable]` Source collateral token account.
    ///   1. `[writable]` Reserve account.
    ///   2. `[writable]` Reserve collateral token mint.
    ///   3. `[writable]` Reserve liquidity supply token account.
    ///   4. `[]` Lending market account.
    ///   5. `[]` Derived lending market authority.
    ///   6. `[signer]` User transfer authority.
    ///   7. `[]` Token program id.
    ///   8. `[writable]` Destination liquidity token account.
    RedeemReserveCollateral {
        /// Amount of collateral tokens to redeem in exchange for liquidity.
        collateral_amount: u64,
    },
    // 6
    /// Initializes a new lending market obligation.
    ///
    ///   0. `[writable]` Obligation account, uninitialized.
    ///   1. `[]` Lending market account.
    ///   2. `[signer]` Obligation owner.
    ///   3. `[]` Token program id.
    InitObligation,
    // 7
    /// Refreshes an obligation's accrued interest and prices.
    ///
    ///   0. `[writable]` Obligation account.
    ///   .. `[]` Collateral deposit reserve accounts, refreshed, all, in order.
    ///   .. `[]` Liquidity borrow reserve accounts, refreshed, all, in order.
    RefreshObligation,
    // 8
    /// Deposits collateral to an obligation.
    ///
    ///   0. `[writable]` Source collateral token account.
    ///   1. `[writable]` Destination deposit reserve collateral supply token account.
    ///   2. `[]` Deposit reserve account, refreshed.
    ///   3. `[writable]` Obligation account.
    ///   4. `[]` Lending market account.
    ///   5. `[]` Derived lending market authority.
    ///   6. `[signer]` Obligation owner.
    ///   7. `[signer]` User transfer authority.
    ///   8. `[]` Token program id.
    ///   .. `[]` Reserve accounts of the obligation, in order.
    DepositObligationCollateral {
        /// Amount of collateral tokens to deposit.
        collateral_amount: u64,
    },
    // 9
    /// Withdraws collateral from an obligation.
    ///
    ///   0. `[writable]` Source collateral token account.
    ///   1. `[writable]` Destination collateral token account.
    ///   2. `[]` Withdraw reserve account, refreshed.
    ///   3. `[writable]` Obligation account.
    ///   4. `[]` Lending market account.
    ///   5. `[]` Derived lending market authority.
    ///   6. `[signer]` Obligation owner.
    ///   7. `[]` Token program id.
    WithdrawObligationCollateral {
        /// Amount of collateral tokens to withdraw; `u64::MAX` for all of it.
        collateral_amount: u64,
    },
    // 10
    /// Borrows liquidity from a reserve against deposited collateral. The last
    /// two accounts are unused: they keep the account count equal to that of
    /// a liquidation.
    ///
    ///   0. `[writable]` Source borrow reserve liquidity supply token account.
    ///   1. `[writable]` Destination liquidity token account.
    ///   2. `[writable]` Borrow reserve account, refreshed.
    ///   3. `[writable]` Obligation account, refreshed.
    ///   4. `[]` Lending market account.
    ///   5. `[]` Derived lending market authority.
    ///   6. `[signer]` Obligation owner.
    ///   7. `[]` Token program id.
    ///   8. `[writable]` Borrow fee receiver.
    ///   9. `[]` Larix oracle program account.
    ///   10. `[]` Mine mint account.
    BorrowObligationLiquidity {
        /// Amount of liquidity to borrow; `u64::MAX` for all borrowing power.
        liquidity_amount: u64,
    },
    // 11
    /// Repays borrowed liquidity to a reserve.
    ///
    ///   0. `[writable]` Source liquidity token account.
    ///   1. `[writable]` Destination repay reserve liquidity supply token account.
    ///   2. `[writable]` Repay reserve account, refreshed.
    ///   3. `[writable]` Obligation account, refreshed.
    ///   4. `[]` Lending market account.
    ///   5. `[signer]` User transfer authority.
    ///   6. `[]` Token program id.
    RepayObligationLiquidity {
        /// Amount of liquidity to repay; `u64::MAX` for the whole debt.
        liquidity_amount: u64,
    },
    // 12
    /// Repays borrowed liquidity of an unhealthy obligation to receive its
    /// collateral at a discount.
    ///
    ///   0. `[writable]` Source liquidity token account.
    ///   1. `[writable]` Destination collateral token account.
    ///   2. `[writable]` Repay reserve account, refreshed.
    ///   3. `[writable]` Repay reserve liquidity supply token account.
    ///   4. `[]` Withdraw reserve account, refreshed.
    ///   5. `[writable]` Withdraw reserve collateral supply token account.
    ///   6. `[writable]` Obligation account, refreshed.
    ///   7. `[]` Lending market account.
    ///   8. `[]` Derived lending market authority.
    ///   9. `[signer]` User transfer authority.
    ///   10. `[]` Clock sysvar.
    ///   11. `[]` Token program id.
    LiquidateObligation {
        /// Amount of liquidity to repay; `u64::MAX` for the whole debt.
        liquidity_amount: u64,
    },
    // 13
    /// Makes a flash loan.
    ///
    ///   0. `[writable]` Source liquidity token account.
    ///   1. `[writable]` Destination liquidity token account.
    ///   2. `[writable]` Reserve account.
    ///   3. `[writable]` Flash loan fee receiver account.
    ///   4. `[writable]` Host fee receiver.
    ///   5. `[]` Lending market account.
    ///   6. `[]` Derived lending market authority.
    ///   7. `[]` Token program id.
    ///   8. `[]` Flash loan receiver program id.
    ///   9. `[signer]` Flash loan authority.
    ///   .. `[any]` Accounts that the receiving program expects.
    FlashLoan {
        /// The amount to borrow; `u64::MAX` for all available liquidity.
        amount: u64,
        /// Bytes handed to the receiving program as they are: everything
        /// that follows the amount on the wire.
        call_back_data: Vec<u8>,
    },
    // 14
    /// Changes the configuration of a reserve. Its payload is not read.
    SetConfig,
    // 16
    /// Initializes a mining account.
    ///
    ///   0. `[]` Mining account.
    ///   1. `[signer]` Mining owner.
    ///   2. `[]` Lending market account.
    InitMining,
    // 17
    /// Refreshes a mining account.
    ///
    ///   0. `[]` Mining account.
    ///   .. `[]` Reserves in mining.
    RefreshMining,
    // 18
    /// Deposits into a mining account.
    ///
    ///   0. `[writable]` Source account.
    ///   1. `[writable]` Uncollateralized deposit supply token account.
    ///   2. `[writable]` Mining account.
    ///   3. `[]` Bonus account.
    ///   4. `[]` Lending market account.
    ///   5. `[]` Mining owner.
    ///   6. `[signer]` User transfer authority.
    ///   7. `[]` Token program id.
    DepositMining {
        /// Amount to deposit.
        amount: u64,
    },
    // 19
    /// Withdraws from a mining account.
    ///
    ///   0. `[writable]` Source account.
    ///   1. `[writable]` Uncollateralized deposit supply token account.
    ///   2. `[writable]` Mining account.
    ///   3. `[writable]` Reserve account.
    ///   4. `[]` Lending market account.
    ///   5. `[]` Derived lending market authority.
    ///   6. `[]` Mining owner.
    ///   7. `[]` Token program id.
    WithdrawMining {
        /// Amount to withdraw.
        amount: u64,
    },
    // 20
    /// Claims the mining reward of a mining account.
    ///
    ///   0. `[writable]` Mining account.
    ///   1. `[]` Mine supply.
    ///   2. `[]` Destination account.
    ///   3. `[signer]` Mining owner.
    ///   4. `[]` Lending market account.
    ///   5. `[]` Lending market authority.
    ///   6. `[]` Token program id.
    ///   .. `[]` Reserves.
    ClaimMiningMine,
    // 21
    /// Claims the mining reward of an obligation.
    ///
    ///   0. `[writable]` Obligation account.
    ///   1. `[writable]` Mine supply.
    ///   2. `[writable]` Destination account.
    ///   3. `[]` Obligation owner.
    ///   4. `[]` Lending market account.
    ///   5. `[]` Lending market authority.
    ///   6. `[]` Token program id.
    ClaimObligationMine,
    // 22
    /// Claims the fee that a reserve has collected for the market owner.
    ///
    ///   0. `[]` Source account (liquidity supply account).
    ///   1. `[]` Destination account.
    ///   2. `[]` Lending market account.
    ///   3. `[signer]` Lending market owner.
    ClaimOwnerFee,
    // 23
    /// Completes a change of the market owner.
    ///
    ///   0. `[writable]` Lending market account.
    ///   1. `[signer]` Pending owner.
    ReceivePendingOwner,
    // 24
    /// Refreshes several reserves at once. The accounts come in pairs, one
    /// pair per reserve:
    ///
    ///   `[writable]` Reserve account.
    ///   `[]` Oracle account of that reserve.
    RefreshReserves,
    // 25
    /// Liquidates as `LiquidateObligation` does, without the clock sysvar.
    ///
    ///   0. `[writable]` Source liquidity token account.
    ///   1. `[writable]` Destination collateral token account.
    ///   2. `[writable]` Repay reserve account, refreshed.
    ///   3. `[writable]` Repay reserve liquidity supply token account.
    ///   4. `[]` Withdraw reserve account, refreshed.
    ///   5. `[writable]` Withdraw reserve collateral supply token account.
    ///   6. `[writable]` Obligation account, refreshed.
    ///   7. `[]` Lending market account.
    ///   8. `[]` Derived lending market authority.
    ///   9. `[signer]` User transfer authority.
    ///   10. `[]` Token program id.
    LiquidateObligation2 {
        /// Amount of liquidity to repay; `u64::MAX` for the whole debt.
        liquidity_amount: u64,
    },
    // 26
    /// Claims mining rewards of a mining account and an obligation together.
    ///
    ///   0. `[]` Token program id.
    ///   1. `[]` Lending market account.
    ///   2. `[]` Lending market authority.
    ///   3. `[signer]` Owner.
    ///   4. `[]` Mining account.
    ///   5. `[]` Obligation account (may be left out).
    ///   6. `[]` Destination account.
    ///   7. `[]` Source account.
    ClaimMine {
        /// How many times the reward the user expects, in percent.
        claim_times: u16,
        /// Share of the user's reward to claim, in hundredths of a percent.
        claim_ratio: u16,
    },
}

impl View for LendingInstruction {
    type V = LendingInstructionView;

    open spec fn view(&self) -> LendingInstructionView {
        match *self {
            LendingInstruction::InitLendingMarket {
                owner,
                quote_currency,
            } => LendingInstructionView::InitLendingMarket {
                owner: owner@,
                quote_currency: quote_currency@,
            },
            LendingInstruction::SetLendingMarketOwner {
                new_owner,
            } => LendingInstructionView::SetLendingMarketOwner { new_owner: new_owner@ },
            LendingInstruction::InitReserve {
                total_mining_speed,
                kink_util_rate,
                use_pyth_oracle,
                is_lp,
            } => LendingInstructionView::InitReserve {
                total_mining_speed,
                kink_util_rate,
                use_pyth_oracle,
                is_lp,
            },
            LendingInstruction::RefreshReserve => LendingInstructionView::RefreshReserve,
            LendingInstruction::DepositReserveLiquidity {
                liquidity_amount,
            } => LendingInstructionView::DepositReserveLiquidity { liquidity_amount },
            LendingInstruction::RedeemReserveCollateral {
                collateral_amount,
            } => LendingInstructionView::RedeemReserveCollateral { collateral_amount },
            LendingInstruction::InitObligation => LendingInstructionView::InitObligation,
            LendingInstruction::RefreshObligation => LendingInstructionView::RefreshObligation,
            LendingInstruction::DepositObligationCollateral {
                collateral_amount,
            } => LendingInstructionView::DepositObligationCollateral { collateral_amount },
            LendingInstruction::WithdrawObligationCollateral {
                collateral_amount,
            } => LendingInstructionView::WithdrawObligationCollateral { collateral_amount },
            LendingInstruction::BorrowObligationLiquidity {
                liquidity_amount,
            } => LendingInstructionView::BorrowObligationLiquidity { liquidity_amount },
            LendingInstruction::RepayObligationLiquidity {
                liquidity_amount,
            } => LendingInstructionView::RepayObligationLiquidity { liquidity_amount },
            LendingInstruction::LiquidateObligation {
                liquidity_amount,
            } => LendingInstructionView::LiquidateObligation { liquidity_amount },
            LendingInstruction::FlashLoan {
                amount,
                call_back_data,
            } => LendingInstructionView::FlashLoan { amount, call_back_data: call_back_data@ },
            LendingInstruction::SetConfig => LendingInstructionView::SetConfig,
            LendingInstruction::InitMining => LendingInstructionView::InitMining,
            LendingInstruction::RefreshMining => LendingInstructionView::RefreshMining,
            LendingInstruction::DepositMining { amount } => LendingInstructionView::DepositMining {
                amount,
            },
            LendingInstruction::WithdrawMining {
                amount,
            } => LendingInstructionView::WithdrawMining { amount },
            LendingInstruction::ClaimMiningMine => LendingInstructionView::ClaimMiningMine,
            LendingInstruction::ClaimObligationMine => LendingInstructionView::ClaimObligationMine,
            LendingInstruction::ClaimOwnerFee => LendingInstructionView::ClaimOwnerFee,
            LendingInstruction::ReceivePendingOwner => LendingInstructionView::ReceivePendingOwner,
            LendingInstruction::RefreshReserves => LendingInstructionView::RefreshReserves,
            LendingInstruction::LiquidateObligation2 {
                liquidity_amount,
            } => LendingInstructionView::LiquidateObligation2 { liquidity_amount },
            LendingInstruction::ClaimMine {
                claim_times,
                claim_ratio,
            } => LendingInstructionView::ClaimMine { claim_times, claim_ratio },
        }
    }
}

impl LendingInstruction {
    /// Unpacks a byte buffer into a `LendingInstruction`: the first byte is
    /// the tag, the fields follow in the order and width that the tag fixes.
    /// The result is what `decode` says of the buffer, error for error.
    pub fn unpack(input: &[u8]) -> (r: Result<Self, LendingError>)
        ensures
            match r {
                Ok(op) => decode(input@) == Ok::<LendingInstructionView, LendingError>(op@),
                Err(e) => decode(input@) == Err::<LendingInstructionView, LendingError>(e),
            },
    {
        if input.len() == 0 {
            return Err(LendingError::MissingTag);
        }
        let (head, rest) = input.split_at(1);
        let tag: u8 = head[0];
        Ok(
            match tag {
                0 => {
                    let ghost payload = rest@;
                    let (owner, rest) = unpack_pubkey(rest)?;
                    let (quote_currency, _rest) = unpack_bytes32(rest)?;
                    assert(quote_currency@ =~= payload.subrange(32, 64));
                    Self::InitLendingMarket { owner, quote_currency }
                },
                1 => {
                    let (new_owner, _rest) = unpack_pubkey(rest)?;
                    Self::SetLendingMarketOwner { new_owner }
                },
                2 => Self::unpack_init_reserve(rest)?,
                3 => Self::RefreshReserve,
                4 => {
                    let (liquidity_amount, _rest) = unpack_u64(rest)?;
                    Self::DepositReserveLiquidity { liquidity_amount }
                },
                5 => {
                    let (collateral_amount, _rest) = unpack_u64(rest)?;
                    Self::RedeemReserveCollateral { collateral_amount }
                },
                6 => Self::InitObligation,
                7 => Self::RefreshObligation,
                8 => {
                    let (collateral_amount, _rest) = unpack_u64(rest)?;
                    Self::DepositObligationCollateral { collateral_amount }
                },
                9 => {
                    let (collateral_amount, _rest) = unpack_u64(rest)?;
                    Self::WithdrawObligationCollateral { collateral_amount }
                },
                10 => {
                    let (liquidity_amount, _rest) = unpack_u64(rest)?;
                    Self::BorrowObligationLiquidity { liquidity_amount }
                },
                11 => {
                    let (liquidity_amount, _rest) = unpack_u64(rest)?;
                    Self::RepayObligationLiquidity { liquidity_amount }
                },
                12 => {
                    let (liquidity_amount, _rest) = unpack_u64(rest)?;
                    Self::LiquidateObligation { liquidity_amount }
                },
                13 => {
                    let (amount, rest) = unpack_u64(rest)?;
                    let mut call_back_data = Vec::with_capacity(rest.len());
                    call_back_data.extend_from_slice(rest);
                    assert(call_back_data@ =~= rest@);
                    Self::FlashLoan { amount, call_back_data }
                },
                14 => Self::SetConfig,
                16 => Self::InitMining,
                17 => Self::RefreshMining,
                18 => {
                    let (amount, _rest) = unpack_u64(rest)?;
                    Self::DepositMining { amount }
                },
                19 => {
                    let (amount, _rest) = unpack_u64(rest)?;
                    Self::WithdrawMining { amount }
                },
                20 => Self::ClaimMiningMine,
                21 => Self::ClaimObligationMine,
                22 => Self::ClaimOwnerFee,
                23 => Self::ReceivePendingOwner,
                24 => Self::RefreshReserves,
                25 => {
                    let (liquidity_amount, _rest) = unpack_u64(rest)?;
                    Self::LiquidateObligation2 { liquidity_amount }
                },
                26 => {
                    let (claim_times, rest) = unpack_u16(rest)?;
                    let (claim_ratio, _rest) = unpack_u16(rest)?;
                    Self::ClaimMine { claim_times, claim_ratio }
                },
                _ => {
                    return Err(LendingError::UnrecognizedOperation);
                },
            },
        )
    }

    /// Reads past the retired configuration at the start of the payload of
    /// tag 2: seven bytes, three 64-bit numbers and one more byte. Each is
    /// read in turn, so that a payload too short for them is refused; none is
    /// kept.
    fn skip_legacy_config(payload: &[u8]) -> (r: Result<&[u8], LendingError>)
        ensures
            match r {
                Ok(rest) => payload@.len() >= legacy_len() && rest@ == payload@.skip(
                    legacy_len() as int,
                ),
                Err(e) => payload@.len() < legacy_len() && e == LendingError::TruncatedInput,
            },
    {
        let (_optimal_utilization_rate, rest) = unpack_u8(payload)?;
        let (_loan_to_value_ratio, rest) = unpack_u8(rest)?;
        let (_liquidation_bonus, rest) = unpack_u8(rest)?;
        let (_liquidation_threshold, rest) = unpack_u8(rest)?;
        let (_min_borrow_rate, rest) = unpack_u8(rest)?;
        let (_optimal_borrow_rate, rest) = unpack_u8(rest)?;
        let (_max_borrow_rate, rest) = unpack_u8(rest)?;
        assert(rest@ =~= payload@.skip(7));
        let (_borrow_fee_wad, rest) = unpack_u64(rest)?;
        let (_reserve_owner_fee_wad, rest) = unpack_u64(rest)?;
        let (_flash_loan_fee_wad, rest) = unpack_u64(rest)?;
        assert(rest@ =~= payload@.skip(31));
        let (_host_fee_percentage, rest) = unpack_u8(rest)?;
        assert(rest@ =~= payload@.skip(32));
        Ok(rest)
    }

    /// Unpacks the payload of tag 2: the retired configuration, which is
    /// dropped, then the two numbers and the two booleans that are kept.
    fn unpack_init_reserve(payload: &[u8]) -> (r: Result<Self, LendingError>)
        ensures
            match r {
                Ok(op) => first_fault(2, payload@) is None && op@ == operation(2, payload@),
                Err(e) => first_fault(2, payload@) == Some(e),
            },
    {
        let rest = Self::skip_legacy_config(payload)?;
        let (total_mining_speed, rest) = unpack_u64(rest)?;
        assert(rest@ =~= payload@.skip(40));
        let (kink_util_rate, rest) = unpack_u64(rest)?;
        assert(rest@ =~= payload@.skip(48));
        let (use_pyth_oracle, rest) = unpack_bool(rest)?;
        assert(rest@ =~= payload@.skip(49));
        let (is_lp, _rest) = unpack_bool(rest)?;
        Ok(Self::InitReserve { total_mining_speed, kink_util_rate, use_pyth_oracle, is_lp })
    }

    /// Packs the instruction into its canonical buffer: the tag byte, then
    /// each field in wire order. Every variant has one, and unpacking it gives
    /// the instruction back.
    pub fn pack(&self) -> (buf: Vec<u8>)
        ensures
            buf@ == encode(self@),
            decode(buf@) == Ok::<LendingInstructionView, LendingError>(self@),
    {
        let mut buf: Vec<u8> = Vec::new();
        match self {
            Self::InitLendingMarket { owner, quote_currency } => {
                buf.push(0);
                pack_pubkey(owner, &mut buf);
                pack_bytes32(quote_currency, &mut buf);
            },
            Self::SetLendingMarketOwner { new_owner } => {
                buf.push(1);
                pack_pubkey(new_owner, &mut buf);
            },
            Self::InitReserve { total_mining_speed, kink_util_rate, use_pyth_oracle, is_lp } => {
                buf.push(2);
                pack_bytes32(&[0u8; 32], &mut buf);
                pack_u64(*total_mining_speed, &mut buf);
                pack_u64(*kink_util_rate, &mut buf);
                pack_bool(*use_pyth_oracle, &mut buf);
                pack_bool(*is_lp, &mut buf);
            },
            Self::RefreshReserve => {
                buf.push(3);
            },
            Self::DepositReserveLiquidity { liquidity_amount } => {
                buf.push(4);
                pack_u64(*liquidity_amount, &mut buf);
            },
            Self::RedeemReserveCollateral { collateral_amount } => {
                buf.push(5);
                pack_u64(*collateral_amount, &mut buf);
            },
            Self::InitObligation => {
                buf.push(6);
            },
            Self::RefreshObligation => {
                buf.push(7);
            },
            Self::DepositObligationCollateral { collateral_amount } => {
                buf.push(8);
                pack_u64(*collateral_amount, &mut buf);
            },
            Self::WithdrawObligationCollateral { collateral_amount } => {
                buf.push(9);
                pack_u64(*collateral_amount, &mut buf);
            },
            Self::BorrowObligationLiquidity { liquidity_amount } => {
                buf.push(10);
                pack_u64(*liquidity_amount, &mut buf);
            },
            Self::RepayObligationLiquidity { liquidity_amount } => {
                buf.push(11);
                pack_u64(*liquidity_amount, &mut buf);
            },
            Self::LiquidateObligation { liquidity_amount } => {
                buf.push(12);
                pack_u64(*liquidity_amount, &mut buf);
            },
            Self::FlashLoan { amount, call_back_data } => {
                buf.push(13);
                pack_u64(*amount, &mut buf);
                buf.extend_from_slice(call_back_data.as_slice());
            },
            Self::SetConfig => {
                buf.push(14);
            },
            Self::InitMining => {
                buf.push(16);
            },
            Self::RefreshMining => {
                buf.push(17);
            },
            Self::DepositMining { amount } => {
                buf.push(18);
                pack_u64(*amount, &mut buf);
            },
            Self::WithdrawMining { amount } => {
                buf.push(19);
                pack_u64(*amount, &mut buf);
            },
            Self::ClaimMiningMine => {
                buf.push(20);
            },
            Self::ClaimObligationMine => {
                buf.push(21);
            },
            Self::ClaimOwnerFee => {
                buf.push(22);
            },
            Self::ReceivePendingOwner => {
                buf.push(23);
            },
            Self::RefreshReserves => {
                buf.push(24);
            },
            Self::LiquidateObligation2 { liquidity_amount } => {
                buf.push(25);
                pack_u64(*liquidity_amount, &mut buf);
            },
            Self::ClaimMine { claim_times, claim_ratio } => {
                buf.push(26);
                pack_u16(*claim_times, &mut buf);
                pack_u16(*claim_ratio, &mut buf);
            },
        }
        assert(buf@ =~= encode(self@));
        proof {
            lemma_decode_encode(self@);
        }
        buf
    }
}

/// The account list of `refresh_reserves`: for each reserve, in the order
/// given, the reserve as a writable account and then its oracle as a
/// read-only one.
pub open spec fn paired_accounts(reserves: Seq<Pubkey>, oracles: Seq<Pubkey>) -> Seq<
    AccountMetaView,
> {
    Seq::new(
        2 * reserves.len(),
        |k: int|
            if k % 2 == 0 {
                writable(reserves[k / 2]@, false)
            } else {
                readonly(oracles[k / 2]@, false)
            },
    )
}

/// The accounts that close a list whose tail the caller supplies: each key, in
/// the order given, as a read-only account that does not sign.
pub open spec fn readonly_accounts(keys: Seq<Pubkey>) -> Seq<AccountMetaView> {
    Seq::new(keys.len(), |k: int| readonly(keys[k]@, false))
}

/// The paired account list interleaves its two inputs and keeps their order:
/// reserve `i` stands at position `2 * i`, writable, and its oracle right
/// after it, read-only; the list has two entries per reserve. Equal keys are
/// not merged.
pub proof fn lemma_paired_accounts_interleave(reserves: Seq<Pubkey>, oracles: Seq<Pubkey>, i: int)
    requires
        reserves.len() == oracles.len(),
        0 <= i < reserves.len(),
    ensures
        paired_accounts(reserves, oracles).len() == 2 * reserves.len(),
        paired_accounts(reserves, oracles)[2 * i] == writable(reserves[i]@, false),
        paired_accounts(reserves, oracles)[2 * i + 1] == readonly(oracles[i]@, false),
{
}

/// Appends each of `keys` to `accounts` as a read-only account, in order.
fn push_readonly_accounts(accounts: &mut Vec<AccountMeta>, keys: &Vec<Pubkey>)
    ensures
        account_views(final(accounts)@) == account_views(old(accounts)@) + readonly_accounts(keys@),
{
    let mut i: usize = 0;
    while i < keys.len()
        invariant
            i <= keys.len(),
            accounts@.len() == old(accounts)@.len() + i,
            forall|k: int| 0 <= k < old(accounts)@.len() ==> accounts@[k] == old(accounts)@[k],
            forall|k: int|
                0 <= k < i ==> (#[trigger] accounts@[old(accounts)@.len() + k])@ == readonly(
                    keys@[k]@,
                    false,
                ),
        decreases keys.len() - i,
    {
        accounts.push(AccountMeta::new_readonly(keys[i], false));
        i += 1;
    }
    assert(account_views(accounts@) =~= account_views(old(accounts)@) + readonly_accounts(keys@))
        by {
        assert forall|k: int| 0 <= k < accounts@.len() implies account_views(accounts@)[k] == (
        account_views(old(accounts)@) + readonly_accounts(keys@))[k] by {
            if k >= old(accounts)@.len() {
                let j = k - old(accounts)@.len();
                assert(accounts@[old(accounts)@.len() + j]@ == readonly(keys@[j]@, false));
            }
        }
    }
}

/// Creates a `RefreshReserves` instruction for the given reserves, each with
/// its oracle: `oracles[i]` belongs to `reserves[i]`. The two lists must be of
/// one length; otherwise nothing is built.
pub fn refresh_reserves(program_id: Pubkey, reserves: Vec<Pubkey>, oracles: Vec<Pubkey>) -> (r:
    Result<Instruction, LendingError>)
    ensures
        match r {
            Ok(ix) => reserves@.len() == oracles@.len() && ix@ == (InstructionView {
                program_id: program_id@,
                accounts: paired_accounts(reserves@, oracles@),
                data: encode(LendingInstructionView::RefreshReserves),
            }),
            Err(e) => reserves@.len() != oracles@.len() && e
                == LendingError::ResourceListLengthMismatch,
        },
{
    if reserves.len() != oracles.len() {
        return Err(LendingError::ResourceListLengthMismatch);
    }
    let mut accounts: Vec<AccountMeta> = Vec::new();
    let mut i: usize = 0;
    while i < reserves.len()
        invariant
            i <= reserves.len(),
            reserves.len() == oracles.len(),
            accounts@.len() == 2 * i,
            forall|k: int|
                0 <= k < 2 * i ==> (#[trigger] accounts@[k])@ == paired_accounts(
                    reserves@,
                    oracles@,
                )[k],
        decreases reserves.len() - i,
    {
        accounts.push(AccountMeta::new(reserves[i], false));
        accounts.push(AccountMeta::new_readonly(oracles[i], false));
        i += 1;
    }
    let ix = Instruction { program_id, accounts, data: LendingInstruction::RefreshReserves.pack() };
    Ok(ix)
}

/// Creates a `DepositReserveLiquidity` instruction.
pub fn deposit_reserve_liquidity(
    program_id: Pubkey,
    liquidity_amount: u64,
    source_liquidity_pubkey: Pubkey,
    destination_collateral_pubkey: Pubkey,
    reserve_pubkey: Pubkey,
    reserve_collateral_mint_pubkey: Pubkey,
    reserve_liquidity_supply_pubkey: Pubkey,
    lending_market_pubkey: Pubkey,
    lending_market_authority_pubkey: Pubkey,
    user_transfer_authority_pubkey: Pubkey,
) -> (ix: Instruction)
    ensures
        ix@ == (InstructionView {
            program_id: program_id@,
            accounts: seq![
                writable(source_liquidity_pubkey@, false),
                writable(destination_collateral_pubkey@, false),
                writable(reserve_pubkey@, false),
                writable(reserve_collateral_mint_pubkey@, false),
                writable(reserve_liquidity_supply_pubkey@, false),
                readonly(lending_market_pubkey@, false),
                readonly(lending_market_authority_pubkey@, false),
                readonly(user_transfer_authority_pubkey@, true),
                readonly(token_program_id(), false),
            ],
            data: encode(LendingInstructionView::DepositReserveLiquidity { liquidity_amount }),
        }),
{
    Instruction {
        program_id,
        accounts: vec![
            AccountMeta::new(source_liquidity_pubkey, false),
            AccountMeta::new(destination_collateral_pubkey, false),
            AccountMeta::new(reserve_pubkey, false),
            AccountMeta::new(reserve_collateral_mint_pubkey, false),
            AccountMeta::new(reserve_liquidity_supply_pubkey, false),
            AccountMeta::new_readonly(lending_market_pubkey, false),
            AccountMeta::new_readonly(lending_market_authority_pubkey, false),
            AccountMeta::new_readonly(user_transfer_authority_pubkey, true),
            AccountMeta::new_readonly(spl_token_id(), false),
        ],
        data: LendingInstruction::DepositReserveLiquidity { liquidity_amount }.pack(),
    }
}

/// Creates a `RedeemReserveCollateral` instruction.
pub fn redeem_reserve_collateral(
    program_id: Pubkey,
    collateral_amount: u64,
    source_collateral_pubkey: Pubkey,
    destination_liquidity_pubkey: Pubkey,
    reserve_pubkey: Pubkey,
    reserve_collateral_mint_pubkey: Pubkey,
    reserve_liquidity_supply_pubkey: Pubkey,
    lending_market_pubkey: Pubkey,
    lending_market_authority_pubkey: Pubkey,
    user_transfer_authority_pubkey: Pubkey,
) -> (ix: Instruction)
    ensures
        ix@ == (InstructionView {
            program_id: program_id@,
            accounts: seq![
                writable(source_collateral_pubkey@, false),
                writable(reserve_pubkey@, false),
                writable(reserve_collateral_mint_pubkey@, false),
                writable(reserve_liquidity_supply_pubkey@, false),
                readonly(lending_market_pubkey@, false),
                readonly(lending_market_authority_pubkey@, false),
                readonly(user_transfer_authority_pubkey@, true),
                readonly(token_program_id(), false),
                writable(destination_liquidity_pubkey@, false),
            ],
            data: encode(LendingInstructionView::RedeemReserveCollateral { collateral_amount }),
        }),
{
    Instruction {
        program_id,
        accounts: vec![
            AccountMeta::new(source_collateral_pubkey, false),
            AccountMeta::new(reserve_pubkey, false),
            AccountMeta::new(reserve_collateral_mint_pubkey, false),
            AccountMeta::new(reserve_liquidity_supply_pubkey, false),
            AccountMeta::new_readonly(lending_market_pubkey, false),
            AccountMeta::new_readonly(lending_market_authority_pubkey, false),
            AccountMeta::new_readonly(user_transfer_authority_pubkey, true),
            AccountMeta::new_readonly(spl_token_id(), false),
            AccountMeta::new(destination_liquidity_pubkey, false),
        ],
        data: LendingInstruction::RedeemReserveCollateral { collateral_amount }.pack(),
    }
}

/// Creates an `InitObligation` instruction.
pub fn init_obligation(
    program_id: Pubkey,
    obligation_pubkey: Pubkey,
    lending_market_pubkey: Pubkey,
    obligation_owner_pubkey: Pubkey,
) -> (ix: Instruction)
    ensures
        ix@ == (InstructionView {
            program_id: program_id@,
            accounts: seq![
                writable(obligation_pubkey@, false),
                readonly(lending_market_pubkey@, false),
                readonly(obligation_owner_pubkey@, true),
                readonly(token_program_id(), false),
            ],
            data: encode(LendingInstructionView::InitObligation),
        }),
{
    Instruction {
        program_id,
        accounts: vec![
            AccountMeta::new(obligation_pubkey, false),
            AccountMeta::new_readonly(lending_market_pubkey, false),
            AccountMeta::new_readonly(obligation_owner_pubkey, true),
            AccountMeta::new_readonly(spl_token_id(), false),
        ],
        data: LendingInstruction::InitObligation.pack(),
    }
}

/// Creates a `RefreshObligation` instruction. The reserves follow the
/// obligation in the order given.
pub fn refresh_obligation(
    program_id: Pubkey,
    obligation_pubkey: Pubkey,
    reserve_pubkeys: Vec<Pubkey>,
) -> (ix: Instruction)
    ensures
        ix@ == (InstructionView {
            program_id: program_id@,
            accounts: seq![writable(obligation_pubkey@, false)] + readonly_accounts(
                reserve_pubkeys@,
            ),
            data: encode(LendingInstructionView::RefreshObligation),
        }),
{
    let mut accounts = vec![AccountMeta::new(obligation_pubkey, false)];
    push_readonly_accounts(&mut accounts, &reserve_pubkeys);
    Instruction { program_id, accounts, data: LendingInstruction::RefreshObligation.pack() }
}

/// Creates a `DepositObligationCollateral` instruction. The reserves follow
/// the nine fixed accounts in the order given.
pub fn deposit_obligation_collateral(
    program_id: Pubkey,
    collateral_amount: u64,
    source_collateral_pubkey: Pubkey,
    destination_collateral_pubkey: Pubkey,
    deposit_reserve_pubkey: Pubkey,
    obligation_pubkey: Pubkey,
    lending_market_pubkey: Pubkey,
    lending_market_authority_pubkey: Pubkey,
    obligation_owner_pubkey: Pubkey,
    user_transfer_authority_pubkey: Pubkey,
    reserve_pubkeys: Vec<Pubkey>,
) -> (ix: Instruction)
    ensures
        ix@ == (InstructionView {
            program_id: program_id@,
            accounts: seq![
                writable(source_collateral_pubkey@, false),
                writable(destination_collateral_pubkey@, false),
                readonly(deposit_reserve_pubkey@, false),
                writable(obligation_pubkey@, false),
                readonly(lending_market_pubkey@, false),
                readonly(lending_market_authority_pubkey@, false),
                readonly(obligation_owner_pubkey@, true),
                readonly(user_transfer_authority_pubkey@, true),
                readonly(token_program_id(), false),
            ] + readonly_accounts(reserve_pubkeys@),
            data: encode(LendingInstructionView::DepositObligationCollateral { collateral_amount }),
        }),
{
    let mut accounts = vec![
        AccountMeta::new(source_collateral_pubkey, false),
        AccountMeta::new(destination_collateral_pubkey, false),
        AccountMeta::new_readonly(deposit_reserve_pubkey, false),
        AccountMeta::new(obligation_pubkey, false),
        AccountMeta::new_readonly(lending_market_pubkey, false),
        AccountMeta::new_readonly(lending_market_authority_pubkey, false),
        AccountMeta::new_readonly(obligation_owner_pubkey, true),
        AccountMeta::new_readonly(user_transfer_authority_pubkey, true),
        AccountMeta::new_readonly(spl_token_id(), false),
    ];
    assert(account_views(accounts@) =~= seq![
        writable(source_collateral_pubkey@, false),
        writable(destination_collateral_pubkey@, false),
        readonly(deposit_reserve_pubkey@, false),
        writable(obligation_pubkey@, false),
        readonly(lending_market_pubkey@, false),
        readonly(lending_market_authority_pubkey@, false),
        readonly(obligation_owner_pubkey@, true),
        readonly(user_transfer_authority_pubkey@, true),
        readonly(token_program_id(), false),
    ]);
    push_readonly_accounts(&mut accounts, &reserve_pubkeys);
    Instruction {
        program_id,
        accounts,
        data: LendingInstruction::DepositObligationCollateral { collateral_amount }.pack(),
    }
}

/// The instruction that withdraws collateral, given the authority that was
/// derived for the lending market.
pub open spec fn withdraw_obligation_collateral_view(
    program_id: Seq<u8>,
    collateral_amount: u64,
    source_collateral_pubkey: Seq<u8>,
    destination_collateral_pubkey: Seq<u8>,
    withdraw_reserve_pubkey: Seq<u8>,
    obligation_pubkey: Seq<u8>,
    lending_market_pubkey: Seq<u8>,
    lending_market_authority_pubkey: Seq<u8>,
    obligation_owner_pubkey: Seq<u8>,
) -> InstructionView {
    InstructionView {
        program_id,
        accounts: seq![
            writable(source_collateral_pubkey, false),
            writable(destination_collateral_pubkey, false),
            readonly(withdraw_reserve_pubkey, false),
            writable(obligation_pubkey, false),
            readonly(lending_market_pubkey, false),
            readonly(lending_market_authority_pubkey, false),
            readonly(obligation_owner_pubkey, true),
            readonly(token_program_id(), false),
        ],
        data: encode(LendingInstructionView::WithdrawObligationCollateral { collateral_amount }),
    }
}

/// Creates a `WithdrawObligationCollateral` instruction from an authority
/// that the caller has derived already.
pub fn withdraw_obligation_collateral_with_authority(
    program_id: Pubkey,
    collateral_amount: u64,
    source_collateral_pubkey: Pubkey,
    destination_collateral_pubkey: Pubkey,
    withdraw_reserve_pubkey: Pubkey,
    obligation_pubkey: Pubkey,
    lending_market_pubkey: Pubkey,
    lending_market_authority_pubkey: Pubkey,
    obligation_owner_pubkey: Pubkey,
) -> (ix: Instruction)
    ensures
        ix@ == withdraw_obligation_collateral_view(
            program_id@,
            collateral_amount,
            source_collateral_pubkey@,
            destination_collateral_pubkey@,
            withdraw_reserve_pubkey@,
            obligation_pubkey@,
            lending_market_pubkey@,
            lending_market_authority_pubkey@,
            obligation_owner_pubkey@,
        ),
{
    Instruction {
        program_id,
        accounts: vec![
            AccountMeta::new(source_collateral_pubkey, false),
            AccountMeta::new(destination_collateral_pubkey, false),
            AccountMeta::new_readonly(withdraw_reserve_pubkey, false),
            AccountMeta::new(obligation_pubkey, false),
            AccountMeta::new_readonly(lending_market_pubkey, false),
            AccountMeta::new_readonly(lending_market_authority_pubkey, false),
            AccountMeta::new_readonly(obligation_owner_pubkey, true),
            AccountMeta::new_readonly(spl_token_id(), false),
        ],
        data: LendingInstruction::WithdrawObligationCollateral { collateral_amount }.pack(),
    }
}

/// Creates a `WithdrawObligationCollateral` instruction. The lending market
/// authority is derived for `program_id` with the lending market's identity as
/// the seed. `None` is returned exactly where that derivation finds no
/// address.
pub fn withdraw_obligation_collateral(
    program_id: Pubkey,
    collateral_amount: u64,
    source_collateral_pubkey: Pubkey,
    destination_collateral_pubkey: Pubkey,
    withdraw_reserve_pubkey: Pubkey,
    obligation_pubkey: Pubkey,
    lending_market_pubkey: Pubkey,
    obligation_owner_pubkey: Pubkey,
) -> (r: Option<Instruction>)
    ensures
        match program_address(lending_market_pubkey@, program_id@) {
            Some((authority, _)) => r matches Some(ix) && ix@
                == withdraw_obligation_collateral_view(
                program_id@,
                collateral_amount,
                source_collateral_pubkey@,
                destination_collateral_pubkey@,
                withdraw_reserve_pubkey@,
                obligation_pubkey@,
                lending_market_pubkey@,
                authority,
                obligation_owner_pubkey@,
            ),
            None => r is None,
        },
{
    match find_program_address(&lending_market_pubkey, &program_id) {
        Some((lending_market_authority_pubkey, _bump_seed)) => Some(
            withdraw_obligation_collateral_with_authority(
                program_id,
                collateral_amount,
                source_collateral_pubkey,
                destination_collateral_pubkey,
                withdraw_reserve_pubkey,
                obligation_pubkey,
                lending_market_pubkey,
                lending_market_authority_pubkey,
                obligation_owner_pubkey,
            ),
        ),
        None => None,
    }
}

/// Creates a `BorrowObligationLiquidity` instruction.
pub fn borrow_obligation_liquidity(
    program_id: Pubkey,
    liquidity_amount: u64,
    source_liquidity_pubkey: Pubkey,
    destination_liquidity_pubkey: Pubkey,
    borrow_reserve_pubkey: Pubkey,
    borrow_reserve_liquidity_fee_receiver_pubkey: Pubkey,
    obligation_pubkey: Pubkey,
    lending_market_pubkey: Pubkey,
    lending_market_authority_pubkey: Pubkey,
    obligation_owner_pubkey: Pubkey,
    larix_oracle_program_pubkey: Pubkey,
    mine_mint_pubkey: Pubkey,
) -> (ix: Instruction)
    ensures
        ix@ == (InstructionView {
            program_id: program_id@,
            accounts: seq![
                writable(source_liquidity_pubkey@, false),
                writable(destination_liquidity_pubkey@, false),
                writable(borrow_reserve_pubkey@, false),
                writable(obligation_pubkey@, false),
                readonly(lending_market_pubkey@, false),
                readonly(lending_market_authority_pubkey@, false),
                readonly(obligation_owner_pubkey@, true),
                readonly(token_program_id(), false),
                writable(borrow_reserve_liquidity_fee_receiver_pubkey@, false),
                readonly(larix_oracle_program_pubkey@, false),
                readonly(mine_mint_pubkey@, false),
            ],
            data: encode(LendingInstructionView::BorrowObligationLiquidity { liquidity_amount }),
        }),
{
    Instruction {
        program_id,
        accounts: vec![
            AccountMeta::new(source_liquidity_pubkey, false),
            AccountMeta::new(destination_liquidity_pubkey, false),
            AccountMeta::new(borrow_reserve_pubkey, false),
            AccountMeta::new(obligation_pubkey, false),
            AccountMeta::new_readonly(lending_market_pubkey, false),
            AccountMeta::new_readonly(lending_market_authority_pubkey, false),
            AccountMeta::new_readonly(obligation_owner_pubkey, true),
            AccountMeta::new_readonly(spl_token_id(), false),
            AccountMeta::new(borrow_reserve_liquidity_fee_receiver_pubkey, false),
            AccountMeta::new_readonly(larix_oracle_program_pubkey, false),
            AccountMeta::new_readonly(mine_mint_pubkey, false),
        ],
        data: LendingInstruction::BorrowObligationLiquidity { liquidity_amount }.pack(),
    }
}

/// Creates a `RepayObligationLiquidity` instruction.
pub fn repay_obligation_liquidity(
    program_id: Pubkey,
    liquidity_amount: u64,
    source_liquidity_pubkey: Pubkey,
    destination_liquidity_pubkey: Pubkey,
    repay_reserve_pubkey: Pubkey,
    obligation_pubkey: Pubkey,
    lending_market_pubkey: Pubkey,
    user_transfer_authority_pubkey: Pubkey,
) -> (ix: Instruction)
    ensures
        ix@ == (InstructionView {
            program_id: program_id@,
            accounts: seq![
                writable(source_liquidity_pubkey@, false),
                writable(destination_liquidity_pubkey@, false),
                writable(repay_reserve_pubkey@, false),
                writable(obligation_pubkey@, false),
                readonly(lending_market_pubkey@, false),
                readonly(user_transfer_authority_pubkey@, true),
                readonly(token_program_id(), false),
            ],
            data: encode(LendingInstructionView::RepayObligationLiquidity { liquidity_amount }),
        }),
{
    Instruction {
        program_id,
        accounts: vec![
            AccountMeta::new(source_liquidity_pubkey, false),
            AccountMeta::new(destination_liquidity_pubkey, false),
            AccountMeta::new(repay_reserve_pubkey, false),
            AccountMeta::new(obligation_pubkey, false),
            AccountMeta::new_readonly(lending_market_pubkey, false),
            AccountMeta::new_readonly(user_transfer_authority_pubkey, true),
            AccountMeta::new_readonly(spl_token_id(), false),
        ],
        data: LendingInstruction::RepayObligationLiquidity { liquidity_amount }.pack(),
    }
}

/// Creates a `ClaimObligationMine` instruction.
pub fn claim_obligation_mine(
    program_id: Pubkey,
    obligation_pubkey: Pubkey,
    mine_supply_pubkey: Pubkey,
    destination_account_pubkey: Pubkey,
    obligation_owner: Pubkey,
    lending_market_pubkey: Pubkey,
    lending_market_authority_pubkey: Pubkey,
) -> (ix: Instruction)
    ensures
        ix@ == (InstructionView {
            program_id: program_id@,
            accounts: seq![
                writable(obligation_pubkey@, false),
                writable(mine_supply_pubkey@, false),
                writable(destination_account_pubkey@, false),
                readonly(obligation_owner@, false),
                readonly(lending_market_pubkey@, false),
                readonly(lending_market_authority_pubkey@, false),
                readonly(token_program_id(), false),
            ],
            data: encode(LendingInstructionView::ClaimObligationMine),
        }),
{
    Instruction {
        program_id,
        accounts: vec![
            AccountMeta::new(obligation_pubkey, false),
            AccountMeta::new(mine_supply_pubkey, false),
            AccountMeta::new(destination_account_pubkey, false),
            AccountMeta::new_readonly(obligation_owner, false),
            AccountMeta::new_readonly(lending_market_pubkey, false),
            AccountMeta::new_readonly(lending_market_authority_pubkey, false),
            AccountMeta::new_readonly(spl_token_id(), false),
        ],
        data: LendingInstruction::ClaimObligationMine.pack(),
    }
}

} // verus!
