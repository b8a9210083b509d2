//! What a builder hands back: the program to call, the accounts it will touch
//! in the order the program indexes them, and the packed instruction data.
use vstd::prelude::*;
use crate::pubkey::Pubkey;

verus! {

/// One account that an instruction touches, with the access it asks for.
#[derive(Clone, Copy, Debug, PartialEq, Eq)]
pub struct AccountMeta {
    /// The identity of the account.
    pub pubkey: Pubkey,
    /// Whether the transaction must carry this account's signature.
    pub is_signer: bool,
    /// Whether the program may change the account.
    pub is_writable: bool,
}

/// An account reference as a mathematical value.
#[verifier::ext_equal]
pub struct AccountMetaView {
    pub pubkey: Seq<u8>,
    pub is_signer: bool,
    pub is_writable: bool,
}

/// A reference to an account that the program may change.
pub open spec fn writable(pubkey: Seq<u8>, is_signer: bool) -> AccountMetaView {
    AccountMetaView { pubkey, is_signer, is_writable: true }
}

/// A reference to an account that the program only reads.
pub open spec fn readonly(pubkey: Seq<u8>, is_signer: bool) -> AccountMetaView {
    AccountMetaView { pubkey, is_signer, is_writable: false }
}

impl View for AccountMeta {
    type V = AccountMetaView;

    open spec fn view(&self) -> AccountMetaView {
        AccountMetaView {
            pubkey: self.pubkey@,
            is_signer: self.is_signer,
            is_writable: self.is_writable,
        }
    }
}

impl AccountMeta {
    /// A reference to a writable account.
    pub fn new(pubkey: Pubkey, is_signer: bool) -> (meta: AccountMeta)
        ensures
            meta@ == writable(pubkey@, is_signer),
    {
        AccountMeta { pubkey, is_signer, is_writable: true }
    }

    /// A reference to a read-only account.
    pub fn new_readonly(pubkey: Pubkey, is_signer: bool) -> (meta: AccountMeta)
        ensures
            meta@ == readonly(pubkey@, is_signer),
    {
        AccountMeta { pubkey, is_signer, is_writable: false }
    }
}

/// The views of a list of account references, in the same order.
pub open spec fn account_views(accounts: Seq<AccountMeta>) -> Seq<AccountMetaView> {
    Seq::new(accounts.len(), |i: int| accounts[i]@)
}

/// An instruction ready to be placed in a transaction.
#[derive(Clone, Debug, PartialEq, Eq)]
pub struct Instruction {
    /// The program that executes the instruction.
    pub program_id: Pubkey,
    /// The accounts handed to the program. The program addresses them by
    /// position, so their order is part of the instruction.
    pub accounts: Vec<AccountMeta>,
    /// The packed operation.
    pub data: Vec<u8>,
}

/// An instruction as a mathematical value.
#[verifier::ext_equal]
pub struct InstructionView {
    pub program_id: Seq<u8>,
    pub accounts: Seq<AccountMetaView>,
    pub data: Seq<u8>,
}

impl View for Instruction {
    type V = InstructionView;

    open spec fn view(&self) -> InstructionView {
        InstructionView {
            program_id: self.program_id@,
            accounts: account_views(self.accounts@),
            data: self.data@,
        }
    }
}

} // verus!
