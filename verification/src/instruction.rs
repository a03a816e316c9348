//! Instructions as plain data, and the two that this client builds itself.

use vstd::prelude::*;

use crate::address::{system_program_bytes, token_program_bytes, Address};
use solana_program::pubkey::Pubkey;

verus! {

/// One account that an instruction names, and how the instruction uses it.
#[derive(Clone, Copy, Debug, PartialEq, Eq)]
pub struct AccountMeta {
    pub pubkey: Address,
    pub is_signer: bool,
    pub is_writable: bool,
}

/// What an [`AccountMeta`] stands for.
pub struct AccountMetaView {
    pub pubkey: Seq<u8>,
    pub is_signer: bool,
    pub is_writable: bool,
}

impl View for AccountMeta {
    type V = AccountMetaView;

    open spec fn view(&self) -> AccountMetaView {
        AccountMetaView {
            pubkey: self.pubkey@,
            is_signer: self.is_signer,
            is_writable: self.is_writable,
        }
    }
}

/// One instruction of a transaction: the program that runs it, the accounts it touches
/// and the bytes that the program reads.
#[derive(Debug, PartialEq, Eq)]
pub struct Instruction {
    pub program_id: Address,
    pub accounts: Vec<AccountMeta>,
    pub data: Vec<u8>,
}

/// What an [`Instruction`] stands for.
pub struct InstructionView {
    pub program_id: Seq<u8>,
    pub accounts: Seq<AccountMetaView>,
    pub data: Seq<u8>,
}

impl View for Instruction {
    type V = InstructionView;

    open spec fn view(&self) -> InstructionView {
        InstructionView {
            program_id: self.program_id@,
            accounts: self.accounts@.map_values(|m: AccountMeta| m@),
            data: self.data@,
        }
    }
}

/// A writable account that need not sign.
pub open spec fn writable(pubkey: Seq<u8>) -> AccountMetaView {
    AccountMetaView { pubkey, is_signer: false, is_writable: true }
}

/// A writable account whose signature the transaction carries.
pub open spec fn writable_signer(pubkey: Seq<u8>) -> AccountMetaView {
    AccountMetaView { pubkey, is_signer: true, is_writable: true }
}

/// The system program's transfer of `lamports` units of the native coin from `from` to
/// `to`: the instruction's tag 2 as four bytes, then the amount as eight, both
/// little-endian.
pub open spec fn transfer_instruction(from: Seq<u8>, to: Seq<u8>, lamports: u64) -> InstructionView {
    InstructionView {
        program_id: system_program_bytes(),
        accounts: seq![writable_signer(from), writable(to)],
        data: seq![2u8, 0u8, 0u8, 0u8] + vstd::bytes::spec_u64_to_le_bytes(lamports),
    }
}

/// The token program's instruction that brings the recorded balance of a wrapped-native
/// account in line with the coins it holds: the single byte 17.
pub open spec fn sync_native_instruction(account: Seq<u8>) -> InstructionView {
    InstructionView {
        program_id: token_program_bytes(),
        accounts: seq![writable(account)],
        data: seq![17u8],
    }
}

/// The views of a list of instructions, in order.
pub open spec fn views(instructions: Seq<Instruction>) -> Seq<InstructionView> {
    instructions.map_values(|ix: Instruction| ix@)
}

impl Clone for Instruction {
    fn clone(&self) -> (r: Instruction)
        ensures
            r@ == self@,
    {
        let mut accounts: Vec<AccountMeta> = Vec::new();
        let mut i: usize = 0;
        while i < self.accounts.len()
            invariant
                i <= self.accounts.len(),
                accounts.len() == i,
                forall|j: int| 0 <= j < i ==> accounts[j]@ == self.accounts[j]@,
            decreases self.accounts.len() - i,
        {
            accounts.push(self.accounts[i]);
            i += 1;
        }
        let mut data: Vec<u8> = Vec::new();
        let mut k: usize = 0;
        while k < self.data.len()
            invariant
                k <= self.data.len(),
                data.len() == k,
                forall|j: int| 0 <= j < k ==> data[j] == self.data[j],
            decreases self.data.len() - k,
        {
            data.push(self.data[k]);
            k += 1;
        }
        let r = Instruction { program_id: self.program_id, accounts, data };
        assert(r@.accounts =~= self@.accounts);
        assert(r.data@ =~= self.data@);
        r
    }
}

/// Copies a list of instructions.
pub fn copy_instructions(instructions: &Vec<Instruction>) -> (r: Vec<Instruction>)
    ensures
        views(r@) == views(instructions@),
{
    let mut out: Vec<Instruction> = Vec::new();
    let mut i: usize = 0;
    while i < instructions.len()
        invariant
            i <= instructions.len(),
            out.len() == i,
            forall|j: int| 0 <= j < i ==> out[j]@ == instructions[j]@,
        decreases instructions.len() - i,
    {
        out.push(instructions[i].clone());
        i += 1;
    }
    assert(views(out@) =~= views(instructions@));
    out
}

/// Calls `solana_program::system_instruction::transfer`, which names the payer as a
/// writable signer and the payee as writable, and serialises the `Transfer` variant
/// (the third of the system program's instructions) with its amount through bincode.
#[verifier::external_body]
pub(crate) fn system_transfer(from: &Address, to: &Address, lamports: u64) -> (r: Instruction)
    ensures
        r@ == transfer_instruction(from@, to@, lamports),
{
    let ix = solana_program::system_instruction::transfer(
        &Pubkey::new_from_array(from.bytes),
        &Pubkey::new_from_array(to.bytes),
        lamports,
    );
    Instruction {
        program_id: Address { bytes: ix.program_id.to_bytes() },
        accounts: ix.accounts.iter().map(|m| AccountMeta {
            pubkey: Address { bytes: m.pubkey.to_bytes() },
            is_signer: m.is_signer,
            is_writable: m.is_writable,
        }).collect(),
        data: ix.data,
    }
}

/// Calls `spl_token::instruction::sync_native` for the token program itself, which is the
/// one program identifier that the outside function accepts; it then names the account
/// as writable and packs the `SyncNative` variant as the byte 17.
#[verifier::external_body]
pub(crate) fn token_sync_native(account: &Address) -> (r: Option<Instruction>)
    ensures
        r.is_some(),
        r.unwrap()@ == sync_native_instruction(account@),
{
    let made = spl_token::instruction::sync_native(
        &spl_token::ID,
        &Pubkey::new_from_array(account.bytes),
    );
    made.ok().map(|ix| Instruction {
        program_id: Address { bytes: ix.program_id.to_bytes() },
        accounts: ix.accounts.iter().map(|m| AccountMeta {
            pubkey: Address { bytes: m.pubkey.to_bytes() },
            is_signer: m.is_signer,
            is_writable: m.is_writable,
        }).collect(),
        data: ix.data,
    })
}

} // verus!
