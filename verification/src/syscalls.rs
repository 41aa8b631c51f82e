//! What the host tells a program of the instructions that ran before it.

use vstd::prelude::*;
use crate::address::Address;

verus! {

/// Stack height when processing transaction-level instructions.
pub const TRANSACTION_LEVEL_STACK_HEIGHT: usize = 1;

/// An account of an instruction that was processed.
#[derive(Clone, Copy, Debug)]
pub struct ProcessedAccount {
    /// The address of the account.
    pub key: Address,
    /// Whether the account signed.
    pub is_signer: bool,
    /// Whether the account may be written.
    pub is_writable: bool,
}

/// An instruction that was processed before the one that is running, at
/// the same height of the stack.
pub struct ProcessedSiblingInstruction {
    /// Length of the data and number of the accounts.
    meta: [u64; 2],
    /// Data of the instruction.
    data: Vec<u8>,
    /// Accounts of the instruction.
    accounts: Vec<ProcessedAccount>,
    /// Program that processed the instruction.
    program_id: Address,
}

impl ProcessedSiblingInstruction {
    /// The data of the instruction.
    pub closed spec fn data(self) -> Seq<u8> {
        self.data@
    }

    /// The accounts of the instruction.
    pub closed spec fn account_list(self) -> Seq<ProcessedAccount> {
        self.accounts@
    }

    /// The program that processed the instruction.
    pub closed spec fn program(self) -> Address {
        self.program_id
    }

    /// The instruction as the host described it: `meta` holds the length of
    /// its data and the number of its accounts, and the two vectors hold at
    /// least as much, of which what goes beyond is dropped.
    pub fn new(
        meta: [u64; 2],
        data: Vec<u8>,
        accounts: Vec<ProcessedAccount>,
        program_id: Address,
    ) -> (sibling: ProcessedSiblingInstruction)
        requires
            meta[0] <= data@.len(),
            meta[1] <= accounts@.len(),
        ensures
            sibling.data() == data@.subrange(0, meta[0] as int),
            sibling.account_list() == accounts@.subrange(0, meta[1] as int),
            sibling.program() == program_id,
    {
        let mut data = data;
        let mut accounts = accounts;
        data.truncate(meta[0] as usize);
        accounts.truncate(meta[1] as usize);
        ProcessedSiblingInstruction { meta, data, accounts, program_id }
    }

    /// The accounts of the instruction.
    pub fn accounts(&self) -> (accounts: &[ProcessedAccount])
        ensures
            accounts@ == self.account_list(),
    {
        self.accounts.as_slice()
    }

    /// The data of the instruction.
    pub fn instruction_data(&self) -> (data: &[u8])
        ensures
            data@ == self.data(),
    {
        self.data.as_slice()
    }

    /// The address of the program that processed the instruction.
    pub fn program_id(&self) -> (program_id: &Address)
        ensures
            *program_id == self.program(),
    {
        &self.program_id
    }
}

} // verus!
