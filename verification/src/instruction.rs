//! Instructions for other programs, and the accounts that they name.

use vstd::prelude::*;
use crate::account::AccountView;
use crate::address::Address;

verus! {

/// An instruction for a program.
#[derive(Debug, Clone, Copy)]
pub struct InstructionView<'a, 'b, 'c, 'd> where 'a: 'b {
    /// Address of the program.
    pub program_id: &'c Address,
    /// Data that the program expects.
    pub data: &'d [u8],
    /// The accounts that the program is given, each with what it may do.
    pub accounts: &'b [AccountRole<'a>],
}

/// What an account may do while an instruction runs.
#[derive(Debug, Clone, Copy)]
pub struct AccountRole<'a> {
    /// Address of the account.
    pub address: &'a Address,
    /// Whether the account may be written.
    pub is_writable: bool,
    /// Whether the account signed the instruction.
    pub is_signer: bool,
}

impl<'a> AccountRole<'a> {
    /// The role of the account at `address` with the two rights as given.
    pub fn new(address: &'a Address, is_writable: bool, is_signer: bool) -> (role: Self)
        ensures
            role == (AccountRole { address, is_writable, is_signer }),
    {
        Self { address, is_writable, is_signer }
    }

    /// The role of an account that is only read.
    pub fn readonly(address: &'a Address) -> (role: Self)
        ensures
            role == (AccountRole { address, is_writable: false, is_signer: false }),
    {
        Self::new(address, false, false)
    }

    /// The role of an account that may be written.
    pub fn writable(address: &'a Address) -> (role: Self)
        ensures
            role == (AccountRole { address, is_writable: true, is_signer: false }),
    {
        Self::new(address, true, false)
    }

    /// The role of an account that signed and is only read.
    pub fn readonly_signer(address: &'a Address) -> (role: Self)
        ensures
            role == (AccountRole { address, is_writable: false, is_signer: true }),
    {
        Self::new(address, false, true)
    }

    /// The role of an account that signed and may be written.
    pub fn writable_signer(address: &'a Address) -> (role: Self)
        ensures
            role == (AccountRole { address, is_writable: true, is_signer: true }),
    {
        Self::new(address, true, true)
    }

    /// The role that the record of an account gives it.
    pub fn from(account: &'a AccountView) -> (role: Self)
        ensures
            *role.address == account@.header.key,
            role.is_writable <==> account@.header.is_writable != 0,
            role.is_signer <==> account@.header.is_signer != 0,
    {
        AccountRole::new(account.key(), account.is_writable(), account.is_signer())
    }
}

} // verus!
