//! The instructions of the transaction that is being processed, as the host
//! lays them out for a program to look at.
//!
//! The bytes start with the number of instructions and, for each of them,
//! the place where it starts; they end with the index of the instruction
//! that is running. All numbers take two bytes, the lower one first. An
//! instruction is the number of its accounts, then for each account one
//! byte of flags and its address, then the address of the program, then the
//! length of the data, then the data.

use vstd::prelude::*;
use vstd::slice::slice_subrange;
use core::ops::Deref;
use crate::account::AccountView;
use crate::address::{Address, ADDRESS_BYTES};
use crate::borrow_state::{after_acquire_read, can_read, DATA_SHIFT};
use crate::error::ProgramError;
use crate::handle::Ref;
use crate::instruction::AccountRole;

verus! {

/// The bytes of the address of the account that holds the instructions.
pub const INSTRUCTIONS_ID: [u8; 32] = [
    0x06, 0xa7, 0xd5, 0x17, 0x18, 0x7b, 0xd1, 0x66, 0x35, 0xda, 0xd4, 0x04, 0x55, 0xfd, 0xc2, 0xc0,
    0xc1, 0x24, 0xc6, 0x8f, 0x21, 0x56, 0x75, 0xa5, 0xdb, 0xba, 0xcb, 0x5f, 0x08, 0x00, 0x00, 0x00,
];

/// The flag of an account that signed.
pub const IS_SIGNER: u8 = 0b0000_0001;

/// The flag of an account that may be written.
pub const IS_WRITABLE: u8 = 0b0000_0010;

/// Number of bytes that one account takes in an instruction.
pub const ACCOUNT_META_LEN: usize = 33;

/// The number that two bytes at `at` spell, the lower byte first.
pub open spec fn le_u16(bytes: Seq<u8>, at: int) -> int {
    bytes[at] + 256 * bytes[at + 1]
}

/// Reads the number that two bytes at `at` spell, the lower byte first.
pub fn read_u16(bytes: &[u8], at: usize) -> (value: u16)
    requires
        at + 2 <= bytes@.len(),
    ensures
        value == le_u16(bytes@, at as int),
{
    bytes[at] as u16 + 256 * (bytes[at + 1] as u16)
}

/// Something that holds bytes and lends them out.
pub trait ByteView {
    /// The bytes that are held.
    spec fn bytes(&self) -> Seq<u8>;

    /// Lends the bytes out.
    fn as_bytes(&self) -> (bytes: &[u8])
        ensures
            bytes@ == self.bytes(),
    ;
}

impl ByteView for Vec<u8> {
    open spec fn bytes(&self) -> Seq<u8> {
        self@
    }

    fn as_bytes(&self) -> (bytes: &[u8]) {
        self.as_slice()
    }
}

impl<'a> ByteView for &'a [u8] {
    open spec fn bytes(&self) -> Seq<u8> {
        self@
    }

    fn as_bytes(&self) -> (bytes: &[u8]) {
        *self
    }
}

impl ByteView for Ref<Vec<u8>> {
    open spec fn bytes(&self) -> Seq<u8> {
        self@@
    }

    fn as_bytes(&self) -> (bytes: &[u8]) {
        self.deref().as_slice()
    }
}

/// Number of the accounts of the instruction that starts `raw`.
pub open spec fn num_accounts(raw: Seq<u8>) -> int {
    le_u16(raw, 0)
}

/// Where the address of the program stands in the instruction.
pub open spec fn program_id_at(raw: Seq<u8>) -> int {
    2 + ACCOUNT_META_LEN * num_accounts(raw)
}

/// Where the length of the data stands in the instruction.
pub open spec fn data_len_at(raw: Seq<u8>) -> int {
    program_id_at(raw) + ADDRESS_BYTES
}

/// Where the data stand in the instruction.
pub open spec fn data_at(raw: Seq<u8>) -> int {
    data_len_at(raw) + 2
}

/// Whether `raw` starts with a whole instruction.
pub open spec fn holds_instruction(raw: Seq<u8>) -> bool {
    &&& 2 <= raw.len()
    &&& data_at(raw) <= raw.len()
    &&& data_at(raw) + le_u16(raw, data_len_at(raw)) <= raw.len()
}

/// Number of the instructions that `data` list.
pub open spec fn num_instructions(data: Seq<u8>) -> int {
    le_u16(data, 0)
}

/// Where the instruction `index` starts, as `data` list it.
pub open spec fn instruction_start(data: Seq<u8>, index: int) -> int {
    le_u16(data, 2 + 2 * index)
}

/// The bytes of `data` from the start of instruction `index` on, where
/// `data` list that instruction and hold it whole.
pub open spec fn instruction_at(data: Seq<u8>, index: int) -> Option<Seq<u8>> {
    if 2 <= data.len() && 0 <= index < num_instructions(data) && 2 + 2 * index + 2 <= data.len()
        && instruction_start(data, index) <= data.len() && holds_instruction(
        data.subrange(instruction_start(data, index), data.len() as int),
    ) {
        Some(data.subrange(instruction_start(data, index), data.len() as int))
    } else {
        None
    }
}

/// One account of an instruction, as the instruction names it.
#[derive(Clone, Copy, Debug)]
pub struct IntrospectedAccountMeta {
    /// The flags of the account: bit 0 for a signer, bit 1 for writable.
    pub flags: u8,
    /// The address of the account.
    pub key: Address,
}

impl IntrospectedAccountMeta {
    /// Whether the account may be written.
    pub fn is_writable(&self) -> (yes: bool)
        ensures
            yes <==> self.flags & IS_WRITABLE != 0,
    {
        (self.flags & IS_WRITABLE) != 0
    }

    /// Whether the account signed.
    pub fn is_signer(&self) -> (yes: bool)
        ensures
            yes <==> self.flags & IS_SIGNER != 0,
    {
        (self.flags & IS_SIGNER) != 0
    }

    /// The role that the instruction gives to the account.
    pub fn to_account_meta(&self) -> (role: AccountRole<'_>)
        ensures
            *role.address == self.key,
            role.is_writable <==> self.flags & IS_WRITABLE != 0,
            role.is_signer <==> self.flags & IS_SIGNER != 0,
    {
        AccountRole::new(&self.key, self.is_writable(), self.is_signer())
    }
}

/// One instruction of the transaction.
#[derive(Clone, Copy)]
pub struct IntrospectedInstruction<'a> {
    /// The bytes from the start of the instruction on.
    raw: &'a [u8],
}

/// Reads the address that stands at `at`.
fn read_address(bytes: &[u8], at: usize) -> (address: Address)
    requires
        at + ADDRESS_BYTES <= bytes@.len(),
    ensures
        address@ == bytes@.subrange(at as int, at + ADDRESS_BYTES),
{
    let len = bytes.len();
    let mut key: [u8; ADDRESS_BYTES] = [0u8; ADDRESS_BYTES];
    let mut i: usize = 0;
    while i < ADDRESS_BYTES
        invariant
            i <= ADDRESS_BYTES,
            at + ADDRESS_BYTES <= bytes@.len() == len,
            forall|j: int| 0 <= j < i ==> key@[j] == bytes@[at + j],
        decreases ADDRESS_BYTES - i,
    {
        key[i] = bytes[at + i];
        i += 1;
    }
    assert(key@ =~= bytes@.subrange(at as int, at + ADDRESS_BYTES));
    Address(key)
}

impl<'a> IntrospectedInstruction<'a> {
    /// The bytes from the start of the instruction on.
    pub closed spec fn raw(self) -> Seq<u8> {
        self.raw@
    }

    /// The bytes hold the instruction whole.
    #[verifier::type_invariant]
    spec fn inv(self) -> bool {
        holds_instruction(self.raw@)
    }

    /// The flags of account `index`.
    pub open spec fn flags_of(self, index: int) -> u8 {
        self.raw()[2 + ACCOUNT_META_LEN * index]
    }

    /// The address of account `index`.
    pub open spec fn key_of(self, index: int) -> Seq<u8> {
        self.raw().subrange(
            2 + ACCOUNT_META_LEN * index + 1,
            2 + ACCOUNT_META_LEN * index + 1 + ADDRESS_BYTES,
        )
    }

    /// The account at `index`, which is one of the instruction's.
    pub fn get_account_meta_at_unchecked(&self, index: usize) -> (meta: IntrospectedAccountMeta)
        requires
            index < num_accounts(self.raw()),
        ensures
            meta.flags == self.flags_of(index as int),
            meta.key@ == self.key_of(index as int),
    {
        proof {
            use_type_invariant(self);
        }
        let offset = 2 + index * ACCOUNT_META_LEN;
        IntrospectedAccountMeta {
            flags: self.raw[offset],
            key: read_address(self.raw, offset + 1),
        }
    }

    /// The account at `index`, or `InvalidArgument` where the instruction
    /// has no such account.
    pub fn get_account_meta_at(&self, index: usize) -> (r: Result<
        IntrospectedAccountMeta,
        ProgramError,
    >)
        ensures
            r.is_ok() <==> index < num_accounts(self.raw()),
            r matches Ok(meta) ==> meta.flags == self.flags_of(index as int) && meta.key@
                == self.key_of(index as int),
            r matches Err(e) ==> e == ProgramError::InvalidArgument,
    {
        proof {
            use_type_invariant(self);
        }
        let num_accounts = read_u16(self.raw, 0);
        if index >= num_accounts as usize {
            return Err(ProgramError::InvalidArgument);
        }
        Ok(self.get_account_meta_at_unchecked(index))
    }

    /// The address of the program that the instruction is for.
    pub fn get_program_id(&self) -> (program_id: Address)
        ensures
            holds_instruction(self.raw()),
            program_id@ == self.raw().subrange(
                program_id_at(self.raw()),
                program_id_at(self.raw()) + ADDRESS_BYTES,
            ),
    {
        proof {
            use_type_invariant(self);
        }
        let num_accounts = read_u16(self.raw, 0);
        read_address(self.raw, 2 + num_accounts as usize * ACCOUNT_META_LEN)
    }

    /// The data of the instruction.
    pub fn get_instruction_data(&self) -> (data: &'a [u8])
        ensures
            holds_instruction(self.raw()),
            data@ == self.raw().subrange(
                data_at(self.raw()),
                data_at(self.raw()) + le_u16(self.raw(), data_len_at(self.raw())),
            ),
    {
        proof {
            use_type_invariant(self);
        }
        let num_accounts = read_u16(self.raw, 0);
        let offset = num_accounts as usize * ACCOUNT_META_LEN + ADDRESS_BYTES;
        let data_len = read_u16(self.raw, 2 + offset);
        slice_subrange(self.raw, 2 + offset + 2, 2 + offset + 2 + data_len as usize)
    }
}

/// Tells whether `raw` starts with a whole instruction.
fn check_instruction(raw: &[u8]) -> (whole: bool)
    ensures
        whole == holds_instruction(raw@),
{
    if raw.len() < 2 {
        return false;
    }
    let num_accounts = read_u16(raw, 0) as usize;
    let data_len_at = 2 + num_accounts * ACCOUNT_META_LEN + ADDRESS_BYTES;
    if raw.len() < data_len_at + 2 {
        return false;
    }
    let data_len = read_u16(raw, data_len_at) as usize;
    raw.len() - (data_len_at + 2) >= data_len
}

/// The instructions of the transaction, read from the bytes `T`.
pub struct Instructions<T: ByteView> {
    data: T,
}

impl<T: ByteView> Instructions<T> {
    /// The bytes that the instructions are read from.
    pub closed spec fn bytes(self) -> Seq<u8> {
        self.data.bytes()
    }

    /// Reads the instructions from `data`, which are taken to be those of
    /// the account at `INSTRUCTIONS_ID`.
    pub fn new_unchecked(data: T) -> (instructions: Self)
        ensures
            instructions.bytes() == data.bytes(),
    {
        Instructions { data }
    }

    /// Hands out what the instructions were read from.
    pub fn into_inner(self) -> (data: T)
        ensures
            data.bytes() == self.bytes(),
    {
        self.data
    }

    /// Index of the instruction that is running: the last two bytes.
    pub fn load_current_index(&self) -> (index: u16)
        requires
            self.bytes().len() >= 2,
        ensures
            index == le_u16(self.bytes(), self.bytes().len() - 2),
    {
        let data = self.data.as_bytes();
        read_u16(data, data.len() - 2)
    }

    /// The instruction at `index`, without a look at whether there is one:
    /// the bytes list it and hold it whole.
    pub fn deserialize_instruction_unchecked(&self, index: usize) -> (instruction:
        IntrospectedInstruction<'_>)
        requires
            2 + 2 * index + 2 <= self.bytes().len(),
            instruction_start(self.bytes(), index as int) <= self.bytes().len(),
            holds_instruction(
                self.bytes().subrange(
                    instruction_start(self.bytes(), index as int),
                    self.bytes().len() as int,
                ),
            ),
        ensures
            instruction.raw() == self.bytes().subrange(
                instruction_start(self.bytes(), index as int),
                self.bytes().len() as int,
            ),
    {
        let data = self.data.as_bytes();
        let len = data.len();
        let offset = read_u16(data, 2 + index * 2);
        IntrospectedInstruction { raw: slice_subrange(data, offset as usize, len) }
    }

    /// The instruction at `index`, or `InvalidInstructionData` where the
    /// bytes do not list it or do not hold it whole.
    pub fn load_instruction_at(&self, index: usize) -> (r: Result<
        IntrospectedInstruction<'_>,
        ProgramError,
    >)
        ensures
            match r {
                Ok(instruction) => instruction_at(self.bytes(), index as int) == Some(
                    instruction.raw(),
                ),
                Err(e) => instruction_at(self.bytes(), index as int).is_none() && e
                    == ProgramError::InvalidInstructionData,
            },
    {
        let data = self.data.as_bytes();
        if data.len() < 2 {
            return Err(ProgramError::InvalidInstructionData);
        }
        let num_instructions = read_u16(data, 0);
        if index >= num_instructions as usize {
            return Err(ProgramError::InvalidInstructionData);
        }
        if data.len() - 2 < 2 + 2 * index {
            return Err(ProgramError::InvalidInstructionData);
        }
        let offset = read_u16(data, 2 + index * 2) as usize;
        if offset > data.len() {
            return Err(ProgramError::InvalidInstructionData);
        }
        if !check_instruction(slice_subrange(data, offset, data.len())) {
            return Err(ProgramError::InvalidInstructionData);
        }
        Ok(self.deserialize_instruction_unchecked(index))
    }

    /// The instruction that stands `index_relative_to_current` places after
    /// the one that is running, or before it where the number is negative;
    /// `InvalidInstructionData` where there is none.
    pub fn get_instruction_relative(&self, index_relative_to_current: i64) -> (r: Result<
        IntrospectedInstruction<'_>,
        ProgramError,
    >)
        ensures
            match r {
                Ok(instruction) => instruction_at(
                    self.bytes(),
                    le_u16(self.bytes(), self.bytes().len() - 2) + index_relative_to_current,
                ) == Some(instruction.raw()),
                Err(e) => instruction_at(
                    self.bytes(),
                    le_u16(self.bytes(), self.bytes().len() - 2) + index_relative_to_current,
                ).is_none() && e == ProgramError::InvalidInstructionData,
            },
    {
        if self.data.as_bytes().len() < 2 {
            return Err(ProgramError::InvalidInstructionData);
        }
        let current_index = self.load_current_index() as i64;
        let index = if index_relative_to_current > i64::MAX - current_index {
            i64::MAX
        } else {
            current_index + index_relative_to_current
        };
        if index < 0 {
            return Err(ProgramError::InvalidInstructionData);
        }
        if index > 0xffff {
            return Err(ProgramError::InvalidInstructionData);
        }
        self.load_instruction_at(index as usize)
    }
}

impl Instructions<Ref<Vec<u8>>> {
    /// Reads the instructions from the data of `account`, which are held
    /// for reading from then on: `UnsupportedSysvar` where the account is
    /// not the one at `INSTRUCTIONS_ID`, `AccountBorrowFailed` where its
    /// data cannot be read. Where it fails nothing changes.
    pub fn try_from(account: &mut AccountView) -> (r: Result<Self, ProgramError>)
        requires
            old(account)@.wf(),
        ensures
            match r {
                Ok(instructions) => {
                    &&& old(account)@.header.key.0 == INSTRUCTIONS_ID
                    &&& can_read(old(account)@.header.borrow_state, DATA_SHIFT)
                    &&& final(account)@ == old(account)@.with_borrow_state(
                        after_acquire_read(old(account)@.header.borrow_state, DATA_SHIFT) as u8,
                    )
                    &&& instructions.bytes() == old(account)@.data()
                },
                Err(e) => {
                    &&& final(account)@ == old(account)@
                    &&& if old(account)@.header.key.0 != INSTRUCTIONS_ID {
                        e == ProgramError::UnsupportedSysvar
                    } else {
                        e == ProgramError::AccountBorrowFailed && !can_read(
                            old(account)@.header.borrow_state,
                            DATA_SHIFT,
                        )
                    }
                },
            },
    {
        if !account.key().equals(&Address(INSTRUCTIONS_ID)) {
            return Err(ProgramError::UnsupportedSysvar);
        }
        match account.try_borrow_data() {
            Ok(data) => Ok(Instructions { data }),
            Err(e) => Err(e),
        }
    }
}

} // verus!
