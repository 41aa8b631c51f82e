//! Calls into other programs: what is checked before one is made, and what
//! is handed over.

use vstd::prelude::*;
use crate::account::{AccountView, Record};
use crate::address::Address;
use crate::borrow_state::{can_read, can_write, DATA_SHIFT, LAMPORTS_SHIFT};
use crate::error::ProgramError;
use crate::instruction::{AccountRole, InstructionView};

verus! {

/// Maximum number of accounts that an instruction can be given.
pub const MAX_INSTRUCTION_ACCOUNTS: usize = 255;

/// Maximum number of bytes that a program can return.
pub const MAX_RETURN_DATA: usize = 1024;

/// An account as it is handed to the program that is called.
#[derive(Clone, Copy)]
pub struct CpiAccount<'a> {
    /// Address of the account.
    pub key: &'a Address,
    /// Number of lamports owned by this account.
    pub lamports: u64,
    /// Length of data in bytes.
    pub data_len: u64,
    /// Data within this account.
    pub data: &'a [u8],
    /// Program that owns this account.
    pub owner: &'a Address,
    /// The epoch at which this account will next owe rent.
    pub rent_epoch: u64,
    /// Whether the transaction was signed by this account.
    pub is_signer: bool,
    /// Whether the account is writable.
    pub is_writable: bool,
    /// Whether the account is a program.
    pub executable: bool,
}

impl<'a> CpiAccount<'a> {
    /// Whether the account is what the record shows.
    pub open spec fn shows(self, record: Record) -> bool {
        &&& *self.key == record.header.key
        &&& self.lamports == record.header.lamports
        &&& self.data_len == record.header.data_len
        &&& self.data@ == record.data()
        &&& *self.owner == record.header.owner
        &&& self.rent_epoch == 0
        &&& self.is_signer <==> record.header.is_signer != 0
        &&& self.is_writable <==> record.header.is_writable != 0
        &&& self.executable <==> record.header.executable != 0
    }

    /// The account as its record shows it.
    pub fn from(account: &'a AccountView) -> (cpi: Self)
        requires
            account@.wf(),
        ensures
            cpi.shows(account@),
    {
        CpiAccount {
            key: account.key(),
            lamports: account.lamports(),
            data_len: account.data_len() as u64,
            data: account.borrow_data_unchecked(),
            owner: account.owner(),
            rent_epoch: 0,
            is_signer: account.is_signer(),
            is_writable: account.is_writable(),
            executable: account.executable(),
        }
    }
}

/// Why the account cannot be handed over in the role that the instruction
/// gives it, if it cannot: its address is another, or it is held in a way
/// that the role does not go with.
pub open spec fn account_refusal(role: AccountRole, record: Record) -> Option<ProgramError> {
    if record.header.key != *role.address {
        Some(ProgramError::InvalidArgument)
    } else if role.is_writable {
        if can_write(record.header.borrow_state, DATA_SHIFT) && can_write(
            record.header.borrow_state,
            LAMPORTS_SHIFT,
        ) {
            None
        } else {
            Some(ProgramError::AccountBorrowFailed)
        }
    } else {
        if can_read(record.header.borrow_state, DATA_SHIFT) && can_read(
            record.header.borrow_state,
            LAMPORTS_SHIFT,
        ) {
            None
        } else {
            Some(ProgramError::AccountBorrowFailed)
        }
    }
}

/// Tells why the account cannot be handed over in the role that the
/// instruction gives it, if it cannot.
pub fn check_account(role: &AccountRole, account: &AccountView) -> (r: Result<(), ProgramError>)
    ensures
        r == match account_refusal(*role, account@) {
            Some(e) => Err::<(), ProgramError>(e),
            None => Ok::<(), ProgramError>(()),
        },
{
    if !account.key().equals(role.address) {
        return Err(ProgramError::InvalidArgument);
    }
    if role.is_writable {
        if account.check_borrow_mut_data().is_err() {
            return Err(ProgramError::AccountBorrowFailed);
        }
        if account.check_borrow_mut_lamports().is_err() {
            return Err(ProgramError::AccountBorrowFailed);
        }
    } else {
        if account.check_borrow_data().is_err() {
            return Err(ProgramError::AccountBorrowFailed);
        }
        if account.check_borrow_lamports().is_err() {
            return Err(ProgramError::AccountBorrowFailed);
        }
    }
    Ok(())
}

/// What a call with these accounts is answered with before anything is
/// handed over: the instruction names enough accounts, they are not too
/// many, and the first account that cannot be handed over decides.
pub open spec fn invoke_refusal(
    roles: Seq<AccountRole>,
    records: Seq<Record>,
    limit: int,
) -> Option<ProgramError> {
    if roles.len() < records.len() {
        Some(ProgramError::NotEnoughAccountKeys)
    } else if records.len() > limit {
        Some(ProgramError::InvalidArgument)
    } else {
        first_refusal(roles, records, 0)
    }
}

/// The refusal of the first account from `from` on that cannot be handed
/// over.
pub open spec fn first_refusal(roles: Seq<AccountRole>, records: Seq<Record>, from: int) -> Option<
    ProgramError,
>
    decreases records.len() - from,
{
    if from < 0 || from >= records.len() {
        None
    } else if account_refusal(roles[from], records[from]).is_some() {
        account_refusal(roles[from], records[from])
    } else {
        first_refusal(roles, records, from + 1)
    }
}

/// The records that the views stand for.
pub open spec fn records_of(accounts: Seq<&AccountView>) -> Seq<Record> {
    Seq::new(accounts.len(), |i: int| accounts[i]@)
}

/// Checks the accounts against the instruction and makes of each what is
/// handed to the program that is called.
///
/// The accounts stand in the order in which the instruction names them.
/// The call is refused with `NotEnoughAccountKeys` where the instruction
/// names fewer accounts than are given, with `InvalidArgument` where more
/// than `MAX_INSTRUCTION_ACCOUNTS` are given or one has another address
/// than the instruction says, and with `AccountBorrowFailed` where one is
/// held in a way that its role does not go with. The signers are for the
/// host; nothing is asked of them here.
pub fn slice_invoke_signed<'a>(
    instruction: &InstructionView,
    account_infos: &[&'a AccountView],
    signers_seeds: &[Signer],
) -> (r: Result<Vec<CpiAccount<'a>>, ProgramError>)
    requires
        forall|i: int| 0 <= i < account_infos@.len() ==> (#[trigger] account_infos@[i])@.wf(),
    ensures
        match r {
            Ok(accounts) => {
                &&& invoke_refusal(
                    instruction.accounts@,
                    records_of(account_infos@),
                    MAX_INSTRUCTION_ACCOUNTS as int,
                ).is_none()
                &&& accounts@.len() == account_infos@.len()
                &&& forall|i: int|
                    0 <= i < accounts@.len() ==> (#[trigger] accounts@[i]).shows(
                        account_infos@[i]@,
                    )
            },
            Err(e) => invoke_refusal(
                instruction.accounts@,
                records_of(account_infos@),
                MAX_INSTRUCTION_ACCOUNTS as int,
            ) == Some(e),
        },
{
    if instruction.accounts.len() < account_infos.len() {
        return Err(ProgramError::NotEnoughAccountKeys);
    }
    if account_infos.len() > MAX_INSTRUCTION_ACCOUNTS {
        return Err(ProgramError::InvalidArgument);
    }
    check_accounts(instruction, account_infos)
}

/// Checks the accounts one by one, in order, and makes of each what is
/// handed over; the first that cannot be handed over decides.
fn check_accounts<'a>(instruction: &InstructionView, account_infos: &[&'a AccountView]) -> (r:
    Result<Vec<CpiAccount<'a>>, ProgramError>)
    requires
        account_infos@.len() <= instruction.accounts@.len(),
        forall|i: int| 0 <= i < account_infos@.len() ==> (#[trigger] account_infos@[i])@.wf(),
    ensures
        match r {
            Ok(accounts) => {
                &&& first_refusal(instruction.accounts@, records_of(account_infos@), 0).is_none()
                &&& accounts@.len() == account_infos@.len()
                &&& forall|i: int|
                    0 <= i < accounts@.len() ==> (#[trigger] accounts@[i]).shows(
                        account_infos@[i]@,
                    )
            },
            Err(e) => first_refusal(instruction.accounts@, records_of(account_infos@), 0) == Some(
                e,
            ),
        },
{
    let ghost roles = instruction.accounts@;
    let ghost records = records_of(account_infos@);
    let mut accounts: Vec<CpiAccount<'a>> = Vec::new();
    let mut index: usize = 0;
    while index < account_infos.len()
        invariant
            index <= account_infos@.len() <= instruction.accounts@.len(),
            roles == instruction.accounts@,
            records == records_of(account_infos@),
            forall|i: int| 0 <= i < account_infos@.len() ==> (#[trigger] account_infos@[i])@.wf(),
            first_refusal(roles, records, 0) == first_refusal(roles, records, index as int),
            accounts@.len() == index,
            forall|i: int|
                0 <= i < index ==> (#[trigger] accounts@[i]).shows(account_infos@[i]@),
        decreases account_infos@.len() - index,
    {
        let account_info = account_infos[index];
        let account_meta = &instruction.accounts[index];
        assert(records[index as int] == account_info@);
        match check_account(account_meta, account_info) {
            Ok(()) => {},
            Err(e) => {
                return Err(e);
            },
        }
        accounts.push(CpiAccount::from(account_info));
        index += 1;
    }
    Ok(accounts)
}

/// Checks the accounts against the instruction and makes of each what is
/// handed to the program that is called. See `slice_invoke_signed`; here
/// the number of the accounts is fixed and has no limit.
pub fn invoke_signed<'a, const ACCOUNTS: usize>(
    instruction: &InstructionView,
    account_infos: &[&'a AccountView; ACCOUNTS],
    signers_seeds: &[Signer],
) -> (r: Result<Vec<CpiAccount<'a>>, ProgramError>)
    requires
        forall|i: int| 0 <= i < account_infos@.len() ==> (#[trigger] account_infos@[i])@.wf(),
    ensures
        match r {
            Ok(accounts) => {
                &&& invoke_refusal(
                    instruction.accounts@,
                    records_of(account_infos@),
                    ACCOUNTS as int,
                ).is_none()
                &&& accounts@.len() == ACCOUNTS
                &&& forall|i: int|
                    0 <= i < accounts@.len() ==> (#[trigger] accounts@[i]).shows(
                        account_infos@[i]@,
                    )
            },
            Err(e) => invoke_refusal(
                instruction.accounts@,
                records_of(account_infos@),
                ACCOUNTS as int,
            ) == Some(e),
        },
{
    if instruction.accounts.len() < ACCOUNTS {
        return Err(ProgramError::NotEnoughAccountKeys);
    }
    check_accounts(instruction, account_infos.as_slice())
}

/// As `invoke_signed`, with no signer.
pub fn invoke<'a, const ACCOUNTS: usize>(
    instruction: &InstructionView,
    account_infos: &[&'a AccountView; ACCOUNTS],
) -> (r: Result<Vec<CpiAccount<'a>>, ProgramError>)
    requires
        forall|i: int| 0 <= i < account_infos@.len() ==> (#[trigger] account_infos@[i])@.wf(),
    ensures
        match r {
            Ok(accounts) => {
                &&& invoke_refusal(
                    instruction.accounts@,
                    records_of(account_infos@),
                    ACCOUNTS as int,
                ).is_none()
                &&& accounts@.len() == ACCOUNTS
                &&& forall|i: int|
                    0 <= i < accounts@.len() ==> (#[trigger] accounts@[i]).shows(
                        account_infos@[i]@,
                    )
            },
            Err(e) => invoke_refusal(
                instruction.accounts@,
                records_of(account_infos@),
                ACCOUNTS as int,
            ) == Some(e),
        },
{
    let no_signers: [Signer; 0] = [];
    invoke_signed(instruction, account_infos, no_signers.as_slice())
}

/// As `slice_invoke_signed`, with no signer.
pub fn slice_invoke<'a>(instruction: &InstructionView, account_infos: &[&'a AccountView]) -> (r:
    Result<Vec<CpiAccount<'a>>, ProgramError>)
    requires
        forall|i: int| 0 <= i < account_infos@.len() ==> (#[trigger] account_infos@[i])@.wf(),
    ensures
        match r {
            Ok(accounts) => {
                &&& invoke_refusal(
                    instruction.accounts@,
                    records_of(account_infos@),
                    MAX_INSTRUCTION_ACCOUNTS as int,
                ).is_none()
                &&& accounts@.len() == account_infos@.len()
                &&& forall|i: int|
                    0 <= i < accounts@.len() ==> (#[trigger] accounts@[i]).shows(
                        account_infos@[i]@,
                    )
            },
            Err(e) => invoke_refusal(
                instruction.accounts@,
                records_of(account_infos@),
                MAX_INSTRUCTION_ACCOUNTS as int,
            ) == Some(e),
        },
{
    let no_signers: [Signer; 0] = [];
    slice_invoke_signed(instruction, account_infos, no_signers.as_slice())
}

/// What a program returned, and which program it was.
pub struct ReturnData {
    /// Program that most recently set the return data.
    program_id: Address,
    /// The bytes that were returned; those up to `size` count.
    data: Vec<u8>,
    /// Length of the return data.
    size: usize,
}

impl ReturnData {
    /// The program that set the return data.
    pub closed spec fn id(self) -> Address {
        self.program_id
    }

    /// The bytes that were returned.
    pub closed spec fn bytes(self) -> Seq<u8> {
        self.data@.subrange(0, self.size as int)
    }

    /// The bytes that were returned lie within what is held.
    #[verifier::type_invariant]
    spec fn inv(self) -> bool {
        self.size <= self.data@.len()
    }

    /// The return data that `program_id` set, of which the host says that
    /// they are `size` bytes long and of which `data` holds the first
    /// `MAX_RETURN_DATA`, or all if they are fewer. There are none where
    /// the size is zero.
    pub fn new(program_id: Address, data: Vec<u8>, size: u64) -> (r: Option<ReturnData>)
        requires
            data@.len() >= MAX_RETURN_DATA || data@.len() >= size,
        ensures
            r.is_some() <==> size != 0,
            r matches Some(returned) ==> {
                &&& returned.id() == program_id
                &&& returned.bytes() == data@.subrange(
                    0,
                    if size <= MAX_RETURN_DATA {
                        size as int
                    } else {
                        MAX_RETURN_DATA as int
                    },
                )
            },
    {
        if size == 0 {
            None
        } else {
            let size: usize = if size <= MAX_RETURN_DATA as u64 {
                size as usize
            } else {
                MAX_RETURN_DATA
            };
            Some(ReturnData { program_id, data, size })
        }
    }

    /// The program that set the return data.
    pub fn program_id(&self) -> (id: &Address)
        ensures
            *id == self.id(),
    {
        &self.program_id
    }

    /// The bytes that were returned.
    pub fn as_slice(&self) -> (bytes: &[u8])
        ensures
            bytes@ == self.bytes(),
    {
        proof {
            use_type_invariant(self);
        }
        vstd::slice::slice_subrange(self.data.as_slice(), 0, self.size)
    }
}

impl core::ops::Deref for ReturnData {
    type Target = [u8];

    /// The bytes that were returned.
    fn deref(&self) -> (bytes: &[u8])
        ensures
            bytes@ == self.bytes(),
    {
        self.as_slice()
    }
}

/// A seed of a signer.
#[derive(Debug, Clone, Copy)]
pub struct Seed<'a> {
    /// The bytes of the seed.
    seed: &'a [u8],
}

impl<'a> View for Seed<'a> {
    type V = Seq<u8>;

    /// The bytes of the seed.
    closed spec fn view(&self) -> Seq<u8> {
        self.seed@
    }
}

impl<'a> core::ops::Deref for Seed<'a> {
    type Target = [u8];

    /// The bytes of the seed.
    fn deref(&self) -> (bytes: &[u8])
        ensures
            bytes@ == self@,
    {
        self.seed
    }
}

impl<'a> Seed<'a> {
    /// The seed that is made of `value`.
    pub fn from(value: &'a [u8]) -> (seed: Self)
        ensures
            seed@ == value@,
    {
        Seed { seed: value }
    }

}

/// A signer that the calling program stands for: an address that is derived
/// from the seeds.
#[derive(Debug, Clone, Copy)]
pub struct Signer<'a, 'b> {
    /// The seeds of the signer.
    seeds: &'b [Seed<'a>],
}

impl<'a, 'b> View for Signer<'a, 'b> {
    type V = Seq<Seq<u8>>;

    /// The seeds of the signer, each as its bytes.
    closed spec fn view(&self) -> Seq<Seq<u8>> {
        Seq::new(self.seeds@.len(), |i: int| self.seeds@[i]@)
    }
}

impl<'a, 'b> Signer<'a, 'b> {
    /// The signer that is derived from the seeds `value`.
    pub fn from(value: &'b [Seed<'a>]) -> (signer: Self)
        ensures
            signer@ == Seq::new(value@.len(), |i: int| value@[i]@),
    {
        Signer { seeds: value }
    }

    /// The seeds of the signer.
    pub fn seeds(&self) -> (seeds: &'b [Seed<'a>])
        ensures
            Seq::new(seeds@.len(), |i: int| seeds@[i]@) == self@,
    {
        self.seeds
    }

    /// Number of the seeds.
    pub fn len(&self) -> (len: u64)
        ensures
            len == self@.len(),
    {
        self.seeds.len() as u64
    }
}

} // verus!
