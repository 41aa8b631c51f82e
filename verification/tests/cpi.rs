use account_view::account::{Account, AccountView, MAX_PERMITTED_DATA_INCREASE};
use account_view::address::Address;
use account_view::cpi::{
    check_account, invoke, invoke_signed, slice_invoke, slice_invoke_signed, CpiAccount,
    ReturnData, Seed, Signer, MAX_INSTRUCTION_ACCOUNTS, MAX_RETURN_DATA,
};
use account_view::error::ProgramError;
use account_view::instruction::{AccountRole, InstructionView};
use account_view::syscalls::{
    ProcessedAccount, ProcessedSiblingInstruction, TRANSACTION_LEVEL_STACK_HEIGHT,
};

fn account(key: u8, data: &[u8]) -> AccountView {
    let mut region = data.to_vec();
    region.resize(data.len() + MAX_PERMITTED_DATA_INCREASE, 0);
    AccountView::new(
        Account {
            borrow_state: 0,
            is_signer: 1,
            is_writable: 1,
            executable: 0,
            original_data_len: 0,
            key: Address([key; 32]),
            owner: Address([0xaa; 32]),
            lamports: 500,
            data_len: data.len() as u64,
        },
        region,
    )
    .unwrap()
}

#[test]
fn account_role_builders() {
    let address = Address([1; 32]);
    let role = AccountRole::new(&address, true, false);
    assert!(role.is_writable && !role.is_signer);
    assert_eq!(role.address, &address);
    let role = AccountRole::readonly(&address);
    assert!(!role.is_writable && !role.is_signer);
    let role = AccountRole::writable(&address);
    assert!(role.is_writable && !role.is_signer);
    let role = AccountRole::readonly_signer(&address);
    assert!(!role.is_writable && role.is_signer);
    let role = AccountRole::writable_signer(&address);
    assert!(role.is_writable && role.is_signer);

    let view = account(4, &[]);
    let role = AccountRole::from(&view);
    assert_eq!(role.address, &Address([4; 32]));
    assert!(role.is_writable && role.is_signer);
}

#[test]
fn cpi_account_shows_the_record() {
    let view = account(3, &[1, 2, 3]);
    let cpi = CpiAccount::from(&view);
    assert_eq!(cpi.key, &Address([3; 32]));
    assert_eq!(cpi.owner, &Address([0xaa; 32]));
    assert_eq!(cpi.lamports, 500);
    assert_eq!(cpi.data_len, 3);
    assert_eq!(cpi.data, &[1, 2, 3]);
    assert_eq!(cpi.rent_epoch, 0);
    assert!(cpi.is_signer && cpi.is_writable && !cpi.executable);
}

#[test]
fn invoke_hands_over_the_accounts_that_the_instruction_names() {
    let a = account(1, &[1]);
    let b = account(2, &[2, 2]);
    let program = Address([9; 32]);
    let keys = [Address([1; 32]), Address([2; 32]), Address([3; 32])];
    let roles = [
        AccountRole::writable(&keys[0]),
        AccountRole::readonly(&keys[1]),
        AccountRole::readonly(&keys[2]),
    ];
    let instruction = InstructionView { program_id: &program, data: &[], accounts: &roles };

    let handed = invoke(&instruction, &[&a, &b]).unwrap();
    assert_eq!(handed.len(), 2);
    assert_eq!(handed[0].key, &Address([1; 32]));
    assert_eq!(handed[1].data, &[2, 2]);

    let handed = slice_invoke(&instruction, &[&a, &b]).unwrap();
    assert_eq!(handed.len(), 2);
    let seeds = [Seed::from(b"seed")];
    let signers = [Signer::from(&seeds)];
    assert_eq!(invoke_signed(&instruction, &[&a], &signers).unwrap().len(), 1);
    assert_eq!(slice_invoke_signed(&instruction, &[], &signers).unwrap().len(), 0);
}

#[test]
fn invoke_refuses_too_many_accounts_and_wrong_addresses() {
    let a = account(1, &[1]);
    let b = account(2, &[2, 2]);
    let program = Address([9; 32]);
    let keys = [Address([1; 32]), Address([2; 32])];
    let one = [AccountRole::writable(&keys[0])];
    let instruction = InstructionView { program_id: &program, data: &[], accounts: &one };
    assert!(matches!(invoke(&instruction, &[&a, &b]), Err(ProgramError::NotEnoughAccountKeys)));
    assert!(matches!(
        slice_invoke(&instruction, &[&a, &b]),
        Err(ProgramError::NotEnoughAccountKeys)
    ));

    let swapped = [AccountRole::writable(&keys[1]), AccountRole::writable(&keys[0])];
    let instruction = InstructionView { program_id: &program, data: &[], accounts: &swapped };
    assert!(matches!(invoke(&instruction, &[&a, &b]), Err(ProgramError::InvalidArgument)));
    assert!(matches!(slice_invoke(&instruction, &[&a, &b]), Err(ProgramError::InvalidArgument)));
}

#[test]
fn slice_invoke_refuses_more_accounts_than_an_instruction_can_have() {
    let a = account(1, &[]);
    let program = Address([9; 32]);
    let key = Address([1; 32]);
    let roles = vec![AccountRole::readonly(&key); MAX_INSTRUCTION_ACCOUNTS + 1];
    let instruction = InstructionView { program_id: &program, data: &[], accounts: &roles };
    let accounts = vec![&a; MAX_INSTRUCTION_ACCOUNTS + 1];
    assert!(matches!(slice_invoke(&instruction, &accounts), Err(ProgramError::InvalidArgument)));
    let accounts = vec![&a; MAX_INSTRUCTION_ACCOUNTS];
    assert_eq!(slice_invoke(&instruction, &accounts).unwrap().len(), MAX_INSTRUCTION_ACCOUNTS);
}

#[test]
fn invoke_refuses_accounts_that_are_held() {
    let mut a = account(1, &[1]);
    let program = Address([9; 32]);
    let key = Address([1; 32]);
    let writable = [AccountRole::writable(&key)];
    let readonly = [AccountRole::readonly(&key)];
    let write = InstructionView { program_id: &program, data: &[], accounts: &writable };
    let read = InstructionView { program_id: &program, data: &[], accounts: &readonly };

    let reader = a.try_borrow_data().unwrap();
    assert!(matches!(invoke(&write, &[&a]), Err(ProgramError::AccountBorrowFailed)));
    assert!(invoke(&read, &[&a]).is_ok());
    assert_eq!(check_account(&writable[0], &a), Err(ProgramError::AccountBorrowFailed));
    assert_eq!(check_account(&readonly[0], &a), Ok(()));
    a.release(reader);

    let writer = a.try_borrow_mut_lamports().unwrap();
    assert!(matches!(invoke(&write, &[&a]), Err(ProgramError::AccountBorrowFailed)));
    assert!(matches!(invoke(&read, &[&a]), Err(ProgramError::AccountBorrowFailed)));
    a.release_mut_lamports(writer);

    assert!(invoke(&write, &[&a]).is_ok());
    assert_eq!(a.borrow_state(), 0);
}

#[test]
fn the_first_account_that_is_refused_decides() {
    let mut a = account(1, &[1]);
    let b = account(2, &[2]);
    let program = Address([9; 32]);
    let keys = [Address([1; 32]), Address([7; 32])];
    let roles = [AccountRole::writable(&keys[0]), AccountRole::writable(&keys[1])];
    let instruction = InstructionView { program_id: &program, data: &[], accounts: &roles };
    assert!(matches!(invoke(&instruction, &[&a, &b]), Err(ProgramError::InvalidArgument)));
    let reader = a.try_borrow_lamports().unwrap();
    assert!(matches!(invoke(&instruction, &[&a, &b]), Err(ProgramError::AccountBorrowFailed)));
    a.release(reader);
}

#[test]
fn return_data_hold_what_was_returned() {
    assert!(ReturnData::new(Address([1; 32]), vec![0; MAX_RETURN_DATA], 0).is_none());
    let mut data = vec![0u8; MAX_RETURN_DATA];
    data[0] = 5;
    data[1] = 6;
    let returned = ReturnData::new(Address([1; 32]), data.clone(), 2).unwrap();
    assert_eq!(returned.program_id(), &Address([1; 32]));
    assert_eq!(returned.as_slice(), &[5, 6]);
    let returned = ReturnData::new(Address([1; 32]), data, 5000).unwrap();
    assert_eq!(returned.as_slice().len(), MAX_RETURN_DATA);
    let returned = ReturnData::new(Address([1; 32]), vec![1, 2, 3], 3).unwrap();
    assert_eq!(returned.as_slice(), &[1, 2, 3]);
    assert_eq!(&*returned, &[1, 2, 3]);
    assert_eq!(returned.len(), 3);
}

#[test]
fn seeds_and_signers_keep_their_bytes() {
    let seed = Seed::from(b"abc");
    assert_eq!(&*seed, b"abc");
    assert_eq!(seed.len(), 3);
    let seeds = [Seed::from(b"abc"), Seed::from(&[255u8])];
    let signer = Signer::from(&seeds);
    assert_eq!(signer.len(), 2);
    assert_eq!(&*signer.seeds()[1], &[255]);
}

#[test]
fn processed_sibling_instruction_keeps_what_the_host_described() {
    assert_eq!(TRANSACTION_LEVEL_STACK_HEIGHT, 1);
    let blank = ProcessedAccount { key: Address([0; 32]), is_signer: false, is_writable: false };
    let first = ProcessedAccount { key: Address([1; 32]), is_signer: true, is_writable: false };
    let sibling = ProcessedSiblingInstruction::new(
        [3, 1],
        vec![1, 2, 3, 0, 0],
        vec![first, blank, blank],
        Address([9; 32]),
    );
    assert_eq!(sibling.instruction_data(), &[1, 2, 3]);
    assert_eq!(sibling.accounts().len(), 1);
    assert_eq!(sibling.accounts()[0].key, Address([1; 32]));
    assert!(sibling.accounts()[0].is_signer);
    assert_eq!(sibling.program_id(), &Address([9; 32]));
}
