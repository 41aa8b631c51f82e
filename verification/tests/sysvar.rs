use account_view::account::{Account, AccountView, MAX_PERMITTED_DATA_INCREASE};
use account_view::address::Address;
use account_view::error::ProgramError;
use account_view::sysvar::{
    read_u16, Instructions, IntrospectedAccountMeta, INSTRUCTIONS_ID, IS_SIGNER, IS_WRITABLE,
};

fn instruction(accounts: &[(u8, [u8; 32])], program: [u8; 32], data: &[u8]) -> Vec<u8> {
    let mut raw = Vec::new();
    raw.extend_from_slice(&(accounts.len() as u16).to_le_bytes());
    for (flags, key) in accounts {
        raw.push(*flags);
        raw.extend_from_slice(key);
    }
    raw.extend_from_slice(&program);
    raw.extend_from_slice(&(data.len() as u16).to_le_bytes());
    raw.extend_from_slice(data);
    raw
}

fn sysvar(instructions: &[Vec<u8>], current: u16) -> Vec<u8> {
    let mut data = Vec::new();
    data.extend_from_slice(&(instructions.len() as u16).to_le_bytes());
    let mut start = 2 + 2 * instructions.len();
    for raw in instructions {
        data.extend_from_slice(&(start as u16).to_le_bytes());
        start += raw.len();
    }
    for raw in instructions {
        data.extend_from_slice(raw);
    }
    data.extend_from_slice(&current.to_le_bytes());
    data
}

fn two_instructions() -> Vec<u8> {
    sysvar(
        &[
            instruction(&[(IS_SIGNER, [1; 32]), (IS_WRITABLE, [2; 32])], [9; 32], &[7, 8, 9]),
            instruction(&[(IS_SIGNER | IS_WRITABLE, [3; 32])], [10; 32], &[]),
        ],
        1,
    )
}

#[test]
fn read_u16_takes_the_lower_byte_first() {
    assert_eq!(read_u16(&[0x34, 0x12, 0xff], 0), 0x1234);
    assert_eq!(read_u16(&[0x34, 0x12, 0xff], 1), 0xff12);
}

#[test]
fn load_current_index_reads_the_last_two_bytes() {
    let data = two_instructions();
    let instructions = Instructions::new_unchecked(data.as_slice());
    assert_eq!(instructions.load_current_index(), 1);
    let other = sysvar(&[], 0x0203);
    assert_eq!(Instructions::new_unchecked(other).load_current_index(), 0x0203);
}

#[test]
fn load_instruction_at_finds_each_instruction() {
    let data = two_instructions();
    let instructions = Instructions::new_unchecked(data.as_slice());

    let first = instructions.load_instruction_at(0).unwrap();
    assert_eq!(first.get_program_id(), Address([9; 32]));
    assert_eq!(first.get_instruction_data(), &[7, 8, 9]);
    let meta = first.get_account_meta_at(0).unwrap();
    assert_eq!(meta.key, Address([1; 32]));
    assert!(meta.is_signer());
    assert!(!meta.is_writable());
    let meta = first.get_account_meta_at(1).unwrap();
    assert_eq!(meta.key, Address([2; 32]));
    assert!(!meta.is_signer());
    assert!(meta.is_writable());
    assert!(matches!(first.get_account_meta_at(2), Err(ProgramError::InvalidArgument)));
    let unchecked = first.get_account_meta_at_unchecked(1);
    assert_eq!(unchecked.key, Address([2; 32]));

    let second = instructions.load_instruction_at(1).unwrap();
    assert_eq!(second.get_program_id(), Address([10; 32]));
    assert_eq!(second.get_instruction_data(), &[] as &[u8]);
    let meta = second.get_account_meta_at(0).unwrap();
    assert!(meta.is_signer() && meta.is_writable());
    let role = meta.to_account_meta();
    assert_eq!(role.address, &Address([3; 32]));
    assert!(role.is_signer && role.is_writable);

    assert!(matches!(
        instructions.load_instruction_at(2),
        Err(ProgramError::InvalidInstructionData)
    ));
    let same = instructions.deserialize_instruction_unchecked(1);
    assert_eq!(same.get_program_id(), Address([10; 32]));
}

#[test]
fn load_instruction_at_refuses_bytes_that_are_cut_short() {
    let data = two_instructions();
    // without the last instruction's end and the current index
    let cut = &data[..data.len() - 4];
    let instructions = Instructions::new_unchecked(cut);
    assert!(instructions.load_instruction_at(0).is_ok());
    assert!(matches!(
        instructions.load_instruction_at(1),
        Err(ProgramError::InvalidInstructionData)
    ));
    let empty: &[u8] = &[];
    assert!(matches!(
        Instructions::new_unchecked(empty).load_instruction_at(0),
        Err(ProgramError::InvalidInstructionData)
    ));
    let short: &[u8] = &[1, 0];
    assert!(matches!(
        Instructions::new_unchecked(short).load_instruction_at(0),
        Err(ProgramError::InvalidInstructionData)
    ));
    let beyond: &[u8] = &[1, 0, 200, 0, 0, 0];
    assert!(matches!(
        Instructions::new_unchecked(beyond).load_instruction_at(0),
        Err(ProgramError::InvalidInstructionData)
    ));
}

#[test]
fn get_instruction_relative_counts_from_the_current_one() {
    let data = two_instructions();
    let instructions = Instructions::new_unchecked(data);
    let current = instructions.get_instruction_relative(0).unwrap();
    assert_eq!(current.get_program_id(), Address([10; 32]));
    let before = instructions.get_instruction_relative(-1).unwrap();
    assert_eq!(before.get_program_id(), Address([9; 32]));
    for relative in [-2, 1, i64::MAX, i64::MIN] {
        assert!(matches!(
            instructions.get_instruction_relative(relative),
            Err(ProgramError::InvalidInstructionData)
        ));
    }
    assert_eq!(instructions.into_inner(), two_instructions());
}

#[test]
fn account_meta_flags() {
    let meta = IntrospectedAccountMeta { flags: 0b1111_1100, key: Address([0; 32]) };
    assert!(!meta.is_signer());
    assert!(!meta.is_writable());
    let meta = IntrospectedAccountMeta { flags: 0b0000_0011, key: Address([0; 32]) };
    assert!(meta.is_signer());
    assert!(meta.is_writable());
}

fn account(key: [u8; 32], data: &[u8]) -> AccountView {
    let mut region = data.to_vec();
    region.resize(data.len() + MAX_PERMITTED_DATA_INCREASE, 0);
    AccountView::new(
        Account {
            borrow_state: 0,
            is_signer: 0,
            is_writable: 0,
            executable: 0,
            original_data_len: 0,
            key: Address(key),
            owner: Address([0; 32]),
            lamports: 1,
            data_len: data.len() as u64,
        },
        region,
    )
    .unwrap()
}

#[test]
fn try_from_holds_the_data_of_the_sysvar_account() {
    let data = two_instructions();
    let mut view = account(INSTRUCTIONS_ID, &data);
    let instructions = Instructions::try_from(&mut view).unwrap();
    assert_eq!(view.borrow_state(), 0x01);
    assert_eq!(instructions.load_current_index(), 1);
    assert_eq!(
        instructions.load_instruction_at(0).unwrap().get_instruction_data(),
        &[7, 8, 9]
    );
    assert!(matches!(view.try_borrow_mut_data(), Err(ProgramError::AccountBorrowFailed)));
    let handle = instructions.into_inner();
    view.release(handle);
    assert_eq!(view.borrow_state(), 0x00);
}

#[test]
fn try_from_refuses_another_account_and_data_that_are_written() {
    let data = two_instructions();
    let mut other = account([1; 32], &data);
    assert!(matches!(Instructions::try_from(&mut other), Err(ProgramError::UnsupportedSysvar)));
    assert_eq!(other.borrow_state(), 0x00);

    let mut view = account(INSTRUCTIONS_ID, &data);
    let writer = view.try_borrow_mut_data().unwrap();
    assert!(matches!(Instructions::try_from(&mut view), Err(ProgramError::AccountBorrowFailed)));
    assert_eq!(view.borrow_state(), 0x08);
    view.release_mut(writer);
}
