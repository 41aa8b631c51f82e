use account_view::account::{
    Account, AccountView, MAX_PERMITTED_DATA_INCREASE, SET_LEN_MASK,
};
use account_view::address::Address;
use account_view::borrow_state::{DATA_MASK, DATA_SHIFT, LAMPORTS_MASK, LAMPORTS_SHIFT};
use account_view::error::ProgramError;
use account_view::handle::{Ref, RefMut};

fn header(data_len: usize) -> Account {
    Account {
        borrow_state: 0,
        is_signer: 1,
        is_writable: 0,
        executable: 0,
        original_data_len: 0,
        key: Address([7u8; 32]),
        owner: Address([9u8; 32]),
        lamports: 10_000,
        data_len: data_len as u64,
    }
}

fn view_of(data: &[u8]) -> AccountView {
    let mut region = data.to_vec();
    region.resize(data.len() + MAX_PERMITTED_DATA_INCREASE, 0);
    AccountView::new(header(data.len()), region).unwrap()
}

#[test]
fn new_takes_a_record_whose_data_have_room() {
    let view = view_of(&[1, 2, 3]);
    assert_eq!(view.data_len(), 3);
    assert_eq!(view.borrow_data_unchecked(), &[1, 2, 3]);
    assert_eq!(view.borrow_state(), 0);

    assert!(AccountView::new(header(3), vec![1, 2, 3]).is_none());
    assert!(AccountView::new(header(3), vec![0; 3 + MAX_PERMITTED_DATA_INCREASE - 1]).is_none());
    assert!(AccountView::new(header(3), vec![0; 3 + MAX_PERMITTED_DATA_INCREASE]).is_some());

    let mut recorded = header(5);
    recorded.original_data_len = SET_LEN_MASK | 2;
    assert!(AccountView::new(recorded, vec![0; 2 + MAX_PERMITTED_DATA_INCREASE]).is_some());
    assert!(AccountView::new(recorded, vec![0; 2 + MAX_PERMITTED_DATA_INCREASE - 1]).is_none());
    recorded.data_len = (2 + MAX_PERMITTED_DATA_INCREASE + 1) as u64;
    assert!(AccountView::new(recorded, vec![0; 2 * MAX_PERMITTED_DATA_INCREASE]).is_none());
}

#[test]
fn accessors_show_the_header() {
    let mut view = view_of(&[]);
    assert_eq!(view.key(), &Address([7u8; 32]));
    assert_eq!(view.owner(), &Address([9u8; 32]));
    assert!(view.is_signer());
    assert!(!view.is_writable());
    assert!(!view.executable());
    assert_eq!(view.lamports(), 10_000);
    assert_eq!(*view.borrow_lamports_unchecked(), 10_000);
    assert!(view.data_is_empty());
    assert!(view.is_owned_by(&Address([9u8; 32])));
    assert!(!view.is_owned_by(&Address([7u8; 32])));

    view.assign(&Address([3u8; 32]));
    assert_eq!(view.owner(), &Address([3u8; 32]));
    assert!(view.is_owned_by(&Address([3u8; 32])));

    *view.borrow_mut_lamports_unchecked() += 5;
    assert_eq!(view.lamports(), 10_005);
    assert_eq!(view.borrow_state(), 0);
}

#[test]
fn unchecked_data_are_changed_in_place() {
    let mut view = view_of(&[1, 2, 3]);
    view.borrow_mut_data_unchecked()[1] = 20;
    assert_eq!(view.borrow_data_unchecked(), &[1, 20, 3]);
    assert_eq!(view.borrow_mut_data_unchecked().len(), 3);
    assert_eq!(view.borrow_state(), 0);
}

#[test]
fn three_readers_then_a_writer_of_the_data_and_one_of_the_lamports() {
    let mut view = view_of(&[1, 2, 3]);
    assert_eq!(view.borrow_state(), 0x00);

    let a = view.try_borrow_data().unwrap();
    let b = view.try_borrow_data().unwrap();
    let c = view.try_borrow_data().unwrap();
    assert_eq!(view.borrow_state(), 0x03);
    assert_eq!(a.as_slice(), &[1, 2, 3]);
    assert_eq!(a.borrow_shift(), DATA_SHIFT);

    assert!(matches!(view.try_borrow_mut_data(), Err(ProgramError::AccountBorrowFailed)));
    assert_eq!(view.borrow_state(), 0x03);

    view.release(c);
    assert_eq!(view.borrow_state(), 0x02);

    let w = view.try_borrow_mut_lamports().unwrap();
    assert_eq!(view.borrow_state(), 0x82);
    assert_eq!(w.borrow_mask(), LAMPORTS_MASK);

    assert!(matches!(view.try_borrow_lamports(), Err(ProgramError::AccountBorrowFailed)));
    assert!(matches!(view.try_borrow_mut_lamports(), Err(ProgramError::AccountBorrowFailed)));
    assert_eq!(view.borrow_state(), 0x82);

    view.release_mut_lamports(w);
    view.release(a);
    view.release(b);
    assert_eq!(view.borrow_state(), 0x00);
}

#[test]
fn at_most_seven_read_handles_per_sub_state() {
    let mut view = view_of(&[4]);
    let mut handles: Vec<Ref<u64>> = Vec::new();
    for _ in 0..7 {
        handles.push(view.try_borrow_lamports().unwrap());
    }
    assert_eq!(view.borrow_state(), 0x70);
    assert_eq!(view.check_borrow_lamports(), Err(ProgramError::AccountBorrowFailed));
    assert_eq!(view.check_borrow_mut_lamports(), Err(ProgramError::AccountBorrowFailed));
    assert!(matches!(view.try_borrow_lamports(), Err(ProgramError::AccountBorrowFailed)));
    assert_eq!(view.check_borrow_data(), Ok(()));
    assert_eq!(view.check_borrow_mut_data(), Ok(()));
    for handle in handles {
        assert_eq!(handle.borrow_shift(), LAMPORTS_SHIFT);
        assert_eq!(view.release(handle), 10_000);
    }
    assert_eq!(view.borrow_state(), 0x00);
    assert_eq!(view.check_borrow_mut_lamports(), Ok(()));
}

#[test]
fn checks_change_nothing() {
    let mut view = view_of(&[4]);
    let handle = view.try_borrow_mut_data().unwrap();
    assert_eq!(view.borrow_state(), 0x08);
    assert_eq!(view.check_borrow_data(), Err(ProgramError::AccountBorrowFailed));
    assert_eq!(view.check_borrow_mut_data(), Err(ProgramError::AccountBorrowFailed));
    assert_eq!(view.check_borrow_lamports(), Ok(()));
    assert_eq!(view.check_borrow_mut_lamports(), Ok(()));
    assert_eq!(view.borrow_state(), 0x08);
    view.release_mut(handle);
    assert_eq!(view.borrow_state(), 0x00);
}

#[test]
fn a_write_handle_stores_what_it_holds_when_it_is_released() {
    let mut view = view_of(&[1, 2, 3]);

    let mut data = view.try_borrow_mut_data().unwrap();
    assert_eq!(data.borrow_mask(), DATA_MASK);
    data.get_mut()[0] = 100;
    assert_eq!(view.borrow_state(), 0x08);
    view.release_mut_data(data);
    assert_eq!(view.borrow_state(), 0x00);
    assert_eq!(view.borrow_data_unchecked(), &[100, 2, 3]);

    let mut lamports = view.try_borrow_mut_lamports().unwrap();
    *lamports.get_mut() -= 1;
    view.release_mut_lamports(lamports);
    assert_eq!(view.lamports(), 9_999);
    assert_eq!(view.borrow_state(), 0x00);
}

#[test]
fn a_handle_that_was_changed_gives_its_borrow_back() {
    let mut view = view_of(&[1, 2, 3]);
    let before = view.borrow_state();

    let data = view.try_borrow_data().unwrap();
    let second = Ref::map(data, |bytes| bytes[1]);
    let second = match Ref::filter_map(second, |_| Option::<u8>::None) {
        Ok(_) => unreachable!(),
        Err(handle) => handle,
    };
    assert_eq!(view.borrow_state(), 0x01);
    assert_eq!(view.release(second), 2);
    assert_eq!(view.borrow_state(), before);

    let data = view.try_borrow_mut_data().unwrap();
    let len = RefMut::map(data, |bytes| bytes.len());
    let len = match RefMut::filter_map(len, |n| if n > 3 { Ok(()) } else { Err(n) }) {
        Ok(_) => unreachable!(),
        Err(handle) => handle,
    };
    assert_eq!(view.borrow_state(), 0x08);
    assert_eq!(view.release_mut(len), 3);
    assert_eq!(view.borrow_state(), before);
    assert_eq!(view.borrow_data_unchecked(), &[1, 2, 3]);
}

#[test]
fn realloc_to_the_same_length_changes_nothing() {
    let mut view = view_of(&[1, 2, 3]);
    assert_eq!(view.realloc(3, true), Ok(()));
    assert_eq!(view.data_len(), 3);
    assert_eq!(view.borrow_data_unchecked(), &[1, 2, 3]);
    assert_eq!(view.borrow_state(), 0);
    // the original length was not recorded: the data can still be closed
    // and grown from nothing
    view.close_unchecked();
    assert_eq!(view.realloc(MAX_PERMITTED_DATA_INCREASE, false), Ok(()));
    assert_eq!(view.realloc(MAX_PERMITTED_DATA_INCREASE + 1, false), Err(ProgramError::InvalidRealloc));
}

#[test]
fn realloc_grows_up_to_the_limit_and_no_further() {
    let mut view = view_of(&[1, 2, 3]);
    assert_eq!(
        view.realloc(3 + MAX_PERMITTED_DATA_INCREASE + 1, false),
        Err(ProgramError::InvalidRealloc)
    );
    assert_eq!(view.data_len(), 3);
    assert_eq!(view.borrow_state(), 0);

    assert_eq!(view.realloc(3 + MAX_PERMITTED_DATA_INCREASE, false), Ok(()));
    assert_eq!(view.data_len(), 3 + MAX_PERMITTED_DATA_INCREASE);
    assert_eq!(view.borrow_state(), 0);

    // the limit is counted from the original length, not from the present one
    assert_eq!(view.realloc(1, false), Ok(()));
    assert_eq!(
        view.realloc(3 + MAX_PERMITTED_DATA_INCREASE + 1, false),
        Err(ProgramError::InvalidRealloc)
    );
    assert_eq!(view.data_len(), 1);
    assert_eq!(view.realloc(3 + MAX_PERMITTED_DATA_INCREASE, false), Ok(()));
}

#[test]
fn realloc_is_refused_while_the_data_are_held() {
    let mut view = view_of(&[1, 2, 3]);
    let reader = view.try_borrow_data().unwrap();
    assert_eq!(view.realloc(2, false), Err(ProgramError::AccountBorrowFailed));
    assert_eq!(view.data_len(), 3);
    assert_eq!(view.borrow_state(), 0x01);
    view.release(reader);

    let lamports = view.try_borrow_mut_lamports().unwrap();
    assert_eq!(view.realloc(2, false), Ok(()));
    assert_eq!(view.data_len(), 2);
    assert_eq!(view.borrow_state(), 0x80);
    view.release_mut_lamports(lamports);
}

#[test]
fn realloc_clears_the_bytes_that_come_into_view_and_no_other() {
    let mut view = view_of(&[1, 2, 3, 4, 5]);
    assert_eq!(view.realloc(2, true), Ok(()));
    assert_eq!(view.borrow_data_unchecked(), &[1, 2]);

    // without clearing, what was written before is seen again
    assert_eq!(view.realloc(4, false), Ok(()));
    assert_eq!(view.borrow_data_unchecked(), &[1, 2, 3, 4]);

    // with clearing, the bytes from the old length to the new one are zero
    assert_eq!(view.realloc(2, false), Ok(()));
    assert_eq!(view.realloc(4, true), Ok(()));
    assert_eq!(view.borrow_data_unchecked(), &[1, 2, 0, 0]);

    // the byte beyond the new length was left alone
    assert_eq!(view.realloc(5, false), Ok(()));
    assert_eq!(view.borrow_data_unchecked(), &[1, 2, 0, 0, 5]);

    assert_eq!(view.realloc(7, true), Ok(()));
    assert_eq!(view.borrow_data_unchecked(), &[1, 2, 0, 0, 5, 0, 0]);
}

#[test]
fn close_is_refused_while_the_data_are_held() {
    let mut view = view_of(&[1, 2, 3]);
    let reader = view.try_borrow_data().unwrap();
    assert_eq!(view.close(), Err(ProgramError::AccountBorrowFailed));
    assert_eq!(view.data_len(), 3);
    assert_eq!(view.lamports(), 10_000);
    assert_eq!(view.owner(), &Address([9u8; 32]));
    view.release(reader);

    let writer = view.try_borrow_mut_data().unwrap();
    assert_eq!(view.close(), Err(ProgramError::AccountBorrowFailed));
    view.release_mut(writer);

    assert_eq!(view.close(), Ok(()));
    assert_eq!(view.data_len(), 0);
    assert!(view.data_is_empty());
    assert_eq!(view.lamports(), 0);
    assert_eq!(view.owner(), &Address([0u8; 32]));
    assert_eq!(view.key(), &Address([7u8; 32]));
    assert_eq!(view.borrow_state(), 0);

    // the bytes that were the data are still there
    assert_eq!(view.realloc(3, false), Ok(()));
    assert_eq!(view.borrow_data_unchecked(), &[1, 2, 3]);
}

#[test]
fn close_unchecked_does_not_look_at_the_borrow_state() {
    let mut view = view_of(&[1, 2, 3]);
    let reader = view.try_borrow_data().unwrap();
    view.close_unchecked();
    assert_eq!(view.data_len(), 0);
    assert_eq!(view.lamports(), 0);
    assert_eq!(view.owner(), &Address([0u8; 32]));
    assert_eq!(view.borrow_state(), 0x01);
    assert_eq!(view.release(reader), vec![1, 2, 3]);
    assert_eq!(view.borrow_state(), 0x00);
}

#[test]
fn realloc_to_nothing_and_to_more_than_fits() {
    let mut view = view_of(&[1, 2, 3]);
    assert_eq!(view.realloc(usize::MAX, true), Err(ProgramError::InvalidRealloc));
    assert_eq!(view.borrow_data_unchecked(), &[1, 2, 3]);
    assert_eq!(view.realloc(0, true), Ok(()));
    assert!(view.data_is_empty());
    assert_eq!(view.realloc(3, false), Ok(()));
    assert_eq!(view.borrow_data_unchecked(), &[1, 2, 3]);
    assert_eq!(view.borrow_state(), 0);
}

#[test]
fn a_refused_realloc_does_not_record_the_original_length() {
    let mut view = view_of(&[1, 2, 3]);
    assert_eq!(
        view.realloc(3 + MAX_PERMITTED_DATA_INCREASE + 1, true),
        Err(ProgramError::InvalidRealloc)
    );
    // the length that counts as the original one is still the present one
    view.close_unchecked();
    assert_eq!(view.realloc(MAX_PERMITTED_DATA_INCREASE + 1, false), Err(ProgramError::InvalidRealloc));
    assert_eq!(view.realloc(MAX_PERMITTED_DATA_INCREASE, false), Ok(()));
}

#[test]
fn default_header_is_empty() {
    let header = Account::default();
    assert_eq!(header.borrow_state, 0);
    assert_eq!(header.lamports, 0);
    assert_eq!(header.data_len, 0);
    assert_eq!(header.original_data_len, 0);
    assert_eq!(header.key, Address([0; 32]));
    let view = AccountView::new(header, vec![0; MAX_PERMITTED_DATA_INCREASE]).unwrap();
    assert!(view.data_is_empty());
}

#[test]
fn realloc_records_the_original_length_when_the_length_first_changes() {
    // a request for the present length leaves the whole record as it is
    let mut view = view_of(&[1, 2, 3]);
    assert_eq!(view.realloc(3, true), Ok(()));
    let (raw, region) = view.into_parts();
    assert_eq!(raw, header(3));
    assert_eq!(&region[..3], &[1, 2, 3]);
    assert!(region[3..].iter().all(|b| *b == 0));
    assert_eq!(region.len(), 3 + MAX_PERMITTED_DATA_INCREASE);

    // so does a request that is refused
    let mut view = view_of(&[1, 2, 3]);
    assert_eq!(
        view.realloc(3 + MAX_PERMITTED_DATA_INCREASE + 1, true),
        Err(ProgramError::InvalidRealloc)
    );
    let reader = view.try_borrow_data().unwrap();
    assert_eq!(view.realloc(1, true), Err(ProgramError::AccountBorrowFailed));
    view.release(reader);
    let (raw, region) = view.into_parts();
    assert_eq!(raw, header(3));
    assert_eq!(&region[..3], &[1, 2, 3]);

    // a change of the length records the length that the data had
    let mut view = view_of(&[1, 2, 3]);
    assert_eq!(view.realloc(2, false), Ok(()));
    assert_eq!(view.realloc(10, false), Ok(()));
    let (raw, region) = view.into_parts();
    let mut expected = header(10);
    expected.original_data_len = SET_LEN_MASK | 3;
    assert_eq!(raw, expected);
    assert_eq!(&region[..4], &[1, 2, 3, 0]);
}
