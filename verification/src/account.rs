//! Account records and the view through which a program uses one.

use vstd::prelude::*;
use crate::address::{Address, ADDRESS_BYTES};
use crate::borrow_state::{
    acquire_read, acquire_write, after_acquire_read, after_acquire_write, after_release_read,
    after_release_write, can_read, can_write, check_read, check_write, decode,
    lemma_read_round_trip, lemma_write_round_trip, valid_shift, DATA_MASK, DATA_SHIFT,
    LAMPORTS_MASK, LAMPORTS_SHIFT,
};
use crate::error::ProgramError;
use crate::handle::{Ref, RefMut};

verus! {

/// Maximum number of bytes by which the data of an account may grow beyond
/// the length it had when the record was handed over.
pub const MAX_PERMITTED_DATA_INCREASE: usize = 10_240;

/// The bit of `original_data_len` that says that the original length has
/// been recorded. A length never reaches this value.
pub const SET_LEN_MASK: u32 = 0x8000_0000;

/// The bits of `original_data_len` that hold the original length.
pub const GET_LEN_MASK: u32 = 0x7fff_ffff;

/// The header of an account record.
#[derive(Clone, Copy, Debug, PartialEq, Eq)]
pub struct Account {
    /// Who holds the lamports and the data: the upper four bits for the
    /// lamports, the lower four for the data; in each, one write flag above
    /// a count of up to seven readers.
    pub borrow_state: u8,
    /// Whether the transaction was signed by this account; zero means no.
    pub is_signer: u8,
    /// Whether the account is writable; zero means no.
    pub is_writable: u8,
    /// Whether the account is a program; zero means no.
    pub executable: u8,
    /// The length that the data had when the record was handed over, once
    /// it has been recorded: then the top bit is set and the bits below it
    /// hold the length.
    pub original_data_len: u32,
    /// Address of the account.
    pub key: Address,
    /// Program that owns the account.
    pub owner: Address,
    /// The lamports in the account.
    pub lamports: u64,
    /// Length of the data.
    pub data_len: u64,
}

impl Default for Account {
    /// The header of an account that has nothing and that nobody holds.
    fn default() -> (header: Account)
        ensures
            header == (Account {
                borrow_state: 0,
                is_signer: 0,
                is_writable: 0,
                executable: 0,
                original_data_len: 0,
                key: Address([0u8; ADDRESS_BYTES]),
                owner: Address([0u8; ADDRESS_BYTES]),
                lamports: 0,
                data_len: 0,
            }),
    {
        Account {
            borrow_state: 0,
            is_signer: 0,
            is_writable: 0,
            executable: 0,
            original_data_len: 0,
            key: Address([0u8; ADDRESS_BYTES]),
            owner: Address([0u8; ADDRESS_BYTES]),
            lamports: 0,
            data_len: 0,
        }
    }
}

/// What a view stands for: the header, and the bytes that follow it. The
/// first `data_len` of them are the data; the rest is room to grow into.
pub struct Record {
    /// The header of the record.
    pub header: Account,
    /// The bytes that follow the header.
    pub region: Seq<u8>,
}

impl Record {
    /// Length of the data.
    pub open spec fn data_len(self) -> int {
        self.header.data_len as int
    }

    /// The data of the account.
    pub open spec fn data(self) -> Seq<u8> {
        self.region.subrange(0, self.data_len())
    }

    /// Whether the original length has been recorded.
    pub open spec fn original_len_recorded(self) -> bool {
        self.header.original_data_len >= SET_LEN_MASK
    }

    /// The original length: the one that was recorded, or else the present
    /// length, which is the one that would be recorded now.
    pub open spec fn original_len(self) -> int {
        if self.original_len_recorded() {
            self.header.original_data_len - SET_LEN_MASK
        } else {
            self.data_len()
        }
    }

    /// The data lie within the region, together with all the room that they
    /// may grow into, and no length comes near the flag bit.
    pub open spec fn wf(self) -> bool {
        &&& self.region.len() < SET_LEN_MASK
        &&& self.data_len() <= self.original_len() + MAX_PERMITTED_DATA_INCREASE
        &&& self.original_len() + MAX_PERMITTED_DATA_INCREASE <= self.region.len()
    }

    /// The record with another borrow-state byte.
    pub open spec fn with_borrow_state(self, borrow_state: u8) -> Record {
        Record { header: Account { borrow_state, ..self.header }, ..self }
    }

    /// The record with other lamports.
    pub open spec fn with_lamports(self, lamports: u64) -> Record {
        Record { header: Account { lamports, ..self.header }, ..self }
    }

    /// The record with another owner.
    pub open spec fn with_owner(self, owner: Address) -> Record {
        Record { header: Account { owner, ..self.header }, ..self }
    }

    /// The record with other data of the same length.
    pub open spec fn with_data(self, data: Seq<u8>) -> Record {
        Record {
            region: data + self.region.subrange(self.data_len(), self.region.len() as int),
            ..self
        }
    }

    /// The region with the bytes from `from` up to `to` cleared.
    pub open spec fn cleared(self, from: int, to: int) -> Seq<u8> {
        Seq::new(
            self.region.len(),
            |i: int| if from <= i < to { 0u8 } else { self.region[i] },
        )
    }

    /// The record after its data were given the length `new_len`: the
    /// original length is recorded, and the bytes that come into view are
    /// cleared if that was asked for. With the length it has, the record
    /// stays as it is.
    pub open spec fn resized(self, new_len: int, zero_init: bool) -> Record {
        if new_len == self.data_len() {
            self
        } else {
            Record {
                header: Account {
                    data_len: new_len as u64,
                    original_data_len: (self.original_len() + SET_LEN_MASK) as u32,
                    ..self.header
                },
                region: if zero_init {
                    self.cleared(self.data_len(), new_len)
                } else {
                    self.region
                },
            }
        }
    }

    /// What a request for the length `new_len` is answered with: it is
    /// refused while anybody holds the data, granted where the data have
    /// that length, and else granted up to `MAX_PERMITTED_DATA_INCREASE`
    /// bytes above the original length.
    pub open spec fn realloc_result(self, new_len: int) -> Result<(), ProgramError> {
        if !can_write(self.header.borrow_state, DATA_SHIFT) {
            Err(ProgramError::AccountBorrowFailed)
        } else if new_len == self.data_len() {
            Ok(())
        } else if new_len > self.original_len() + MAX_PERMITTED_DATA_INCREASE {
            Err(ProgramError::InvalidRealloc)
        } else {
            Ok(())
        }
    }

    /// The record after it was closed: no owner, no lamports, no data. The
    /// bytes of the region stay.
    pub open spec fn closed(self) -> Record {
        Record {
            header: Account {
                owner: Address([0u8; ADDRESS_BYTES]),
                lamports: 0,
                data_len: 0,
                ..self.header
            },
            ..self
        }
    }
}

/// A program's view of one account record.
///
/// The host may name one account several times in an invocation. All who
/// hold it then work through this one view, and so see and change the same
/// borrow-state byte: what one of them holds, the view refuses to the
/// others as far as the two do not go together.
pub struct AccountView {
    /// The header of the record.
    raw: Account,
    /// The bytes that follow the header: the data, then the room to grow.
    region: Vec<u8>,
}

impl View for AccountView {
    type V = Record;

    closed spec fn view(&self) -> Record {
        Record { header: self.raw, region: self.region@ }
    }
}

/// What the flag bit and the bits below it say of a recorded length.
proof fn lemma_original_len_bits(length: u32)
    by (bit_vector)
    ensures
        (length & SET_LEN_MASK == SET_LEN_MASK) <==> length >= SET_LEN_MASK,
        length >= SET_LEN_MASK ==> (length & GET_LEN_MASK) == length - SET_LEN_MASK,
        length < SET_LEN_MASK ==> (length | SET_LEN_MASK) == length + SET_LEN_MASK,
{
}

impl AccountView {
    /// The view of the record that is made of the header `raw` and of the
    /// bytes `region` that follow it. There is none where the data, or the
    /// room they may grow into, do not lie within the region.
    pub fn new(raw: Account, region: Vec<u8>) -> (view: Option<AccountView>)
        ensures
            view.is_some() <==> (Record { header: raw, region: region@ }).wf(),
            view matches Some(v) ==> v@ == (Record { header: raw, region: region@ }),
    {
        proof {
            lemma_original_len_bits(raw.original_data_len);
        }
        if region.len() >= 0x8000_0000 {
            return None;
        }
        let original_len: u64 = if raw.original_data_len & SET_LEN_MASK == SET_LEN_MASK {
            (raw.original_data_len & GET_LEN_MASK) as u64
        } else {
            raw.data_len
        };
        if original_len > region.len() as u64 || region.len() as u64 - original_len
            < MAX_PERMITTED_DATA_INCREASE as u64 {
            return None;
        }
        if raw.data_len > original_len + MAX_PERMITTED_DATA_INCREASE as u64 {
            return None;
        }
        Some(AccountView { raw, region })
    }

    /// Hands the record back: its header, and the bytes that follow it.
    pub fn into_parts(self) -> (parts: (Account, Vec<u8>))
        ensures
            parts.0 == self@.header,
            parts.1@ == self@.region,
    {
        (self.raw, self.region)
    }

    /// Address of the account.
    pub fn key(&self) -> (key: &Address)
        ensures
            *key == self@.header.key,
    {
        &self.raw.key
    }

    /// Program that owns the account.
    pub fn owner(&self) -> (owner: &Address)
        ensures
            *owner == self@.header.owner,
    {
        &self.raw.owner
    }

    /// Whether the transaction was signed by this account.
    pub fn is_signer(&self) -> (yes: bool)
        ensures
            yes <==> self@.header.is_signer != 0,
    {
        self.raw.is_signer != 0
    }

    /// Whether the account is writable.
    pub fn is_writable(&self) -> (yes: bool)
        ensures
            yes <==> self@.header.is_writable != 0,
    {
        self.raw.is_writable != 0
    }

    /// Whether the account is a program.
    pub fn executable(&self) -> (yes: bool)
        ensures
            yes <==> self@.header.executable != 0,
    {
        self.raw.executable != 0
    }

    /// Length of the data.
    pub fn data_len(&self) -> (len: usize)
        requires
            self@.wf(),
        ensures
            len == self@.data_len(),
    {
        self.raw.data_len as usize
    }

    /// The lamports in the account.
    pub fn lamports(&self) -> (lamports: u64)
        ensures
            lamports == self@.header.lamports,
    {
        self.raw.lamports
    }

    /// Whether the account has no data.
    pub fn data_is_empty(&self) -> (empty: bool)
        requires
            self@.wf(),
        ensures
            empty <==> self@.data_len() == 0,
    {
        self.data_len() == 0
    }

    /// Whether `program` owns the account.
    pub fn is_owned_by(&self, program: &Address) -> (yes: bool)
        ensures
            yes <==> self@.header.owner == *program,
    {
        self.raw.owner.equals(program)
    }

    /// The borrow-state byte of the record.
    pub fn borrow_state(&self) -> (state: u8)
        ensures
            state == self@.header.borrow_state,
    {
        self.raw.borrow_state
    }

    /// Makes `new_owner` the owner of the account.
    pub fn assign(&mut self, new_owner: &Address)
        ensures
            final(self)@ == old(self)@.with_owner(*new_owner),
    {
        self.raw.owner = *new_owner;
    }

    /// The lamports, without a look at the borrow state.
    pub fn borrow_lamports_unchecked(&self) -> (lamports: &u64)
        ensures
            *lamports == self@.header.lamports,
    {
        &self.raw.lamports
    }

    /// The lamports, to be changed in place, without a look at the borrow
    /// state.
    pub fn borrow_mut_lamports_unchecked(&mut self) -> (lamports: &mut u64)
        ensures
            *lamports == old(self)@.header.lamports,
            final(self)@ == old(self)@.with_lamports(*final(lamports)),
    {
        &mut self.raw.lamports
    }

    /// The data, without a look at the borrow state.
    pub fn borrow_data_unchecked(&self) -> (data: &[u8])
        requires
            self@.wf(),
        ensures
            data@ == self@.data(),
    {
        let len = self.data_len();
        vstd::slice::slice_subrange(self.region.as_slice(), 0, len)
    }

    /// The data, to be changed in place, without a look at the borrow state.
    pub fn borrow_mut_data_unchecked(&mut self) -> (data: &mut [u8])
        requires
            old(self)@.wf(),
        ensures
            data@ == old(self)@.data(),
            final(self)@ == old(self)@.with_data(final(data)@),
    {
        let len = self.data_len();
        let (data, _) = self.region.as_mut_slice().split_at_mut(len);
        data
    }

    /// Tells whether the lamports can be read: no writer holds them, and
    /// fewer than seven readers do.
    pub fn check_borrow_lamports(&self) -> (r: Result<(), ProgramError>)
        ensures
            r.is_ok() <==> can_read(self@.header.borrow_state, LAMPORTS_SHIFT),
            r.is_err() ==> r == Err::<(), ProgramError>(ProgramError::AccountBorrowFailed),
    {
        check_read(self.raw.borrow_state, LAMPORTS_SHIFT)
    }

    /// Tells whether the lamports can be written: nobody holds them.
    pub fn check_borrow_mut_lamports(&self) -> (r: Result<(), ProgramError>)
        ensures
            r.is_ok() <==> can_write(self@.header.borrow_state, LAMPORTS_SHIFT),
            r.is_err() ==> r == Err::<(), ProgramError>(ProgramError::AccountBorrowFailed),
    {
        check_write(self.raw.borrow_state, LAMPORTS_SHIFT)
    }

    /// Tells whether the data can be read: no writer holds them, and fewer
    /// than seven readers do.
    pub fn check_borrow_data(&self) -> (r: Result<(), ProgramError>)
        ensures
            r.is_ok() <==> can_read(self@.header.borrow_state, DATA_SHIFT),
            r.is_err() ==> r == Err::<(), ProgramError>(ProgramError::AccountBorrowFailed),
    {
        check_read(self.raw.borrow_state, DATA_SHIFT)
    }

    /// Tells whether the data can be written: nobody holds them.
    pub fn check_borrow_mut_data(&self) -> (r: Result<(), ProgramError>)
        ensures
            r.is_ok() <==> can_write(self@.header.borrow_state, DATA_SHIFT),
            r.is_err() ==> r == Err::<(), ProgramError>(ProgramError::AccountBorrowFailed),
    {
        check_write(self.raw.borrow_state, DATA_SHIFT)
    }

    /// Counts a reader of the lamports and hands out a read handle over
    /// their value. Where no reader can be admitted, nothing changes.
    pub fn try_borrow_lamports(&mut self) -> (r: Result<Ref<u64>, ProgramError>)
        ensures
            match r {
                Ok(handle) => {
                    &&& can_read(old(self)@.header.borrow_state, LAMPORTS_SHIFT)
                    &&& final(self)@ == old(self)@.with_borrow_state(
                        after_acquire_read(old(self)@.header.borrow_state, LAMPORTS_SHIFT) as u8,
                    )
                    &&& handle@ == old(self)@.header.lamports
                    &&& handle.shift() == LAMPORTS_SHIFT
                },
                Err(e) => {
                    &&& !can_read(old(self)@.header.borrow_state, LAMPORTS_SHIFT)
                    &&& e == ProgramError::AccountBorrowFailed
                    &&& final(self)@ == old(self)@
                },
            },
    {
        match acquire_read(&mut self.raw.borrow_state, LAMPORTS_SHIFT) {
            Ok(()) => Ok(Ref::new(self.raw.lamports, LAMPORTS_SHIFT)),
            Err(e) => Err(e),
        }
    }

    /// Records a writer of the lamports and hands out a write handle over
    /// their value. Where somebody holds the lamports, nothing changes.
    pub fn try_borrow_mut_lamports(&mut self) -> (r: Result<RefMut<u64>, ProgramError>)
        ensures
            match r {
                Ok(handle) => {
                    &&& can_write(old(self)@.header.borrow_state, LAMPORTS_SHIFT)
                    &&& final(self)@ == old(self)@.with_borrow_state(
                        after_acquire_write(old(self)@.header.borrow_state, LAMPORTS_SHIFT) as u8,
                    )
                    &&& handle@ == old(self)@.header.lamports
                    &&& handle.mask() == LAMPORTS_MASK
                },
                Err(e) => {
                    &&& !can_write(old(self)@.header.borrow_state, LAMPORTS_SHIFT)
                    &&& e == ProgramError::AccountBorrowFailed
                    &&& final(self)@ == old(self)@
                },
            },
    {
        match acquire_write(&mut self.raw.borrow_state, LAMPORTS_SHIFT) {
            Ok(()) => Ok(RefMut::new(self.raw.lamports, LAMPORTS_MASK)),
            Err(e) => Err(e),
        }
    }

    /// Counts a reader of the data and hands out a read handle over the
    /// bytes as they stand. Where no reader can be admitted, nothing changes.
    pub fn try_borrow_data(&mut self) -> (r: Result<Ref<Vec<u8>>, ProgramError>)
        requires
            old(self)@.wf(),
        ensures
            match r {
                Ok(handle) => {
                    &&& can_read(old(self)@.header.borrow_state, DATA_SHIFT)
                    &&& final(self)@ == old(self)@.with_borrow_state(
                        after_acquire_read(old(self)@.header.borrow_state, DATA_SHIFT) as u8,
                    )
                    &&& handle@@ == old(self)@.data()
                    &&& handle.shift() == DATA_SHIFT
                },
                Err(e) => {
                    &&& !can_read(old(self)@.header.borrow_state, DATA_SHIFT)
                    &&& e == ProgramError::AccountBorrowFailed
                    &&& final(self)@ == old(self)@
                },
            },
    {
        match acquire_read(&mut self.raw.borrow_state, DATA_SHIFT) {
            Ok(()) => {
                let data = vstd::slice::slice_to_vec(self.borrow_data_unchecked());
                Ok(Ref::new(data, DATA_SHIFT))
            },
            Err(e) => Err(e),
        }
    }

    /// Records a writer of the data and hands out a write handle over the
    /// bytes as they stand. Where somebody holds the data, nothing changes.
    pub fn try_borrow_mut_data(&mut self) -> (r: Result<RefMut<Vec<u8>>, ProgramError>)
        requires
            old(self)@.wf(),
        ensures
            match r {
                Ok(handle) => {
                    &&& can_write(old(self)@.header.borrow_state, DATA_SHIFT)
                    &&& final(self)@ == old(self)@.with_borrow_state(
                        after_acquire_write(old(self)@.header.borrow_state, DATA_SHIFT) as u8,
                    )
                    &&& handle@@ == old(self)@.data()
                    &&& handle.mask() == DATA_MASK
                },
                Err(e) => {
                    &&& !can_write(old(self)@.header.borrow_state, DATA_SHIFT)
                    &&& e == ProgramError::AccountBorrowFailed
                    &&& final(self)@ == old(self)@
                },
            },
    {
        match acquire_write(&mut self.raw.borrow_state, DATA_SHIFT) {
            Ok(()) => {
                let data = vstd::slice::slice_to_vec(self.borrow_data_unchecked());
                Ok(RefMut::new(data, DATA_MASK))
            },
            Err(e) => Err(e),
        }
    }

    /// Gives back the reader that `handle` stands for, and hands out the
    /// value that it held.
    pub fn release<T>(&mut self, handle: Ref<T>) -> (value: T)
        requires
            handle.wf(),
            decode(old(self)@.header.borrow_state, handle.shift()).readers >= 1,
        ensures
            value == handle@,
            final(self)@ == old(self)@.with_borrow_state(
                after_release_read(old(self)@.header.borrow_state, handle.shift()) as u8,
            ),
    {
        handle.release(&mut self.raw.borrow_state)
    }

    /// Gives back the writer that `handle` stands for, and hands out the
    /// value that it held. The record keeps the lamports and the data that
    /// it has.
    pub fn release_mut<T>(&mut self, handle: RefMut<T>) -> (value: T)
        requires
            handle.wf(),
        ensures
            value == handle@,
            final(self)@ == old(self)@.with_borrow_state(
                after_release_write(old(self)@.header.borrow_state, handle.shift()) as u8,
            ),
    {
        handle.release(&mut self.raw.borrow_state)
    }

    /// Stores the lamports that `handle` holds and gives back its writer.
    pub fn release_mut_lamports(&mut self, handle: RefMut<u64>)
        requires
            handle.mask() == LAMPORTS_MASK,
        ensures
            final(self)@ == old(self)@.with_lamports(handle@).with_borrow_state(
                after_release_write(old(self)@.header.borrow_state, LAMPORTS_SHIFT) as u8,
            ),
    {
        let lamports = handle.release(&mut self.raw.borrow_state);
        self.raw.lamports = lamports;
    }

    /// Stores the data that `handle` holds and gives back its writer. The
    /// handle holds as many bytes as the data have.
    pub fn release_mut_data(&mut self, handle: RefMut<Vec<u8>>)
        requires
            old(self)@.wf(),
            handle.mask() == DATA_MASK,
            handle@@.len() == old(self)@.data_len(),
        ensures
            final(self)@ == old(self)@.with_data(handle@@).with_borrow_state(
                after_release_write(old(self)@.header.borrow_state, DATA_SHIFT) as u8,
            ),
    {
        let data = handle.release(&mut self.raw.borrow_state);
        let len = data.len();
        let mut i: usize = 0;
        while i < len
            invariant
                i <= len,
                len == data@.len(),
                len <= self.region@.len(),
                self.region@.len() == old(self).region@.len(),
                self.raw == old(self)@.with_borrow_state(
                    after_release_write(old(self)@.header.borrow_state, DATA_SHIFT) as u8,
                ).header,
                forall|j: int| 0 <= j < i ==> self.region@[j] == data@[j],
                forall|j: int| i <= j < self.region@.len() ==> self.region@[j] == old(
                    self,
                ).region@[j],
            decreases len - i,
        {
            self.region[i] = data[i];
            i += 1;
        }
        assert(self.region@ =~= old(self)@.with_data(data@).region);
    }

    /// Gives the data the length `new_len`, and clears the bytes that come
    /// into view if `zero_init` asks for it.
    ///
    /// The data are held for writing while this is done, so the call is
    /// refused while anybody holds them. The length may exceed the original
    /// one by no more than `MAX_PERMITTED_DATA_INCREASE`; the original length
    /// is recorded when the length first changes. A call that is refused
    /// changes nothing, and neither does one that asks for the length that
    /// the data have.
    pub fn realloc(&mut self, new_len: usize, zero_init: bool) -> (r: Result<(), ProgramError>)
        requires
            old(self)@.wf(),
        ensures
            r == old(self)@.realloc_result(new_len as int),
            r.is_ok() ==> final(self)@ == old(self)@.resized(new_len as int, zero_init),
            r.is_err() ==> final(self)@ == old(self)@,
            final(self)@.wf(),
    {
        if acquire_write(&mut self.raw.borrow_state, DATA_SHIFT).is_err() {
            return Err(ProgramError::AccountBorrowFailed);
        }
        let current_len = self.raw.data_len as usize;
        let mut data = RefMut::new(current_len, DATA_MASK);

        if new_len == current_len {
            data.release(&mut self.raw.borrow_state);
            return Ok(());
        }
        let length = self.raw.original_data_len;
        proof {
            lemma_original_len_bits(length);
        }
        let original_len = if length & SET_LEN_MASK == SET_LEN_MASK {
            (length & GET_LEN_MASK) as usize
        } else {
            current_len
        };

        if new_len.saturating_sub(original_len) > MAX_PERMITTED_DATA_INCREASE {
            data.release(&mut self.raw.borrow_state);
            return Err(ProgramError::InvalidRealloc);
        }
        proof {
            lemma_original_len_bits(original_len as u32);
        }
        self.raw.original_data_len = (original_len as u32) | SET_LEN_MASK;
        self.raw.data_len = new_len as u64;
        *data.get_mut() = new_len;

        let ghost header = self.raw;
        if zero_init {
            let mut i: usize = current_len;
            while i < new_len
                invariant
                    current_len <= i,
                    i <= new_len || i == current_len,
                    new_len <= self.region@.len(),
                    self.region@.len() == old(self).region@.len(),
                    self.raw == header,
                    forall|j: int|
                        0 <= j < self.region@.len() ==> self.region@[j] == (if current_len <= j
                            < i {
                            0u8
                        } else {
                            old(self).region@[j]
                        }),
                decreases new_len - i,
            {
                self.region[i] = 0;
                i += 1;
            }
        }
        data.release(&mut self.raw.borrow_state);
        assert(self.region@ =~= old(self)@.resized(new_len as int, zero_init).region);
        Ok(())
    }

    /// Closes the account: it is left with no owner, no lamports and no
    /// data, while the bytes that were its data stay as they are. The call
    /// is refused, and changes nothing, while anybody holds the data.
    pub fn close(&mut self) -> (r: Result<(), ProgramError>)
        ensures
            r.is_ok() <==> can_write(old(self)@.header.borrow_state, DATA_SHIFT),
            r.is_ok() ==> final(self)@ == old(self)@.closed(),
            r.is_err() ==> final(self)@ == old(self)@ && r == Err::<(), ProgramError>(
                ProgramError::AccountBorrowFailed,
            ),
    {
        match self.check_borrow_mut_data() {
            Ok(()) => {
                self.close_unchecked();
                Ok(())
            },
            Err(e) => Err(e),
        }
    }

    /// Closes the account without a look at the borrow state: it is left
    /// with no owner, no lamports and no data, while the bytes that were its
    /// data stay as they are.
    pub fn close_unchecked(&mut self)
        ensures
            final(self)@ == old(self)@.closed(),
    {
        self.raw.owner = Address([0u8; ADDRESS_BYTES]);
        self.raw.lamports = 0;
        self.raw.data_len = 0;
    }
}

/// A handle that is taken and given back leaves the record as it was,
/// whatever was made of the handle in between: no function that changes a
/// handle touches the record, and the handle that comes out of it names the
/// sub-state that the first one named.
pub proof fn lemma_borrow_then_release(record: Record, shift: u8)
    requires
        valid_shift(shift),
    ensures
        can_read(record.header.borrow_state, shift) ==> record.with_borrow_state(
            after_acquire_read(record.header.borrow_state, shift) as u8,
        ).with_borrow_state(
            after_release_read(
                after_acquire_read(record.header.borrow_state, shift) as u8,
                shift,
            ) as u8,
        ) == record,
        can_write(record.header.borrow_state, shift) ==> record.with_borrow_state(
            after_acquire_write(record.header.borrow_state, shift) as u8,
        ).with_borrow_state(
            after_release_write(
                after_acquire_write(record.header.borrow_state, shift) as u8,
                shift,
            ) as u8,
        ) == record,
{
    if can_read(record.header.borrow_state, shift) {
        lemma_read_round_trip(record.header.borrow_state, shift);
    }
    if can_write(record.header.borrow_state, shift) {
        lemma_write_round_trip(record.header.borrow_state, shift);
    }
}

/// A request for the length that the data have changes nothing.
pub proof fn lemma_resize_to_same_length(record: Record, zero_init: bool)
    ensures
        record.resized(record.data_len(), zero_init) == record,
{
}

/// While nobody holds the data, a request for the original length and
/// `MAX_PERMITTED_DATA_INCREASE` bytes more is granted, and a request for
/// one byte more than that is refused as an invalid resize.
pub proof fn lemma_resize_limit(record: Record)
    requires
        record.wf(),
        can_write(record.header.borrow_state, DATA_SHIFT),
    ensures
        record.realloc_result(record.original_len() + MAX_PERMITTED_DATA_INCREASE) == Ok::<
            (),
            ProgramError,
        >(()),
        record.realloc_result(record.original_len() + MAX_PERMITTED_DATA_INCREASE + 1) == Err::<
            (),
            ProgramError,
        >(ProgramError::InvalidRealloc),
{
}

/// A resize that clears the bytes that come into view clears the bytes from
/// the old length up to the new one and no other; a resize that does not
/// leaves every byte as it is. Either way the original length is the one
/// that it was, and the record stays well formed where the new length is
/// within the limit.
pub proof fn lemma_resized(record: Record, new_len: int, zero_init: bool)
    requires
        record.wf(),
        0 <= new_len <= record.original_len() + MAX_PERMITTED_DATA_INCREASE,
    ensures
        record.resized(new_len, zero_init).wf(),
        record.resized(new_len, zero_init).data_len() == new_len,
        record.resized(new_len, zero_init).original_len() == record.original_len(),
        record.resized(new_len, zero_init).region.len() == record.region.len(),
        forall|i: int|
            0 <= i < record.region.len() ==> #[trigger] record.resized(
                new_len,
                zero_init,
            ).region[i] == (if zero_init && record.data_len() <= i < new_len {
                0u8
            } else {
                record.region[i]
            }),
{
}

/// Closing leaves the record with no owner, no lamports and no data, and
/// leaves every byte of the region as it is.
pub proof fn lemma_closed(record: Record)
    requires
        record.wf(),
    ensures
        record.closed().wf(),
        record.closed().header.owner@ == Seq::new(ADDRESS_BYTES as nat, |i: int| 0u8),
        record.closed().header.lamports == 0,
        record.closed().data_len() == 0,
        record.closed().region == record.region,
        record.closed().header.borrow_state == record.header.borrow_state,
{
    assert(record.closed().header.owner@ =~= Seq::new(ADDRESS_BYTES as nat, |i: int| 0u8));
}

} // verus!
