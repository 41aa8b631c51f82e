//! Handles: a value together with the duty to give one borrow back.
//!
//! A handle is made when a borrow is counted in a borrow-state byte. It is
//! not copied: changing what it holds hands the duty on to the handle that
//! comes out, and releasing it gives the borrow back to the byte, once.
//! No function here but `release` touches a borrow-state byte.

use vstd::prelude::*;
use crate::borrow_state::{
    after_acquire_read, after_acquire_write, after_release_read, after_release_write, can_read,
    can_write, decode, lemma_read_round_trip, lemma_write_round_trip, mask_shift, release_read,
    release_write, valid_mask, valid_shift,
};

verus! {

/// A read handle: a value that is held under one counted reader.
pub struct Ref<T> {
    /// What the handle gives access to.
    value: T,
    /// The sub-state in which the reader was counted.
    borrow_shift: u8,
}

/// A write handle: a value that is held under the write flag.
pub struct RefMut<T> {
    /// What the handle gives access to.
    value: T,
    /// The mask that clears the write flag under which the value is held.
    borrow_mask: u8,
}

impl<T> View for Ref<T> {
    type V = T;

    /// The value that the handle gives access to.
    closed spec fn view(&self) -> T {
        self.value
    }
}

impl<T> View for RefMut<T> {
    type V = T;

    /// The value that the handle gives access to.
    closed spec fn view(&self) -> T {
        self.value
    }
}

impl<T> core::ops::Deref for Ref<T> {
    type Target = T;

    /// The value that the handle gives access to.
    fn deref(&self) -> (value: &T)
        ensures
            *value == self@,
    {
        &self.value
    }
}

impl<T> core::ops::Deref for RefMut<T> {
    type Target = T;

    /// The value that the handle gives access to.
    fn deref(&self) -> (value: &T)
        ensures
            *value == self@,
    {
        &self.value
    }
}

impl<T> Ref<T> {
    /// The sub-state in which the handle's reader is counted.
    pub closed spec fn shift(self) -> u8 {
        self.borrow_shift
    }

    /// A handle names one of the two sub-states.
    pub open spec fn wf(self) -> bool {
        valid_shift(self.shift())
    }

    /// Makes the handle for a reader that has been counted at `borrow_shift`.
    pub fn new(value: T, borrow_shift: u8) -> (handle: Self)
        requires
            valid_shift(borrow_shift),
        ensures
            handle@ == value,
            handle.shift() == borrow_shift,
            handle.wf(),
    {
        Ref { value, borrow_shift }
    }

    /// The sub-state in which the handle's reader is counted.
    pub fn borrow_shift(&self) -> (shift: u8)
        ensures
            shift == self.shift(),
    {
        self.borrow_shift
    }

    /// Makes a handle over `f(value)` that stands for the same reader.
    pub fn map<U, F>(orig: Ref<T>, f: F) -> (handle: Ref<U>) where F: FnOnce(T) -> U
        requires
            f.requires((orig@,)),
        ensures
            f.ensures((orig@,), handle@),
            handle.shift() == orig.shift(),
    {
        let Ref { value, borrow_shift } = orig;
        Ref { value: f(value), borrow_shift }
    }

    /// Makes a handle over what `f` picks from the value. Where `f` declines,
    /// the handle comes back as it was.
    pub fn filter_map<U, F>(orig: Ref<T>, f: F) -> (r: Result<Ref<U>, Self>) where
        F: FnOnce(&T) -> Option<U>,

        requires
            f.requires((&orig@,)),
        ensures
            match r {
                Ok(handle) => f.ensures((&orig@,), Some(handle@)) && handle.shift()
                    == orig.shift(),
                Err(handle) => f.ensures((&orig@,), None) && handle == orig,
            },
    {
        match f(&orig.value) {
            Some(value) => Ok(Ref { value, borrow_shift: orig.borrow_shift }),
            None => Err(orig),
        }
    }

    /// Gives the reader back to `state` and hands out the value.
    pub fn release(self, state: &mut u8) -> (value: T)
        requires
            self.wf(),
            decode(*old(state), self.shift()).readers >= 1,
        ensures
            value == self@,
            *final(state) == after_release_read(*old(state), self.shift()),
    {
        release_read(state, self.borrow_shift);
        self.value
    }
}

impl<T> RefMut<T> {
    /// The mask that clears the write flag under which the value is held.
    pub closed spec fn mask(self) -> u8 {
        self.borrow_mask
    }

    /// The sub-state whose write flag the handle holds.
    pub open spec fn shift(self) -> u8 {
        mask_shift(self.mask())
    }

    /// A handle names one of the two sub-states.
    pub open spec fn wf(self) -> bool {
        valid_mask(self.mask())
    }

    /// Makes the handle for a writer whose flag `borrow_mask` clears.
    pub fn new(value: T, borrow_mask: u8) -> (handle: Self)
        requires
            valid_mask(borrow_mask),
        ensures
            handle@ == value,
            handle.mask() == borrow_mask,
            handle.wf(),
    {
        RefMut { value, borrow_mask }
    }

    /// The mask that clears the write flag under which the value is held.
    pub fn borrow_mask(&self) -> (mask: u8)
        ensures
            mask == self.mask(),
    {
        self.borrow_mask
    }

    /// The value that the handle gives access to, to be changed in place.
    pub fn get_mut(&mut self) -> (value: &mut T)
        ensures
            *value == old(self)@,
            final(self)@ == *final(value),
            final(self).mask() == old(self).mask(),
    {
        &mut self.value
    }

    /// Makes a handle over `f(value)` that stands for the same writer.
    pub fn map<U, F>(orig: RefMut<T>, f: F) -> (handle: RefMut<U>) where F: FnOnce(T) -> U
        requires
            f.requires((orig@,)),
        ensures
            f.ensures((orig@,), handle@),
            handle.mask() == orig.mask(),
    {
        let RefMut { value, borrow_mask } = orig;
        RefMut { value: f(value), borrow_mask }
    }

    /// Makes a handle over what `f` makes of the value. Where `f` declines
    /// and hands the value back, the handle comes back over it.
    pub fn filter_map<U, F>(orig: RefMut<T>, f: F) -> (r: Result<RefMut<U>, Self>) where
        F: FnOnce(T) -> Result<U, T>,

        requires
            f.requires((orig@,)),
        ensures
            match r {
                Ok(handle) => f.ensures((orig@,), Ok(handle@)) && handle.mask() == orig.mask(),
                Err(handle) => f.ensures((orig@,), Err(handle@)) && handle.mask()
                    == orig.mask() && (handle@ == orig@ ==> handle == orig),
            },
    {
        let RefMut { value, borrow_mask } = orig;
        match f(value) {
            Ok(value) => Ok(RefMut { value, borrow_mask }),
            Err(value) => Err(RefMut { value, borrow_mask }),
        }
    }

    /// Clears the write flag in `state` and hands out the value.
    pub fn release(self, state: &mut u8) -> (value: T)
        requires
            self.wf(),
        ensures
            value == self@,
            *final(state) == after_release_write(*old(state), self.shift()),
    {
        release_write(state, self.borrow_mask);
        self.value
    }
}

/// A reader that is counted in a byte, handed from handle to handle by any
/// number of changes, and given back by the last handle leaves the byte as
/// it was before the reader was counted: the changes keep the sub-state that
/// the first handle named, and giving back undoes the counting.
pub proof fn lemma_read_released_after_changes<A, B>(state: u8, first: Ref<A>, last: Ref<B>)
    requires
        first.wf(),
        last.shift() == first.shift(),
        can_read(state, first.shift()),
    ensures
        0 <= after_acquire_read(state, first.shift()) < 256,
        decode(after_acquire_read(state, first.shift()) as u8, last.shift()).readers >= 1,
        after_release_read(after_acquire_read(state, first.shift()) as u8, last.shift())
            == state,
{
    lemma_read_round_trip(state, first.shift());
}

/// A writer that is recorded in a byte, handed from handle to handle by any
/// number of changes, and given back by the last handle leaves the byte as
/// it was before the writer was recorded.
pub proof fn lemma_write_released_after_changes<A, B>(
    state: u8,
    first: RefMut<A>,
    last: RefMut<B>,
)
    requires
        first.wf(),
        last.mask() == first.mask(),
        can_write(state, first.shift()),
    ensures
        0 <= after_acquire_write(state, first.shift()) < 256,
        after_release_write(after_acquire_write(state, first.shift()) as u8, last.shift())
            == state,
{
    lemma_write_round_trip(state, first.shift());
}

} // verus!
