//! The borrow-state byte.
//!
//! The byte holds two independent sub-states of four bits each: the upper
//! half for the lamports, the lower half for the data. In each half the top
//! bit says that a writer holds the value, and the three bits below it count
//! the readers, of which there can be seven.

use vstd::prelude::*;
use crate::error::ProgramError;

verus! {

/// Position of the lamports sub-state in the byte.
pub const LAMPORTS_SHIFT: u8 = 4;

/// Position of the data sub-state in the byte.
pub const DATA_SHIFT: u8 = 0;

/// Every bit but the write flag of the lamports.
pub const LAMPORTS_MASK: u8 = 0b_0111_1111;

/// Every bit but the write flag of the data.
pub const DATA_MASK: u8 = 0b_1111_0111;

/// The largest number of readers that one sub-state can count.
pub const MAX_READERS: u8 = 7;

/// One half of the byte, taken apart.
#[derive(Clone, Copy, Debug, PartialEq, Eq, Structural)]
pub struct SubState {
    /// Whether a writer holds the value.
    pub write: bool,
    /// How many readers hold the value.
    pub readers: u8,
}

impl SubState {
    /// The sub-state in which nobody holds the value.
    pub open spec fn free() -> SubState {
        SubState { write: false, readers: 0 }
    }

    /// A sub-state counts at most seven readers.
    pub open spec fn wf(self) -> bool {
        self.readers <= MAX_READERS
    }

    /// The four bits that stand for this sub-state.
    pub open spec fn nibble(self) -> int {
        (if self.write { 8int } else { 0int }) + self.readers
    }
}

/// A shift names a sub-state: that of the lamports or that of the data.
pub open spec fn valid_shift(shift: u8) -> bool {
    shift == LAMPORTS_SHIFT || shift == DATA_SHIFT
}

/// A mask names the sub-state whose write flag it leaves out.
pub open spec fn valid_mask(mask: u8) -> bool {
    mask == LAMPORTS_MASK || mask == DATA_MASK
}

/// The shift of the sub-state that a mask belongs to.
pub open spec fn mask_shift(mask: u8) -> u8 {
    if mask == LAMPORTS_MASK { LAMPORTS_SHIFT } else { DATA_SHIFT }
}

/// The shift of the other sub-state.
pub open spec fn other_shift(shift: u8) -> u8 {
    if shift == LAMPORTS_SHIFT { DATA_SHIFT } else { LAMPORTS_SHIFT }
}

/// The four bits of the byte at `shift`, as a number below sixteen.
pub open spec fn nibble_at(state: u8, shift: u8) -> int {
    if shift == LAMPORTS_SHIFT { state as int / 16 } else { state as int % 16 }
}

/// The sub-state that the byte holds at `shift`.
pub open spec fn decode(state: u8, shift: u8) -> SubState {
    SubState { write: nibble_at(state, shift) >= 8, readers: (nibble_at(state, shift) % 8) as u8 }
}

/// The byte that holds the two sub-states.
pub open spec fn encode(lamports: SubState, data: SubState) -> int {
    16 * lamports.nibble() + data.nibble()
}

/// A reader is admitted while no writer holds the value and fewer than seven
/// readers do.
pub open spec fn can_read(state: u8, shift: u8) -> bool {
    !decode(state, shift).write && decode(state, shift).readers < MAX_READERS
}

/// A writer is admitted only while nobody holds the value.
pub open spec fn can_write(state: u8, shift: u8) -> bool {
    decode(state, shift) == SubState::free()
}

/// The byte with the sub-state at `shift` replaced by `sub`.
pub open spec fn with_sub_state(state: u8, shift: u8, sub: SubState) -> int {
    if shift == LAMPORTS_SHIFT {
        encode(sub, decode(state, DATA_SHIFT))
    } else {
        encode(decode(state, LAMPORTS_SHIFT), sub)
    }
}

/// The byte after one more reader was counted at `shift`.
pub open spec fn after_acquire_read(state: u8, shift: u8) -> int {
    with_sub_state(
        state,
        shift,
        SubState { write: false, readers: (decode(state, shift).readers + 1) as u8 },
    )
}

/// The byte after one reader less is counted at `shift`.
pub open spec fn after_release_read(state: u8, shift: u8) -> int {
    with_sub_state(
        state,
        shift,
        SubState {
            write: decode(state, shift).write,
            readers: (decode(state, shift).readers - 1) as u8,
        },
    )
}

/// The byte after the writer was recorded at `shift`.
pub open spec fn after_acquire_write(state: u8, shift: u8) -> int {
    with_sub_state(state, shift, SubState { write: true, readers: 0 })
}

/// The byte after the write flag at `shift` was cleared.
pub open spec fn after_release_write(state: u8, shift: u8) -> int {
    with_sub_state(
        state,
        shift,
        SubState { write: false, readers: decode(state, shift).readers },
    )
}

/// What one reader and the write flag amount to at each of the two shifts.
proof fn lemma_shifted_bits(shift: u8)
    by (bit_vector)
    requires
        shift == 0 || shift == 4,
    ensures
        shift == 0 ==> (1u8 << shift) == 1 && (0b_1000u8 << shift) == 8,
        shift == 4 ==> (1u8 << shift) == 16 && (0b_1000u8 << shift) == 128,
{
}

/// Setting a write flag that is clear adds its weight to the byte.
proof fn lemma_set_write_flag(state: u8)
    by (bit_vector)
    ensures
        state % 16 < 8 ==> (state | 8) == state + 8,
        state < 128 ==> (state | 128) == state + 128,
{
}

/// Clearing a write flag takes its weight off the byte where it was set, and
/// leaves the byte as it is where it was not.
proof fn lemma_clear_write_flag(state: u8)
    by (bit_vector)
    ensures
        (state & 0b_1111_0111) == (if state % 16 >= 8 { state - 8 } else { state as int }),
        (state & 0b_0111_1111) == (if state >= 128 { state - 128 } else { state as int }),
{
}

/// Takes the sub-state at `shift` out of the byte.
pub fn decode_sub_state(state: u8, shift: u8) -> (sub: SubState)
    requires
        valid_shift(shift),
    ensures
        sub == decode(state, shift),
        sub.wf(),
{
    let nibble: u8 = (state >> shift) & 0x0f;
    assert(shift == 0 ==> ((state >> shift) & 0x0f) == state % 16) by (bit_vector);
    assert(shift == 4 ==> ((state >> shift) & 0x0f) == state / 16) by (bit_vector);
    assert((nibble & 0x08 != 0) == (nibble >= 8) && (nibble & 0x07) == nibble % 8) by (bit_vector)
        requires
            nibble < 16,
    ;
    SubState { write: nibble & 0x08 != 0, readers: nibble & 0x07 }
}

/// Packs the two sub-states into one byte.
pub fn encode_sub_states(lamports: SubState, data: SubState) -> (state: u8)
    requires
        lamports.wf(),
        data.wf(),
    ensures
        state == encode(lamports, data),
        decode(state, LAMPORTS_SHIFT) == lamports,
        decode(state, DATA_SHIFT) == data,
{
    let upper: u8 = if lamports.write { 8 + lamports.readers } else { lamports.readers };
    let lower: u8 = if data.write { 8 + data.readers } else { data.readers };
    upper * 16 + lower
}

/// Tells whether one more reader can be admitted at `shift`.
pub fn check_read(state: u8, shift: u8) -> (r: Result<(), ProgramError>)
    requires
        valid_shift(shift),
    ensures
        r.is_ok() <==> can_read(state, shift),
        r.is_err() ==> r == Err::<(), ProgramError>(ProgramError::AccountBorrowFailed),
{
    let sub = decode_sub_state(state, shift);
    if sub.write {
        return Err(ProgramError::AccountBorrowFailed);
    }
    if sub.readers == MAX_READERS {
        return Err(ProgramError::AccountBorrowFailed);
    }
    Ok(())
}

/// Tells whether a writer can be admitted at `shift`.
pub fn check_write(state: u8, shift: u8) -> (r: Result<(), ProgramError>)
    requires
        valid_shift(shift),
    ensures
        r.is_ok() <==> can_write(state, shift),
        r.is_err() ==> r == Err::<(), ProgramError>(ProgramError::AccountBorrowFailed),
{
    let sub = decode_sub_state(state, shift);
    if sub.write || sub.readers != 0 {
        return Err(ProgramError::AccountBorrowFailed);
    }
    Ok(())
}

/// Counts one more reader at `shift`, if one can be admitted; else the byte
/// stays as it is.
pub fn acquire_read(state: &mut u8, shift: u8) -> (r: Result<(), ProgramError>)
    requires
        valid_shift(shift),
    ensures
        r.is_ok() <==> can_read(*old(state), shift),
        r.is_ok() ==> *final(state) == after_acquire_read(*old(state), shift),
        r.is_err() ==> *final(state) == *old(state) && r == Err::<(), ProgramError>(
            ProgramError::AccountBorrowFailed,
        ),
{
    match check_read(*state, shift) {
        Ok(()) => {
            proof {
                lemma_shifted_bits(shift);
            }
            *state = *state + (1u8 << shift);
            Ok(())
        },
        Err(e) => Err(e),
    }
}

/// Records the writer at `shift`, if one can be admitted; else the byte
/// stays as it is.
pub fn acquire_write(state: &mut u8, shift: u8) -> (r: Result<(), ProgramError>)
    requires
        valid_shift(shift),
    ensures
        r.is_ok() <==> can_write(*old(state), shift),
        r.is_ok() ==> *final(state) == after_acquire_write(*old(state), shift),
        r.is_err() ==> *final(state) == *old(state) && r == Err::<(), ProgramError>(
            ProgramError::AccountBorrowFailed,
        ),
{
    match check_write(*state, shift) {
        Ok(()) => {
            proof {
                lemma_shifted_bits(shift);
                lemma_set_write_flag(*state);
            }
            *state = *state | (0b_1000u8 << shift);
            Ok(())
        },
        Err(e) => Err(e),
    }
}

/// Takes one reader off the count at `shift`.
pub fn release_read(state: &mut u8, shift: u8)
    requires
        valid_shift(shift),
        decode(*old(state), shift).readers >= 1,
    ensures
        *final(state) == after_release_read(*old(state), shift),
{
    proof {
        lemma_shifted_bits(shift);
    }
    *state = *state - (1u8 << shift);
}

/// Clears the write flag that `mask` leaves out; the rest of the byte stays.
pub fn release_write(state: &mut u8, mask: u8)
    requires
        valid_mask(mask),
    ensures
        *final(state) == after_release_write(*old(state), mask_shift(mask)),
{
    proof {
        lemma_clear_write_flag(*state);
    }
    *state = *state & mask;
}

/// Taking a byte apart and putting the two sub-states together again gives
/// the byte back; so does replacing either sub-state by itself.
pub proof fn lemma_decode_encode(state: u8)
    ensures
        encode(decode(state, LAMPORTS_SHIFT), decode(state, DATA_SHIFT)) == state,
        with_sub_state(state, LAMPORTS_SHIFT, decode(state, LAMPORTS_SHIFT)) == state,
        with_sub_state(state, DATA_SHIFT, decode(state, DATA_SHIFT)) == state,
        decode(state, LAMPORTS_SHIFT).wf(),
        decode(state, DATA_SHIFT).wf(),
{
}

/// Two sub-states that are put together into a byte are what is found when
/// the byte is taken apart.
pub proof fn lemma_encode_decode(lamports: SubState, data: SubState)
    requires
        lamports.wf(),
        data.wf(),
    ensures
        0 <= encode(lamports, data) < 256,
        decode(encode(lamports, data) as u8, LAMPORTS_SHIFT) == lamports,
        decode(encode(lamports, data) as u8, DATA_SHIFT) == data,
{
}

/// A reader is admitted if and only if the write flag is clear and fewer
/// than seven readers are counted. Admitting one counts one reader more, so
/// never more than seven; it leaves the other sub-state alone, and while a
/// reader is counted no writer is admitted.
pub proof fn lemma_read_admission(state: u8, shift: u8)
    requires
        valid_shift(shift),
    ensures
        can_read(state, shift) <==> !decode(state, shift).write && decode(state, shift).readers
            < 7,
        decode(state, shift).readers == 7 ==> !can_read(state, shift),
        can_read(state, shift) ==> {
            let after = after_acquire_read(state, shift);
            &&& 0 <= after < 256
            &&& decode(after as u8, shift) == SubState {
                write: false,
                readers: (decode(state, shift).readers + 1) as u8,
            }
            &&& decode(after as u8, shift).readers <= 7
            &&& decode(after as u8, other_shift(shift)) == decode(state, other_shift(shift))
            &&& !can_write(after as u8, shift)
        },
{
}

/// A writer is admitted if and only if the sub-state is free: no write flag
/// and no reader. Admitting one sets the write flag and leaves the other
/// sub-state alone; while it is set neither a reader nor a second writer is
/// admitted.
pub proof fn lemma_write_admission(state: u8, shift: u8)
    requires
        valid_shift(shift),
    ensures
        can_write(state, shift) <==> nibble_at(state, shift) == 0,
        can_write(state, shift) ==> {
            let after = after_acquire_write(state, shift);
            &&& 0 <= after < 256
            &&& decode(after as u8, shift) == SubState { write: true, readers: 0 }
            &&& decode(after as u8, other_shift(shift)) == decode(state, other_shift(shift))
            &&& !can_read(after as u8, shift)
            &&& !can_write(after as u8, shift)
        },
{
}

/// A reader that is counted and then given back leaves the byte as it was.
pub proof fn lemma_read_round_trip(state: u8, shift: u8)
    requires
        valid_shift(shift),
        can_read(state, shift),
    ensures
        0 <= after_acquire_read(state, shift) < 256,
        decode(after_acquire_read(state, shift) as u8, shift).readers >= 1,
        after_release_read(after_acquire_read(state, shift) as u8, shift) == state,
{
}

/// A writer that is recorded and then given back leaves the byte as it was.
pub proof fn lemma_write_round_trip(state: u8, shift: u8)
    requires
        valid_shift(shift),
        can_write(state, shift),
    ensures
        0 <= after_acquire_write(state, shift) < 256,
        after_release_write(after_acquire_write(state, shift) as u8, shift) == state,
{
}

/// What is done to one sub-state leaves the other as it was: a reader or a
/// writer of the one can be taken and given back while the other is held.
pub proof fn lemma_sub_states_independent(state: u8, shift: u8, sub: SubState)
    requires
        valid_shift(shift),
        sub.wf(),
    ensures
        0 <= with_sub_state(state, shift, sub) < 256,
        decode(with_sub_state(state, shift, sub) as u8, shift) == sub,
        decode(with_sub_state(state, shift, sub) as u8, other_shift(shift)) == decode(
            state,
            other_shift(shift),
        ),
{
}

} // verus!
