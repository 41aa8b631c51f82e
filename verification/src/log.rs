//! What a program writes to the log.

use vstd::prelude::*;

verus! {

/// The five numbers that make one line of the log.
pub type LogLine = (u64, u64, u64, u64, u64);

/// The lines that show a slice in the log: one for each byte, with the
/// place of the byte in the fourth number and the byte in the fifth.
pub fn sol_log_slice(slice: &[u8]) -> (lines: Vec<LogLine>)
    ensures
        lines@.len() == slice@.len(),
        forall|i: int|
            0 <= i < slice@.len() ==> #[trigger] lines@[i] == (
                0u64,
                0u64,
                0u64,
                i as u64,
                slice@[i] as u64,
            ),
{
    let mut lines: Vec<LogLine> = Vec::new();
    let mut i: usize = 0;
    while i < slice.len()
        invariant
            i <= slice@.len(),
            lines@.len() == i,
            forall|j: int|
                0 <= j < i ==> #[trigger] lines@[j] == (
                    0u64,
                    0u64,
                    0u64,
                    j as u64,
                    slice@[j] as u64,
                ),
        decreases slice@.len() - i,
    {
        lines.push((0, 0, 0, i as u64, slice[i] as u64));
        i += 1;
    }
    lines
}

} // verus!
