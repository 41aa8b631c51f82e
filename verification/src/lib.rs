//! Checked access to account records that a host hands to a program.
//!
//! A record is a fixed header followed by the account's data and by room
//! for the data to grow into. One byte of the header, the borrow state,
//! records who reads or writes the lamports and the data. Whoever wants
//! either asks the record's view for a handle; the view counts the handle
//! in that byte, or refuses it where it would go against a holder that is
//! already counted: many readers or one writer, for the lamports and for
//! the data each on their own.
//!
//! A handle is a value. It holds what it gives access to, and knows which
//! borrow it has to give back. It can be turned into a handle over
//! something else, which then has that duty, and it is released by handing
//! it back to the view, which takes the borrow off the byte. Every holder
//! of a record works through the one view of it, so the byte is the single
//! authority on who holds what.
//!
//! - `borrow_state`: the byte, its two halves, and the steps it takes.
//! - `handle`: read and write handles.
//! - `account`: the record, its view, resizing and closing.
//! - `address`, `error`, `hasher`, `derive`: addresses and what goes with
//!   them.
//! - `instruction`, `cpi`, `sysvar`, `syscalls`, `log`: what a program
//!   prepares for the host and reads from it.

pub mod error;
pub mod borrow_state;
pub mod handle;
pub mod address;
pub mod account;
pub mod hasher;
pub mod instruction;
pub mod sysvar;
pub mod log;
pub mod cpi;
pub mod derive;
pub mod syscalls;
