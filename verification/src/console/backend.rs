//! The interface through which the MMIO console device reaches the host
//! terminal, and a backend that has no terminal behind it.

use crate::console::constants::{DEFAULT_CONSOLE_COLS, DEFAULT_CONSOLE_ROWS};
use crate::error::VirtioResult;
use vstd::prelude::*;

verus! {

/// A console backend: the host side of the console (terminal, serial port).
pub trait ConsoleBackend: Send + Sync {
    /// Reads host input into `buffer`; returns how many bytes it read (0
    /// when no input is available).
    fn read(&self, buffer: &mut [u8]) -> (r: VirtioResult<usize>)
        ensures
            r is Ok ==> r->Ok_0 <= old(buffer)@.len(),
            final(buffer)@.len() == old(buffer)@.len(),
    ;

    /// Whether a write of `data` may end in `r`: a backend may give its own
    /// relation, which every write it takes meets; by default any outcome
    /// may follow. A device states this of each buffer it hands on, which
    /// ties what it hands on to the guest's output.
    open spec fn spec_write_result(&self, data: Seq<u8>, r: VirtioResult<usize>) -> bool {
        true
    }

    /// Writes guest output to the host; returns how many bytes it wrote.
    fn write(&self, buffer: &[u8]) -> (r: VirtioResult<usize>)
        ensures
            r is Ok ==> r->Ok_0 <= buffer@.len(),
            self.spec_write_result(buffer@, r),
    ;

    /// Whether host input is waiting; by default never.
    fn has_pending_input(&self) -> (b: bool)
        default_ensures
            !b,
    {
        false
    }

    /// The console size as (columns, rows); by default 80 x 25.
    fn get_size(&self) -> (s: (u16, u16))
        default_ensures
            s == (DEFAULT_CONSOLE_COLS, DEFAULT_CONSOLE_ROWS),
    {
        (DEFAULT_CONSOLE_COLS, DEFAULT_CONSOLE_ROWS)
    }
}

/// Whether `rs` are the results of handing each of `chunks` to `b`'s
/// `write`, in turn: each call ended as `b`'s relation allows.
pub open spec fn written_each<B: ConsoleBackend>(b: B, chunks: Seq<Seq<u8>>, rs: Seq<VirtioResult<usize>>) -> bool {
    &&& rs.len() == chunks.len()
    &&& forall|i: int| 0 <= i < rs.len() ==> #[trigger] b.spec_write_result(chunks[i], rs[i])
}

/// Whether `b`'s relation allows some outcome of a write of `data`. This
/// is a fact about the relation, not a record of a call: for a backend whose
/// relation allows an outcome for any data (such as the default, or
/// `NullConsoleBackend`'s), it holds of every `data`. A device's proof
/// reaches it for data its backend does not constrain only by making the
/// call.
pub open spec fn handed<B: ConsoleBackend>(b: B, data: Seq<u8>) -> bool {
    exists|r: VirtioResult<usize>| #[trigger] b.spec_write_result(data, r)
}

/// The byte counts of the successful writes of `rs`, each cut to 32 bits and
/// added up as `u32` adds them (wrapping).
pub open spec fn written_total32(rs: Seq<VirtioResult<usize>>) -> u32
    decreases rs.len(),
{
    if rs.len() == 0 {
        0
    } else {
        let t = written_total32(rs.drop_last());
        let w: u32 = match rs.last() {
            Ok(n) => (n as u64 % 0x1_0000_0000) as u32,
            Err(_) => 0,
        };
        if t + w > u32::MAX {
            (t + w - 0x1_0000_0000) as u32
        } else {
            (t + w) as u32
        }
    }
}

/// A backend that discards output and has no input.
pub struct NullConsoleBackend;

impl ConsoleBackend for NullConsoleBackend {
    open spec fn spec_write_result(&self, data: Seq<u8>, r: VirtioResult<usize>) -> bool {
        r == Ok::<usize, crate::error::VirtioError>(data.len() as usize)
    }

    fn read(&self, buffer: &mut [u8]) -> (r: VirtioResult<usize>)
        ensures
            r == Ok::<usize, crate::error::VirtioError>(0),
            final(buffer)@ == old(buffer)@,
    {
        Ok(0)
    }

    fn write(&self, buffer: &[u8]) -> (r: VirtioResult<usize>)
        ensures
            r == Ok::<usize, crate::error::VirtioError>(buffer@.len() as usize),
    {
        Ok(buffer.len())
    }
}

} // verus!
