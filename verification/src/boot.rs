//! Boot sequencing: make the chip ready, map it, and read the vector table.
//!
//! The startup order is fixed: construct the driver (which resets the chip
//! and enables quad operation), switch into memory-mapped mode, then read
//! the vector table at the start of the mapped window — its first word is
//! the initial stack pointer, its second the reset-handler entry point. The
//! control transfer itself is the processor's concern and never returns;
//! this module ends with the two words it needs.

use vstd::prelude::*;

use crate::bus::QspiBus;
use crate::flash::{BusMode, FlashMemory};

verus! {

/// The 32-bit word stored little-endian at offset `a` of `m`.
pub open spec fn le_word(m: Seq<u8>, a: int) -> int {
    m[a] + 0x100 * m[a + 1] + 0x10000 * m[a + 2] + 0x1000000 * m[a + 3]
}

/// The 32-bit word stored little-endian at offset `i` of `b`.
pub fn word_from_le(b: &Vec<u8>, i: usize) -> (r: u32)
    requires
        i + 4 <= b@.len(),
    ensures
        r == le_word(b@, i as int),
{
    let n = b.len();
    proof {
        assert(i + 4 <= n);
    }
    (b[i] as u32) + (b[i + 1] as u32) * 0x100 + (b[i + 2] as u32) * 0x10000 + (b[i + 3] as u32)
        * 0x1000000
}

/// Run the boot sequence over a fresh bus: reset the chip, enable quad
/// operation, enter memory-mapped mode, and read the mapped vector table.
/// Returns the mapped device, the initial stack pointer word, and the
/// reset-handler entry word; the caller performs the control transfer,
/// which never returns.
pub fn boot(bus: QspiBus) -> (r: (FlashMemory, u32, u32))
    requires
        bus.inv(),
        !bus.mapped,
        bus.mem@.len() >= 8,
    ensures
        r.0.inv(),
        r.0.mode == BusMode::MemoryMapped,
        r.0.chip().mem == bus.chip().mem,
        r.1 == le_word(bus.chip().mem, 0),
        r.2 == le_word(bus.chip().mem, 4),
{
    let mut flash = FlashMemory::new(bus);
    let _entered = flash.enable_mm();
    proof {
        assert(_entered is Ok);
    }
    let table = flash.bus.mapped_read(0, 8);
    let stack_pointer = word_from_le(&table, 0);
    let entry = word_from_le(&table, 4);
    (flash, stack_pointer, entry)
}

} // verus!
