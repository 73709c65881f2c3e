//! Mathematical model of the flash chip's command semantics.
//!
//! A `ChipState` is the chip as the driver can observe it: the byte array,
//! the status and configuration registers, the write-enable latch, and the
//! one-shot arming flag of the reset pair. The functions here say what each
//! transaction does to that state; the bus module holds the executable
//! counterpart to them, and the driver's contracts are stated over them.

use vstd::prelude::*;

use crate::protocol::{
    spec_command_tx, PhaseWidth, Transaction, CMD_BLOCK_ERASE_32K, CMD_BLOCK_ERASE_64K,
    CMD_CHIP_ERASE, CMD_ENABLE_RESET, CMD_QUAD_READ, CMD_QUAD_WRITE_PG, CMD_READ_CR, CMD_READ_ID,
    CMD_READ_SR, CMD_RESET, CMD_SECTOR_ERASE, CMD_WRITE_CR, CMD_WRITE_ENABLE, CMD_WRITE_SR,
};

verus! {

/// First JEDEC id byte: the manufacturer.
pub const JEDEC_MANUFACTURER: u8 = 0xC8;

/// Second JEDEC id byte: the memory type.
pub const JEDEC_MEMORY_TYPE: u8 = 0x40;

/// Third JEDEC id byte: the capacity code (8 MiB part).
pub const JEDEC_CAPACITY: u8 = 0x17;

pub const SECTOR_SIZE: usize = 4096;
pub const BLOCK_32K_SIZE: usize = 32768;
pub const BLOCK_64K_SIZE: usize = 65536;

/// Bit 0 of the status register: write in progress (busy).
pub const SR_BUSY_MASK: u8 = 0x01;

/// Bit 1 of the configuration register: quad operation enabled.
pub const CR_QUAD_ENABLE_MASK: u8 = 0x02;

/// The chip as the driver can observe it.
#[verifier::ext_equal]
pub struct ChipState {
    /// The flash contents, indexed by linear byte address.
    pub mem: Seq<u8>,
    /// Status register; bit 0 is the busy flag.
    pub sr: u8,
    /// Configuration register; bit 1 is the quad-enable flag.
    pub cr: u8,
    /// The write-enable latch; set by the write-enable command, cleared by
    /// the chip after each mutating command.
    pub write_enabled: bool,
    /// Whether the enable-reset command was the transaction issued last, so
    /// that a reset command will land.
    pub reset_armed: bool,
}

/// `m` with `d` written over it starting at address `a`.
pub open spec fn overlay(m: Seq<u8>, a: int, d: Seq<u8>) -> Seq<u8> {
    Seq::new(m.len(), |i: int| if a <= i < a + d.len() { d[i - a] } else { m[i] })
}

/// `m` with every byte of `[base, base + size)` set to the erased value.
pub open spec fn erase_bytes(m: Seq<u8>, base: int, size: int) -> Seq<u8> {
    Seq::new(m.len(), |i: int| if base <= i < base + size { 0xFFu8 } else { m[i] })
}

/// Bytes erased by one addressed erase command, in the chip's granularity.
pub open spec fn spec_erase_size(cmd: u8) -> int {
    if cmd == CMD_SECTOR_ERASE {
        SECTOR_SIZE as int
    } else if cmd == CMD_BLOCK_ERASE_32K {
        BLOCK_32K_SIZE as int
    } else if cmd == CMD_BLOCK_ERASE_64K {
        BLOCK_64K_SIZE as int
    } else {
        0
    }
}

/// The start of the granularity-aligned region containing `addr`: a
/// misaligned erase address erases the whole region it falls in.
pub open spec fn aligned_base(addr: u32, size: int) -> int
    recommends
        size > 0,
{
    addr - (addr as int % size)
}

/// The state after a chip reset: registers cleared (so the quad-enable flag
/// must be set again), latch and arming cleared, contents untouched.
pub open spec fn reset_state(c: ChipState) -> ChipState {
    ChipState { mem: c.mem, sr: 0, cr: 0, write_enabled: false, reset_armed: false }
}

/// `c` with only the reset arming cleared, as any transaction other than
/// enable-reset clears it.
pub open spec fn disarmed(c: ChipState) -> ChipState {
    ChipState { reset_armed: false, ..c }
}

/// What a command-only transaction (no data phase) does to the chip.
pub open spec fn apply_command(c: ChipState, t: Transaction) -> ChipState {
    if t.instruction == CMD_ENABLE_RESET {
        ChipState { reset_armed: true, ..c }
    } else if t.instruction == CMD_RESET {
        if c.reset_armed {
            reset_state(c)
        } else {
            disarmed(c)
        }
    } else if t.instruction == CMD_WRITE_ENABLE {
        ChipState { write_enabled: true, reset_armed: false, ..c }
    } else if t.instruction == CMD_CHIP_ERASE {
        if c.write_enabled {
            ChipState {
                mem: erase_bytes(c.mem, 0, c.mem.len() as int),
                write_enabled: false,
                reset_armed: false,
                ..c
            }
        } else {
            disarmed(c)
        }
    } else if (t.instruction == CMD_SECTOR_ERASE || t.instruction == CMD_BLOCK_ERASE_32K
        || t.instruction == CMD_BLOCK_ERASE_64K) {
        match t.address {
            Some(addr) => {
                if c.write_enabled {
                    let size = spec_erase_size(t.instruction);
                    ChipState {
                        mem: erase_bytes(c.mem, aligned_base(addr, size), size),
                        write_enabled: false,
                        reset_armed: false,
                        ..c
                    }
                } else {
                    disarmed(c)
                }
            },
            None => disarmed(c),
        }
    } else {
        disarmed(c)
    }
}

/// What a transaction with an outgoing data phase does to the chip. The
/// busy bit of the status register is chip-managed and cannot be written.
pub open spec fn apply_data_write(c: ChipState, t: Transaction, data: Seq<u8>) -> ChipState {
    if t.instruction == CMD_WRITE_SR && data.len() == 1 {
        ChipState { sr: data[0] & !SR_BUSY_MASK, reset_armed: false, ..c }
    } else if t.instruction == CMD_WRITE_CR && data.len() == 1 {
        ChipState { cr: data[0], reset_armed: false, ..c }
    } else if t.instruction == CMD_QUAD_WRITE_PG {
        match t.address {
            Some(addr) => {
                if c.write_enabled {
                    ChipState {
                        mem: overlay(c.mem, addr as int, data),
                        write_enabled: false,
                        reset_armed: false,
                        ..c
                    }
                } else {
                    disarmed(c)
                }
            },
            None => disarmed(c),
        }
    } else {
        disarmed(c)
    }
}

/// The bytes returned by a transaction with an incoming data phase. A read
/// leaves the chip unchanged but for the reset arming.
pub open spec fn read_result(c: ChipState, t: Transaction, len: nat) -> Seq<u8> {
    if t.instruction == CMD_READ_SR {
        seq![c.sr]
    } else if t.instruction == CMD_READ_CR {
        seq![c.cr]
    } else if t.instruction == CMD_READ_ID {
        seq![JEDEC_MANUFACTURER, JEDEC_MEMORY_TYPE, JEDEC_CAPACITY]
    } else if t.instruction == CMD_QUAD_READ {
        match t.address {
            Some(addr) => c.mem.subrange(addr as int, addr + len),
            None => Seq::empty(),
        }
    } else {
        Seq::empty()
    }
}

/// The defensive reset sequence: the enable-reset/reset pair issued first
/// with a quad-width instruction phase and then with a single-width one, so
/// that the reset lands whatever bus width the chip was left listening on.
pub open spec fn reset_sequence(c: ChipState) -> ChipState {
    apply_command(
        apply_command(
            apply_command(
                apply_command(c, spec_command_tx(PhaseWidth::Quad, CMD_ENABLE_RESET)),
                spec_command_tx(PhaseWidth::Quad, CMD_RESET),
            ),
            spec_command_tx(PhaseWidth::Single, CMD_ENABLE_RESET),
        ),
        spec_command_tx(PhaseWidth::Single, CMD_RESET),
    )
}

/// The reset sequence brings the chip to the reset state, whatever state it
/// started in.
pub proof fn lemma_reset_sequence_resets(c: ChipState)
    ensures
        reset_sequence(c) == reset_state(c),
{
}

/// Issuing the reset sequence twice in succession leaves the chip exactly as
/// issuing it once does.
pub proof fn lemma_reset_sequence_idempotent(c: ChipState)
    ensures
        reset_sequence(reset_sequence(c)) == reset_sequence(c),
{
    lemma_reset_sequence_resets(c);
    lemma_reset_sequence_resets(reset_sequence(c));
}

} // verus!
