//! The chip's fixed opcode table and the shape of each bus transaction.
//!
//! Every named flash operation is carried by one transaction descriptor: an
//! instruction opcode with its bit-width, an optional address with its
//! bit-width, a dummy-cycle count, and the bit-width of the data phase (if
//! any). The builders here are the command protocol layer: each one returns
//! the descriptor of one named operation, bit-exactly.

use vstd::prelude::*;

verus! {

/// Number of bytes the chip can program with a single page-program command
/// before wrapping around to the start of the page.
pub const MEMORY_PAGE_SIZE: usize = 8;

pub const CMD_READ_ID: u8 = 0x9F;
pub const CMD_ENABLE_RESET: u8 = 0x66;
pub const CMD_RESET: u8 = 0x99;
pub const CMD_WRITE_ENABLE: u8 = 0x06;
pub const CMD_CHIP_ERASE: u8 = 0xC7;
pub const CMD_SECTOR_ERASE: u8 = 0x20;
pub const CMD_BLOCK_ERASE_32K: u8 = 0x52;
pub const CMD_BLOCK_ERASE_64K: u8 = 0xD8;
pub const CMD_READ_SR: u8 = 0x05;
pub const CMD_READ_CR: u8 = 0x35;
pub const CMD_WRITE_SR: u8 = 0x01;
pub const CMD_WRITE_CR: u8 = 0x31;
pub const CMD_QUAD_READ: u8 = 0x6B;
pub const CMD_QUAD_WRITE_PG: u8 = 0x32;

/// Dummy cycles inserted after the address phase of a quad read, required by
/// the chip's access latency.
pub const QUAD_READ_DUMMY_CYCLES: u8 = 8;

/// Bit-width of one phase of a transaction: no such phase, one data line, or
/// four data lines.
#[derive(Clone, Copy, PartialEq, Eq, Structural, Debug)]
pub enum PhaseWidth {
    NoPhase,
    Single,
    Quad,
}

/// One bus transaction: the instruction opcode and the per-phase widths,
/// optional address, and dummy-cycle count. Ephemeral; built per call.
#[derive(Clone, Copy, PartialEq, Eq, Debug)]
pub struct Transaction {
    pub instruction: u8,
    pub iwidth: PhaseWidth,
    pub awidth: PhaseWidth,
    pub dwidth: PhaseWidth,
    pub address: Option<u32>,
    pub dummy: u8,
}

/// A bare command: instruction phase only, at the given width.
pub open spec fn spec_command_tx(iwidth: PhaseWidth, cmd: u8) -> Transaction {
    Transaction {
        instruction: cmd,
        iwidth: iwidth,
        awidth: PhaseWidth::NoPhase,
        dwidth: PhaseWidth::NoPhase,
        address: None,
        dummy: 0,
    }
}

/// A register access: single-width instruction and data, no address, no
/// dummy cycles. The same shape serves register reads and writes.
pub open spec fn spec_register_tx(cmd: u8) -> Transaction {
    Transaction {
        instruction: cmd,
        iwidth: PhaseWidth::Single,
        awidth: PhaseWidth::NoPhase,
        dwidth: PhaseWidth::Single,
        address: None,
        dummy: 0,
    }
}

/// The JEDEC id read: single-width instruction and data, no address.
pub open spec fn spec_read_id_tx() -> Transaction {
    spec_register_tx(CMD_READ_ID)
}

/// A quad read: single-width instruction and address, quad-width data, and
/// the chip's fixed dummy-cycle count after the address phase.
pub open spec fn spec_quad_read_tx(addr: u32) -> Transaction {
    Transaction {
        instruction: CMD_QUAD_READ,
        iwidth: PhaseWidth::Single,
        awidth: PhaseWidth::Single,
        dwidth: PhaseWidth::Quad,
        address: Some(addr),
        dummy: QUAD_READ_DUMMY_CYCLES,
    }
}

/// A quad page program: single-width instruction and address, quad-width
/// data, no dummy cycles.
pub open spec fn spec_page_program_tx(addr: u32) -> Transaction {
    Transaction {
        instruction: CMD_QUAD_WRITE_PG,
        iwidth: PhaseWidth::Single,
        awidth: PhaseWidth::Single,
        dwidth: PhaseWidth::Quad,
        address: Some(addr),
        dummy: 0,
    }
}

/// An addressed erase: single-width instruction and address, no data phase.
pub open spec fn spec_erase_tx(cmd: u8, addr: u32) -> Transaction {
    Transaction {
        instruction: cmd,
        iwidth: PhaseWidth::Single,
        awidth: PhaseWidth::Single,
        dwidth: PhaseWidth::NoPhase,
        address: Some(addr),
        dummy: 0,
    }
}

/// The template installed for memory-mapped mode: the quad-read shape at
/// address 0; the transport then re-issues it for every mapped load.
pub open spec fn spec_memory_map_tx() -> Transaction {
    spec_quad_read_tx(0)
}

pub fn command_tx(iwidth: PhaseWidth, cmd: u8) -> (t: Transaction)
    ensures
        t == spec_command_tx(iwidth, cmd),
{
    Transaction {
        instruction: cmd,
        iwidth: iwidth,
        awidth: PhaseWidth::NoPhase,
        dwidth: PhaseWidth::NoPhase,
        address: None,
        dummy: 0,
    }
}

pub fn register_tx(cmd: u8) -> (t: Transaction)
    ensures
        t == spec_register_tx(cmd),
{
    Transaction {
        instruction: cmd,
        iwidth: PhaseWidth::Single,
        awidth: PhaseWidth::NoPhase,
        dwidth: PhaseWidth::Single,
        address: None,
        dummy: 0,
    }
}

pub fn read_id_tx() -> (t: Transaction)
    ensures
        t == spec_read_id_tx(),
{
    register_tx(CMD_READ_ID)
}

pub fn quad_read_tx(addr: u32) -> (t: Transaction)
    ensures
        t == spec_quad_read_tx(addr),
{
    Transaction {
        instruction: CMD_QUAD_READ,
        iwidth: PhaseWidth::Single,
        awidth: PhaseWidth::Single,
        dwidth: PhaseWidth::Quad,
        address: Some(addr),
        dummy: QUAD_READ_DUMMY_CYCLES,
    }
}

pub fn page_program_tx(addr: u32) -> (t: Transaction)
    ensures
        t == spec_page_program_tx(addr),
{
    Transaction {
        instruction: CMD_QUAD_WRITE_PG,
        iwidth: PhaseWidth::Single,
        awidth: PhaseWidth::Single,
        dwidth: PhaseWidth::Quad,
        address: Some(addr),
        dummy: 0,
    }
}

pub fn erase_tx(cmd: u8, addr: u32) -> (t: Transaction)
    ensures
        t == spec_erase_tx(cmd, addr),
{
    Transaction {
        instruction: cmd,
        iwidth: PhaseWidth::Single,
        awidth: PhaseWidth::Single,
        dwidth: PhaseWidth::NoPhase,
        address: Some(addr),
        dummy: 0,
    }
}

pub fn memory_map_tx() -> (t: Transaction)
    ensures
        t == spec_memory_map_tx(),
{
    quad_read_tx(0)
}

} // verus!
