//! The flash driver: command sequencing, page-bounded writes, and the
//! command/memory-mapped mode machine.
//!
//! `FlashMemory` owns the bus exclusively. Every mutating chip operation is
//! preceded by a write-enable command and followed by a busy-wait on the
//! status register; multi-byte writes are split into chunks that never cross
//! a page boundary. Once `enable_mm` has switched the device into
//! memory-mapped mode, every command-mode operation is rejected with
//! `FlashError::WrongMode`, so that command transactions and mapped loads
//! are never interleaved.

use vstd::prelude::*;
use vstd::slice::slice_subrange;

use crate::bus::{BusAction, BusRecord, QspiBus};
use crate::chip::{
    aligned_base, disarmed, erase_bytes, overlay, reset_state, spec_erase_size, ChipState,
    CR_QUAD_ENABLE_MASK, JEDEC_CAPACITY, JEDEC_MANUFACTURER, JEDEC_MEMORY_TYPE, SR_BUSY_MASK,
};
use crate::protocol::{
    command_tx, erase_tx, memory_map_tx, page_program_tx, quad_read_tx, read_id_tx, register_tx,
    spec_command_tx, spec_erase_tx, spec_memory_map_tx, spec_page_program_tx, spec_quad_read_tx,
    spec_read_id_tx, spec_register_tx, PhaseWidth, CMD_BLOCK_ERASE_32K, CMD_BLOCK_ERASE_64K,
    CMD_CHIP_ERASE, CMD_ENABLE_RESET, CMD_READ_CR, CMD_READ_SR, CMD_RESET, CMD_SECTOR_ERASE,
    CMD_WRITE_CR, CMD_WRITE_ENABLE, CMD_WRITE_SR, MEMORY_PAGE_SIZE,
};

verus! {

/// The bus mode: chip commands are only legal in `Command` mode, mapped
/// loads only in `MemoryMapped` mode.
#[derive(Clone, Copy, PartialEq, Eq, Structural, Debug)]
pub enum BusMode {
    Command,
    MemoryMapped,
}

/// Why a driver call was rejected.
#[derive(Clone, Copy, PartialEq, Eq, Structural, Debug)]
pub enum FlashError {
    /// A command-mode operation was attempted while memory-mapped, or the
    /// mode transition was attempted twice.
    WrongMode,
}

/// The length of the chunk a write starting at `addr` with `left` bytes
/// still to go programs next: as much as remains, capped so that the chunk
/// ends at or before the next page boundary.
pub open spec fn spec_chunk_len(addr: int, left: int) -> int {
    let room = MEMORY_PAGE_SIZE as int - addr % (MEMORY_PAGE_SIZE as int);
    if left <= room {
        left
    } else {
        room
    }
}

/// The chunks a write of `len` bytes at `addr` is split into, as pairs of
/// chunk address and chunk length, in ascending address order.
pub open spec fn chunk_plan(addr: int, len: int) -> Seq<(int, int)>
    decreases len,
{
    if len <= 0 {
        Seq::empty()
    } else {
        let c = spec_chunk_len(addr, len);
        seq![(addr, c)] + chunk_plan(addr + c, len - c)
    }
}

/// The data of each chunk of a write of `d` at `addr`, in order.
pub open spec fn chunk_data(addr: int, d: Seq<u8>) -> Seq<Seq<u8>>
    decreases d.len(),
{
    if d.len() == 0 {
        Seq::empty()
    } else {
        let c = spec_chunk_len(addr, d.len() as int);
        seq![d.take(c)] + chunk_data(addr + c, d.skip(c))
    }
}

/// The wire transactions of programming one page-bounded chunk of `len`
/// bytes at `addr`: write-enable, the quad page program, and one status
/// read by the busy-wait that follows.
pub open spec fn page_records(addr: int, len: int) -> Seq<BusRecord> {
    seq![
        BusRecord {
            action: BusAction::Command,
            transaction: spec_command_tx(PhaseWidth::Single, CMD_WRITE_ENABLE),
        },
        BusRecord {
            action: BusAction::DataWrite(len as usize),
            transaction: spec_page_program_tx(addr as u32),
        },
        BusRecord {
            action: BusAction::DataRead(1),
            transaction: spec_register_tx(CMD_READ_SR),
        },
    ]
}

/// The full wire trace of a chunked write of `d` at `addr`.
pub open spec fn write_records(addr: int, d: Seq<u8>) -> Seq<BusRecord>
    decreases d.len(),
{
    if d.len() == 0 {
        Seq::empty()
    } else {
        let c = spec_chunk_len(addr, d.len() as int);
        page_records(addr, c) + write_records(addr + c, d.skip(c))
    }
}

/// The chunk length is `min(left, page_size - addr % page_size)`, at least
/// 1 and at most the page size, whenever bytes remain to be written.
pub proof fn lemma_chunk_len_bounds(addr: int, left: int)
    requires
        left > 0,
    ensures
        spec_chunk_len(addr, left) == vstd::math::min(
            left,
            MEMORY_PAGE_SIZE as int - addr % (MEMORY_PAGE_SIZE as int),
        ),
        1 <= spec_chunk_len(addr, left),
        spec_chunk_len(addr, left) <= MEMORY_PAGE_SIZE as int,
        spec_chunk_len(addr, left) <= left,
{
}

/// Concatenating the chunks' data in order reproduces the written buffer
/// exactly.
pub proof fn lemma_chunks_reproduce_data(addr: int, d: Seq<u8>)
    ensures
        chunk_data(addr, d).flatten() == d,
    decreases d.len(),
{
    if d.len() == 0 {
        assert(chunk_data(addr, d).flatten() =~= d);
    } else {
        let c = spec_chunk_len(addr, d.len() as int);
        lemma_chunk_len_bounds(addr, d.len() as int);
        lemma_chunks_reproduce_data(addr + c, d.skip(c));
        let parts = chunk_data(addr, d);
        assert(parts.drop_first() =~= chunk_data(addr + c, d.skip(c)));
        assert(parts.first() == d.take(c));
        assert(parts.flatten() == parts.first() + parts.drop_first().flatten());
        assert(d.take(c) + d.skip(c) =~= d);
    }
}

/// Every chunk lies inside a single page: no chunk's address range crosses
/// a multiple of the page size. Chunks tile the write: the first starts at
/// the write's address, each next one starts where the previous ended, and
/// the lengths sum to the write's length.
pub proof fn lemma_chunks_page_bounded(addr: int, len: int)
    requires
        len >= 0,
    ensures
        forall|i: int|
            0 <= i < chunk_plan(addr, len).len() ==> {
                let (a, c) = #[trigger] chunk_plan(addr, len)[i];
                &&& 1 <= c
                &&& a % (MEMORY_PAGE_SIZE as int) + c <= MEMORY_PAGE_SIZE as int
            },
        len > 0 ==> chunk_plan(addr, len).len() > 0 && chunk_plan(addr, len)[0] == (
        addr,
        spec_chunk_len(addr, len),
        ),
        forall|i: int|
            1 <= i < chunk_plan(addr, len).len() ==> (#[trigger] chunk_plan(addr, len)[i]).0
                == chunk_plan(addr, len)[i - 1].0 + chunk_plan(addr, len)[i - 1].1,
        sum_of_lengths(chunk_plan(addr, len)) == len,
    decreases len,
{
    if len <= 0 {
        assert(chunk_plan(addr, len) =~= Seq::<(int, int)>::empty());
    } else {
        let c = spec_chunk_len(addr, len);
        lemma_chunk_len_bounds(addr, len);
        lemma_chunks_page_bounded(addr + c, len - c);
        let rest = chunk_plan(addr + c, len - c);
        let whole = chunk_plan(addr, len);
        assert(whole =~= seq![(addr, c)] + rest);
        assert(whole[0] == (addr, c));
        assert(whole.drop_first() =~= rest);
        assert forall|i: int| 0 <= i < whole.len() implies {
            let (a, l) = #[trigger] whole[i];
            &&& 1 <= l
            &&& a % (MEMORY_PAGE_SIZE as int) + l <= MEMORY_PAGE_SIZE as int
        } by {
            if i > 0 {
                assert(whole[i] == rest[i - 1]);
            }
        }
        assert forall|i: int|
            1 <= i < whole.len() implies (#[trigger] whole[i]).0 == whole[i - 1].0 + whole[i
            - 1].1 by {
            assert(whole[i] == rest[i - 1]);
            if i == 1 {
                assert(rest.len() > 0);
                assert(rest[0] == ((addr + c), spec_chunk_len(addr + c, len - c)));
            } else {
                assert(whole[i - 1] == rest[i - 2]);
                assert(rest[i - 1].0 == rest[i - 2].0 + rest[i - 2].1);
            }
        }
        assert(sum_of_lengths(whole) == whole[0].1 + sum_of_lengths(whole.drop_first()));
        assert(sum_of_lengths(whole) == c + sum_of_lengths(rest));
    }
}

/// The sum of the chunk lengths of a plan.
pub open spec fn sum_of_lengths(plan: Seq<(int, int)>) -> int
    decreases plan.len(),
{
    if plan.len() == 0 {
        0
    } else {
        plan[0].1 + sum_of_lengths(plan.drop_first())
    }
}

/// The wire trace of a write programs exactly the planned chunks, strictly
/// in plan order: three transactions per chunk, and the triple of chunk `i`
/// is the write-enable, the program command with the chunk's address and
/// length, and the busy-wait's status read.
pub proof fn lemma_write_records_follow_plan(addr: int, d: Seq<u8>)
    ensures
        write_records(addr, d).len() == 3 * chunk_plan(addr, d.len() as int).len(),
        forall|i: int|
            0 <= i < chunk_plan(addr, d.len() as int).len() ==> {
                let (a, c) = #[trigger] chunk_plan(addr, d.len() as int)[i];
                &&& write_records(addr, d)[3 * i] == page_records(a, c)[0]
                &&& write_records(addr, d)[3 * i + 1] == page_records(a, c)[1]
                &&& write_records(addr, d)[3 * i + 2] == page_records(a, c)[2]
            },
    decreases d.len(),
{
    if d.len() == 0 {
        assert(chunk_plan(addr, 0) =~= Seq::<(int, int)>::empty());
        assert(write_records(addr, d) =~= Seq::<BusRecord>::empty());
    } else {
        let c = spec_chunk_len(addr, d.len() as int);
        lemma_chunk_len_bounds(addr, d.len() as int);
        lemma_write_records_follow_plan(addr + c, d.skip(c));
        let plan = chunk_plan(addr, d.len() as int);
        let rest_plan = chunk_plan(addr + c, d.skip(c).len() as int);
        let whole = write_records(addr, d);
        let rest = write_records(addr + c, d.skip(c));
        assert(d.skip(c).len() == d.len() - c);
        assert(plan =~= seq![(addr, c)] + rest_plan);
        assert(whole =~= page_records(addr, c) + rest);
        assert forall|i: int| 0 <= i < plan.len() implies {
            let (a, l) = #[trigger] plan[i];
            &&& whole[3 * i] == page_records(a, l)[0]
            &&& whole[3 * i + 1] == page_records(a, l)[1]
            &&& whole[3 * i + 2] == page_records(a, l)[2]
        } by {
            if i == 0 {
                assert(plan[0] == (addr, c));
            } else {
                assert(plan[i] == rest_plan[i - 1]);
                let (a2, l2) = rest_plan[i - 1];
                assert(rest[3 * (i - 1)] == page_records(a2, l2)[0]);
                assert(rest[3 * (i - 1) + 1] == page_records(a2, l2)[1]);
                assert(rest[3 * (i - 1) + 2] == page_records(a2, l2)[2]);
                assert(whole[3 * i] == rest[3 * i - 3]);
                assert(whole[3 * i + 1] == rest[3 * i - 2]);
                assert(whole[3 * i + 2] == rest[3 * i - 1]);
                assert(3 * i - 3 == 3 * (i - 1));
                assert(3 * i - 2 == 3 * (i - 1) + 1);
                assert(3 * i - 1 == 3 * (i - 1) + 2);
            }
        }
    }
}

/// Reading back what a write placed in memory returns the written bytes: a
/// write of `d` at `a` followed by a read of `d.len()` bytes at `a` is the
/// identity, given no intervening erase.
pub proof fn lemma_write_read_round_trip(m: Seq<u8>, a: int, d: Seq<u8>)
    requires
        0 <= a,
        a + d.len() <= m.len(),
    ensures
        overlay(m, a, d).subrange(a, a + d.len()) == d,
{
    assert(overlay(m, a, d).subrange(a, a + d.len()) =~= d);
}

/// The driver: the sole handle to the bus, its mode, and the logical
/// quad-enable flag mirroring bit 1 of the chip's configuration register.
pub struct FlashMemory {
    pub bus: QspiBus,
    pub mode: BusMode,
    pub quad_enabled: bool,
}

impl FlashMemory {
    /// The chip state behind the driver.
    pub open spec fn chip(&self) -> ChipState {
        self.bus.chip()
    }

    /// Every transaction issued so far, in order.
    pub open spec fn wire_log(&self) -> Seq<BusRecord> {
        self.bus.log@
    }

    /// Well-formedness: the bus is well formed, the mode field mirrors the
    /// transport's mapped state, and the quad flag mirrors the chip's
    /// configuration register.
    pub open spec fn inv(&self) -> bool {
        &&& self.bus.inv()
        &&& (self.mode == BusMode::MemoryMapped <==> self.bus.mapped)
        &&& (self.quad_enabled <==> self.bus.cr & CR_QUAD_ENABLE_MASK != 0)
    }

    /// Nothing observable changed: same chip state, wire log, mode and
    /// quad flag.
    pub open spec fn unchanged_from(&self, o: &FlashMemory) -> bool {
        &&& self.chip() == o.chip()
        &&& self.wire_log() == o.wire_log()
        &&& self.mode == o.mode
        &&& self.quad_enabled == o.quad_enabled
        &&& self.bus.mapped == o.bus.mapped
    }

    /// Construct the driver over a fresh bus and make the chip ready:
    /// issue the defensive reset sequence, then enable quad operation by a
    /// read/modify/write of the configuration register.
    pub fn new(bus: QspiBus) -> (f: FlashMemory)
        requires
            bus.inv(),
            !bus.mapped,
        ensures
            f.inv(),
            f.mode == BusMode::Command,
            f.quad_enabled,
            !f.bus.mapped,
            f.chip() == (ChipState {
                mem: bus.chip().mem,
                sr: 0,
                cr: CR_QUAD_ENABLE_MASK,
                write_enabled: false,
                reset_armed: false,
            }),
            f.wire_log() == bus.log@ + reset_records() + quad_enable_records(),
    {
        let mut f = FlashMemory { bus, mode: BusMode::Command, quad_enabled: false };
        f.run_reset_sequence();
        f.enable_quad();
        proof {
            assert(0u8 | 0x02u8 == 0x02u8) by (bit_vector);
            assert(CR_QUAD_ENABLE_MASK == 0x02u8);
            assert(f.chip() =~= (ChipState {
                mem: bus.chip().mem,
                sr: 0,
                cr: CR_QUAD_ENABLE_MASK,
                write_enabled: false,
                reset_armed: false,
            }));
            assert(f.wire_log() =~= bus.log@ + reset_records() + quad_enable_records());
        }
        f
    }

    /// Switch the transport into memory-mapped mode: install the quad-read
    /// template and retire the command-issuing capability. Irreversible.
    pub fn enable_mm(&mut self) -> (r: Result<(), FlashError>)
        requires
            old(self).inv(),
        ensures
            final(self).inv(),
            old(self).mode == BusMode::MemoryMapped ==> r == Err::<(), FlashError>(
                FlashError::WrongMode,
            ) && final(self).unchanged_from(old(self)),
            old(self).mode == BusMode::Command ==> {
                &&& r == Ok::<(), FlashError>(())
                &&& final(self).mode == BusMode::MemoryMapped
                &&& final(self).bus.mapped
                &&& final(self).quad_enabled == old(self).quad_enabled
                &&& final(self).chip() == old(self).chip()
                &&& final(self).wire_log() == old(self).wire_log().push(
                    BusRecord {
                        action: BusAction::MapEnable,
                        transaction: spec_memory_map_tx(),
                    },
                )
            },
    {
        match self.mode {
            BusMode::MemoryMapped => Err(FlashError::WrongMode),
            BusMode::Command => {
                let t = memory_map_tx();
                self.bus.enable_memory_map(t);
                self.mode = BusMode::MemoryMapped;
                Ok(())
            },
        }
    }

    /// A processor load from the mapped window, legal only once the device
    /// is memory-mapped: `len` bytes of flash starting at `offset`.
    pub fn mapped_read(&self, offset: usize, len: usize) -> (r: Result<Vec<u8>, FlashError>)
        requires
            self.inv(),
            offset + len <= self.bus.mem@.len(),
        ensures
            self.mode == BusMode::Command ==> r == Err::<Vec<u8>, FlashError>(
                FlashError::WrongMode,
            ),
            self.mode == BusMode::MemoryMapped ==> {
                &&& r is Ok
                &&& r->Ok_0@ == self.bus.mem@.subrange(offset as int, offset + len)
            },
    {
        match self.mode {
            BusMode::Command => Err(FlashError::WrongMode),
            BusMode::MemoryMapped => Ok(self.bus.mapped_read(offset, len)),
        }
    }

    /// Issue the defensive reset sequence and wait for the chip: both
    /// register files are cleared, so the quad flag must be enabled again
    /// afterwards.
    pub fn reset_memory(&mut self) -> (r: Result<(), FlashError>)
        requires
            old(self).inv(),
        ensures
            final(self).inv(),
            old(self).mode == BusMode::MemoryMapped ==> r == Err::<(), FlashError>(
                FlashError::WrongMode,
            ) && final(self).unchanged_from(old(self)),
            old(self).mode == BusMode::Command ==> {
                &&& r == Ok::<(), FlashError>(())
                &&& final(self).mode == BusMode::Command
                &&& !final(self).quad_enabled
                &&& final(self).chip() == reset_state(old(self).chip())
                &&& final(self).wire_log() == old(self).wire_log() + reset_records()
            },
    {
        match self.mode {
            BusMode::MemoryMapped => Err(FlashError::WrongMode),
            BusMode::Command => {
                self.run_reset_sequence();
                Ok(())
            },
        }
    }

    /// Issue the write-enable command, setting the chip's write-enable
    /// latch; the chip clears it again after the next mutating command.
    pub fn enable_write(&mut self) -> (r: Result<(), FlashError>)
        requires
            old(self).inv(),
        ensures
            final(self).inv(),
            old(self).mode == BusMode::MemoryMapped ==> r == Err::<(), FlashError>(
                FlashError::WrongMode,
            ) && final(self).unchanged_from(old(self)),
            old(self).mode == BusMode::Command ==> {
                &&& r == Ok::<(), FlashError>(())
                &&& final(self).mode == BusMode::Command
                &&& final(self).quad_enabled == old(self).quad_enabled
                &&& final(self).chip() == (ChipState {
                    write_enabled: true,
                    reset_armed: false,
                    ..old(self).chip()
                })
                &&& final(self).wire_log() == old(self).wire_log().push(
                    BusRecord {
                        action: BusAction::Command,
                        transaction: spec_command_tx(PhaseWidth::Single, CMD_WRITE_ENABLE),
                    },
                )
            },
    {
        match self.mode {
            BusMode::MemoryMapped => Err(FlashError::WrongMode),
            BusMode::Command => {
                self.exec_command(CMD_WRITE_ENABLE);
                Ok(())
            },
        }
    }

    /// Read the chip's three JEDEC id bytes.
    pub fn read_id(&mut self) -> (r: Result<[u8; 3], FlashError>)
        requires
            old(self).inv(),
        ensures
            final(self).inv(),
            old(self).mode == BusMode::MemoryMapped ==> r == Err::<[u8; 3], FlashError>(
                FlashError::WrongMode,
            ) && final(self).unchanged_from(old(self)),
            old(self).mode == BusMode::Command ==> {
                &&& r is Ok
                &&& r->Ok_0@ == seq![JEDEC_MANUFACTURER, JEDEC_MEMORY_TYPE, JEDEC_CAPACITY]
                &&& final(self).mode == BusMode::Command
                &&& final(self).quad_enabled == old(self).quad_enabled
                &&& final(self).chip() == disarmed(old(self).chip())
                &&& final(self).wire_log() == old(self).wire_log().push(
                    BusRecord { action: BusAction::DataRead(3), transaction: spec_read_id_tx() },
                )
            },
    {
        match self.mode {
            BusMode::MemoryMapped => Err(FlashError::WrongMode),
            BusMode::Command => {
                let t = read_id_tx();
                let v = self.bus.blocking_read(3, t);
                let id: [u8; 3] = [v[0], v[1], v[2]];
                proof {
                    assert(id@ =~= seq![JEDEC_MANUFACTURER, JEDEC_MEMORY_TYPE, JEDEC_CAPACITY]);
                }
                Ok(id)
            },
        }
    }

    /// Read `len` bytes starting at `addr` with a quad read. Quad
    /// operation must have been enabled first.
    pub fn read_memory(&mut self, addr: u32, len: usize) -> (r: Result<Vec<u8>, FlashError>)
        requires
            old(self).inv(),
            old(self).quad_enabled,
            addr + len <= old(self).bus.mem@.len(),
        ensures
            final(self).inv(),
            old(self).mode == BusMode::MemoryMapped ==> r == Err::<Vec<u8>, FlashError>(
                FlashError::WrongMode,
            ) && final(self).unchanged_from(old(self)),
            old(self).mode == BusMode::Command ==> {
                &&& r is Ok
                &&& r->Ok_0@ == old(self).bus.mem@.subrange(addr as int, addr + len)
                &&& final(self).mode == BusMode::Command
                &&& final(self).quad_enabled == old(self).quad_enabled
                &&& final(self).chip() == disarmed(old(self).chip())
                &&& final(self).wire_log() == old(self).wire_log().push(
                    BusRecord {
                        action: BusAction::DataRead(len),
                        transaction: spec_quad_read_tx(addr),
                    },
                )
            },
    {
        match self.mode {
            BusMode::MemoryMapped => Err(FlashError::WrongMode),
            BusMode::Command => {
                let t = quad_read_tx(addr);
                let v = self.bus.blocking_read(len, t);
                Ok(v)
            },
        }
    }

    /// Erase the 4 KiB sector containing `addr`.
    pub fn erase_sector(&mut self, addr: u32) -> (r: Result<(), FlashError>)
        requires
            old(self).inv(),
        ensures
            final(self).inv(),
            old(self).mode == BusMode::MemoryMapped ==> r == Err::<(), FlashError>(
                FlashError::WrongMode,
            ) && final(self).unchanged_from(old(self)),
            old(self).mode == BusMode::Command ==> erase_post(
                *old(self),
                *final(self),
                r,
                CMD_SECTOR_ERASE,
                addr,
            ),
    {
        match self.mode {
            BusMode::MemoryMapped => Err(FlashError::WrongMode),
            BusMode::Command => {
                self.perform_erase(addr, CMD_SECTOR_ERASE);
                Ok(())
            },
        }
    }

    /// Erase the 32 KiB block containing `addr`.
    pub fn erase_block_32k(&mut self, addr: u32) -> (r: Result<(), FlashError>)
        requires
            old(self).inv(),
        ensures
            final(self).inv(),
            old(self).mode == BusMode::MemoryMapped ==> r == Err::<(), FlashError>(
                FlashError::WrongMode,
            ) && final(self).unchanged_from(old(self)),
            old(self).mode == BusMode::Command ==> erase_post(
                *old(self),
                *final(self),
                r,
                CMD_BLOCK_ERASE_32K,
                addr,
            ),
    {
        match self.mode {
            BusMode::MemoryMapped => Err(FlashError::WrongMode),
            BusMode::Command => {
                self.perform_erase(addr, CMD_BLOCK_ERASE_32K);
                Ok(())
            },
        }
    }

    /// Erase the 64 KiB block containing `addr`.
    pub fn erase_block_64k(&mut self, addr: u32) -> (r: Result<(), FlashError>)
        requires
            old(self).inv(),
        ensures
            final(self).inv(),
            old(self).mode == BusMode::MemoryMapped ==> r == Err::<(), FlashError>(
                FlashError::WrongMode,
            ) && final(self).unchanged_from(old(self)),
            old(self).mode == BusMode::Command ==> erase_post(
                *old(self),
                *final(self),
                r,
                CMD_BLOCK_ERASE_64K,
                addr,
            ),
    {
        match self.mode {
            BusMode::MemoryMapped => Err(FlashError::WrongMode),
            BusMode::Command => {
                self.perform_erase(addr, CMD_BLOCK_ERASE_64K);
                Ok(())
            },
        }
    }

    /// Erase the whole chip: write-enable, the chip-erase command, then
    /// wait until the chip reports ready.
    pub fn erase_chip(&mut self) -> (r: Result<(), FlashError>)
        requires
            old(self).inv(),
        ensures
            final(self).inv(),
            old(self).mode == BusMode::MemoryMapped ==> r == Err::<(), FlashError>(
                FlashError::WrongMode,
            ) && final(self).unchanged_from(old(self)),
            old(self).mode == BusMode::Command ==> {
                &&& r == Ok::<(), FlashError>(())
                &&& final(self).mode == BusMode::Command
                &&& final(self).quad_enabled == old(self).quad_enabled
                &&& final(self).chip() == (ChipState {
                    mem: erase_bytes(old(self).chip().mem, 0, old(self).chip().mem.len() as int),
                    write_enabled: false,
                    reset_armed: false,
                    ..old(self).chip()
                })
                &&& final(self).wire_log() == old(self).wire_log() + seq![
                    BusRecord {
                        action: BusAction::Command,
                        transaction: spec_command_tx(PhaseWidth::Single, CMD_WRITE_ENABLE),
                    },
                    BusRecord {
                        action: BusAction::Command,
                        transaction: spec_command_tx(PhaseWidth::Single, CMD_CHIP_ERASE),
                    },
                    BusRecord {
                        action: BusAction::DataRead(1),
                        transaction: spec_register_tx(CMD_READ_SR),
                    },
                ]
            },
    {
        match self.mode {
            BusMode::MemoryMapped => Err(FlashError::WrongMode),
            BusMode::Command => {
                self.exec_command(CMD_WRITE_ENABLE);
                self.exec_command(CMD_CHIP_ERASE);
                self.wait_write_finish();
                proof {
                    assert(self.wire_log() =~= old(self).wire_log() + seq![
                        BusRecord {
                            action: BusAction::Command,
                            transaction: spec_command_tx(PhaseWidth::Single, CMD_WRITE_ENABLE),
                        },
                        BusRecord {
                            action: BusAction::Command,
                            transaction: spec_command_tx(PhaseWidth::Single, CMD_CHIP_ERASE),
                        },
                        BusRecord {
                            action: BusAction::DataRead(1),
                            transaction: spec_register_tx(CMD_READ_SR),
                        },
                    ]);
                    assert(self.chip() =~= (ChipState {
                        mem: erase_bytes(
                            old(self).chip().mem,
                            0,
                            old(self).chip().mem.len() as int,
                        ),
                        write_enabled: false,
                        reset_armed: false,
                        ..old(self).chip()
                    }));
                }
                Ok(())
            },
        }
    }

    /// Write `buffer` at `addr`, split into page-bounded chunks in
    /// ascending address order: each chunk is write-enabled, programmed,
    /// and waited for before the next. Quad operation must have been
    /// enabled first.
    pub fn write_memory(&mut self, addr: u32, buffer: &[u8]) -> (r: Result<(), FlashError>)
        requires
            old(self).inv(),
            old(self).quad_enabled,
            addr + buffer@.len() <= old(self).bus.mem@.len(),
        ensures
            final(self).inv(),
            old(self).mode == BusMode::MemoryMapped ==> r == Err::<(), FlashError>(
                FlashError::WrongMode,
            ) && final(self).unchanged_from(old(self)),
            old(self).mode == BusMode::Command ==> {
                &&& r == Ok::<(), FlashError>(())
                &&& final(self).mode == BusMode::Command
                &&& final(self).quad_enabled == old(self).quad_enabled
                &&& final(self).chip() == (if buffer@.len() == 0 {
                    old(self).chip()
                } else {
                    ChipState {
                        mem: overlay(old(self).chip().mem, addr as int, buffer@),
                        write_enabled: false,
                        reset_armed: false,
                        ..old(self).chip()
                    }
                })
                &&& final(self).wire_log() == old(self).wire_log() + write_records(
                    addr as int,
                    buffer@,
                )
            },
    {
        match self.mode {
            BusMode::MemoryMapped => Err(FlashError::WrongMode),
            BusMode::Command => {
                let ghost mem0 = self.bus.mem@;
                let ghost log0 = self.bus.log@;
                let mut left = buffer.len();
                let mut place = addr;
                let mut chunk_start: usize = 0;
                proof {
                    assert(buffer@.skip(0) =~= buffer@);
                    assert(buffer@.take(0) =~= Seq::<u8>::empty());
                    assert(self.bus.mem@ =~= overlay(mem0, addr as int, buffer@.take(0)));
                }
                while left > 0
                    invariant
                        self.bus.inv(),
                        !self.bus.mapped,
                        self.mode == BusMode::Command,
                        self.quad_enabled == old(self).quad_enabled,
                        chunk_start + left == buffer@.len(),
                        place == addr + chunk_start,
                        addr + buffer@.len() <= mem0.len(),
                        self.bus.mem@.len() == mem0.len(),
                        self.bus.sr == old(self).bus.sr,
                        self.bus.cr == old(self).bus.cr,
                        chunk_start == 0 ==> self.bus.write_enabled == old(self).bus.write_enabled
                            && self.bus.reset_armed == old(self).bus.reset_armed,
                        chunk_start > 0 ==> !self.bus.write_enabled && !self.bus.reset_armed,
                        self.bus.mem@ == overlay(mem0, addr as int, buffer@.take(chunk_start as int)),
                        self.bus.log@ + write_records(place as int, buffer@.skip(chunk_start as int))
                            == log0 + write_records(addr as int, buffer@),
                    decreases left,
                {
                    let offset = (place as usize) % MEMORY_PAGE_SIZE;
                    let max_chunk_size = MEMORY_PAGE_SIZE - offset;
                    let chunk_size = if left >= max_chunk_size {
                        max_chunk_size
                    } else {
                        left
                    };
                    proof {
                        assert(chunk_size == spec_chunk_len(place as int, left as int));
                        lemma_chunk_len_bounds(place as int, left as int);
                    }
                    let chunk = slice_subrange(buffer, chunk_start, chunk_start + chunk_size);
                    let ghost pre_mem = self.bus.mem@;
                    let ghost pre_log = self.bus.log@;
                    let ghost pre_place = place as int;
                    let ghost pre_start = chunk_start as int;
                    let ghost pre_remaining = buffer@.skip(pre_start);
                    self.write_page(place, chunk);
                    place = place + chunk_size as u32;
                    left = left - chunk_size;
                    chunk_start = chunk_start + chunk_size;
                    proof {
                        let c = chunk_size as int;
                        assert(pre_remaining.skip(c) =~= buffer@.skip(chunk_start as int));
                        assert(pre_remaining.len() > 0);
                        assert(spec_chunk_len(pre_place, pre_remaining.len() as int) == c);
                        assert(write_records(pre_place, pre_remaining) == page_records(
                            pre_place,
                            c,
                        ) + write_records(pre_place + c, buffer@.skip(chunk_start as int)));
                        assert(self.bus.log@ =~= pre_log + page_records(pre_place, c));
                        assert(self.bus.log@ + write_records(
                            place as int,
                            buffer@.skip(chunk_start as int),
                        ) =~= log0 + write_records(addr as int, buffer@));
                        assert(self.bus.mem@ =~= overlay(
                            mem0,
                            addr as int,
                            buffer@.take(chunk_start as int),
                        ));
                    }
                }
                proof {
                    assert(buffer@.skip(chunk_start as int) =~= Seq::<u8>::empty());
                    assert(write_records(place as int, buffer@.skip(chunk_start as int))
                        =~= Seq::<BusRecord>::empty());
                    assert(self.bus.log@ + Seq::<BusRecord>::empty() =~= self.bus.log@);
                    assert(self.bus.log@ =~= log0 + write_records(addr as int, buffer@));
                    if buffer@.len() == 0 {
                        assert(self.bus.mem@ =~= mem0);
                        assert(self.chip() =~= old(self).chip());
                    } else {
                        assert(buffer@.take(chunk_start as int) =~= buffer@);
                        assert(self.chip() =~= (ChipState {
                            mem: overlay(old(self).chip().mem, addr as int, buffer@),
                            write_enabled: false,
                            reset_armed: false,
                            ..old(self).chip()
                        }));
                    }
                }
                Ok(())
            },
        }
    }

    /// Read the status register.
    pub fn read_sr(&mut self) -> (r: Result<u8, FlashError>)
        requires
            old(self).inv(),
        ensures
            final(self).inv(),
            old(self).mode == BusMode::MemoryMapped ==> r == Err::<u8, FlashError>(
                FlashError::WrongMode,
            ) && final(self).unchanged_from(old(self)),
            old(self).mode == BusMode::Command ==> {
                &&& r == Ok::<u8, FlashError>(old(self).chip().sr)
                &&& final(self).mode == BusMode::Command
                &&& final(self).quad_enabled == old(self).quad_enabled
                &&& final(self).chip() == disarmed(old(self).chip())
                &&& final(self).wire_log() == old(self).wire_log().push(
                    BusRecord {
                        action: BusAction::DataRead(1),
                        transaction: spec_register_tx(CMD_READ_SR),
                    },
                )
            },
    {
        match self.mode {
            BusMode::MemoryMapped => Err(FlashError::WrongMode),
            BusMode::Command => Ok(self.read_register(CMD_READ_SR)),
        }
    }

    /// Read the configuration register.
    pub fn read_cr(&mut self) -> (r: Result<u8, FlashError>)
        requires
            old(self).inv(),
        ensures
            final(self).inv(),
            old(self).mode == BusMode::MemoryMapped ==> r == Err::<u8, FlashError>(
                FlashError::WrongMode,
            ) && final(self).unchanged_from(old(self)),
            old(self).mode == BusMode::Command ==> {
                &&& r == Ok::<u8, FlashError>(old(self).chip().cr)
                &&& final(self).mode == BusMode::Command
                &&& final(self).quad_enabled == old(self).quad_enabled
                &&& final(self).chip() == disarmed(old(self).chip())
                &&& final(self).wire_log() == old(self).wire_log().push(
                    BusRecord {
                        action: BusAction::DataRead(1),
                        transaction: spec_register_tx(CMD_READ_CR),
                    },
                )
            },
    {
        match self.mode {
            BusMode::MemoryMapped => Err(FlashError::WrongMode),
            BusMode::Command => Ok(self.read_register(CMD_READ_CR)),
        }
    }

    /// Write the status register. The busy bit is chip-managed and is not
    /// written.
    pub fn write_sr(&mut self, value: u8) -> (r: Result<(), FlashError>)
        requires
            old(self).inv(),
        ensures
            final(self).inv(),
            old(self).mode == BusMode::MemoryMapped ==> r == Err::<(), FlashError>(
                FlashError::WrongMode,
            ) && final(self).unchanged_from(old(self)),
            old(self).mode == BusMode::Command ==> {
                &&& r == Ok::<(), FlashError>(())
                &&& final(self).mode == BusMode::Command
                &&& final(self).quad_enabled == old(self).quad_enabled
                &&& final(self).chip() == (ChipState {
                    sr: value & !SR_BUSY_MASK,
                    reset_armed: false,
                    ..old(self).chip()
                })
                &&& final(self).wire_log() == old(self).wire_log().push(
                    BusRecord {
                        action: BusAction::DataWrite(1),
                        transaction: spec_register_tx(CMD_WRITE_SR),
                    },
                )
            },
    {
        match self.mode {
            BusMode::MemoryMapped => Err(FlashError::WrongMode),
            BusMode::Command => {
                self.write_register(CMD_WRITE_SR, value);
                Ok(())
            },
        }
    }

    /// Write the configuration register and track its quad-enable bit.
    pub fn write_cr(&mut self, value: u8) -> (r: Result<(), FlashError>)
        requires
            old(self).inv(),
        ensures
            final(self).inv(),
            old(self).mode == BusMode::MemoryMapped ==> r == Err::<(), FlashError>(
                FlashError::WrongMode,
            ) && final(self).unchanged_from(old(self)),
            old(self).mode == BusMode::Command ==> {
                &&& r == Ok::<(), FlashError>(())
                &&& final(self).mode == BusMode::Command
                &&& final(self).quad_enabled == (value & CR_QUAD_ENABLE_MASK != 0)
                &&& final(self).chip() == (ChipState {
                    cr: value,
                    reset_armed: false,
                    ..old(self).chip()
                })
                &&& final(self).wire_log() == old(self).wire_log().push(
                    BusRecord {
                        action: BusAction::DataWrite(1),
                        transaction: spec_register_tx(CMD_WRITE_CR),
                    },
                )
            },
    {
        match self.mode {
            BusMode::MemoryMapped => Err(FlashError::WrongMode),
            BusMode::Command => {
                self.write_register(CMD_WRITE_CR, value);
                self.quad_enabled = value & CR_QUAD_ENABLE_MASK != 0;
                Ok(())
            },
        }
    }

    /// Clear the quad-enable bit of the configuration register by a
    /// read/modify/write.
    pub fn disable_quad(&mut self) -> (r: Result<(), FlashError>)
        requires
            old(self).inv(),
        ensures
            final(self).inv(),
            old(self).mode == BusMode::MemoryMapped ==> r == Err::<(), FlashError>(
                FlashError::WrongMode,
            ) && final(self).unchanged_from(old(self)),
            old(self).mode == BusMode::Command ==> {
                &&& r == Ok::<(), FlashError>(())
                &&& final(self).mode == BusMode::Command
                &&& !final(self).quad_enabled
                &&& final(self).chip() == (ChipState {
                    cr: old(self).chip().cr & !CR_QUAD_ENABLE_MASK,
                    reset_armed: false,
                    ..old(self).chip()
                })
                &&& final(self).wire_log() == old(self).wire_log() + quad_disable_records()
            },
    {
        match self.mode {
            BusMode::MemoryMapped => Err(FlashError::WrongMode),
            BusMode::Command => {
                let cr = self.read_register(CMD_READ_CR);
                self.write_register(CMD_WRITE_CR, cr & !CR_QUAD_ENABLE_MASK);
                self.quad_enabled = false;
                proof {
                    let c = cr;
                    assert((c & !0x02u8) & 0x02u8 == 0u8) by (bit_vector);
                    assert(CR_QUAD_ENABLE_MASK == 0x02u8);
                    assert(self.wire_log() =~= old(self).wire_log() + quad_disable_records());
                }
                Ok(())
            },
        }
    }

    /// Set the quad-enable bit of the configuration register by a
    /// read/modify/write; quad-width commands are only attempted after it.
    fn enable_quad(&mut self)
        requires
            old(self).bus.inv(),
            !old(self).bus.mapped,
        ensures
            final(self).bus.inv(),
            !final(self).bus.mapped,
            final(self).mode == old(self).mode,
            final(self).quad_enabled,
            final(self).chip() == (ChipState {
                cr: old(self).chip().cr | CR_QUAD_ENABLE_MASK,
                reset_armed: false,
                ..old(self).chip()
            }),
            final(self).wire_log() == old(self).wire_log() + quad_enable_records(),
            final(self).quad_enabled <==> final(self).bus.cr & CR_QUAD_ENABLE_MASK != 0,
    {
        let cr = self.read_register(CMD_READ_CR);
        self.write_register(CMD_WRITE_CR, cr | CR_QUAD_ENABLE_MASK);
        self.quad_enabled = true;
        proof {
            let c = cr;
            assert((c | 0x02u8) & 0x02u8 != 0u8) by (bit_vector);
            assert(CR_QUAD_ENABLE_MASK == 0x02u8);
            assert(self.wire_log() =~= old(self).wire_log() + quad_enable_records());
        }
    }

    /// Issue a bare command with a single-width instruction phase.
    fn exec_command(&mut self, cmd: u8)
        requires
            old(self).bus.inv(),
            !old(self).bus.mapped,
        ensures
            final(self).bus.inv(),
            !final(self).bus.mapped,
            final(self).mode == old(self).mode,
            final(self).quad_enabled == old(self).quad_enabled,
            final(self).chip() == crate::chip::apply_command(
                old(self).chip(),
                spec_command_tx(PhaseWidth::Single, cmd),
            ),
            final(self).wire_log() == old(self).wire_log().push(
                BusRecord {
                    action: BusAction::Command,
                    transaction: spec_command_tx(PhaseWidth::Single, cmd),
                },
            ),
    {
        let t = command_tx(PhaseWidth::Single, cmd);
        self.bus.blocking_command(t);
    }

    /// Issue a bare command with a quad-width instruction phase, for a chip
    /// left listening on four lines by a prior session.
    fn exec_command_4(&mut self, cmd: u8)
        requires
            old(self).bus.inv(),
            !old(self).bus.mapped,
        ensures
            final(self).bus.inv(),
            !final(self).bus.mapped,
            final(self).mode == old(self).mode,
            final(self).quad_enabled == old(self).quad_enabled,
            final(self).chip() == crate::chip::apply_command(
                old(self).chip(),
                spec_command_tx(PhaseWidth::Quad, cmd),
            ),
            final(self).wire_log() == old(self).wire_log().push(
                BusRecord {
                    action: BusAction::Command,
                    transaction: spec_command_tx(PhaseWidth::Quad, cmd),
                },
            ),
    {
        let t = command_tx(PhaseWidth::Quad, cmd);
        self.bus.blocking_command(t);
    }

    /// Poll the status register until the busy bit clears. Every bus
    /// operation completes before returning, so the first poll already
    /// finds the chip ready; the loop is kept for fidelity to the chip
    /// protocol, where programming continues internally after the command.
    fn wait_write_finish(&mut self)
        requires
            old(self).bus.inv(),
            !old(self).bus.mapped,
        ensures
            final(self).bus.inv(),
            !final(self).bus.mapped,
            final(self).mode == old(self).mode,
            final(self).quad_enabled == old(self).quad_enabled,
            final(self).chip() == disarmed(old(self).chip()),
            final(self).wire_log() == old(self).wire_log().push(
                BusRecord {
                    action: BusAction::DataRead(1),
                    transaction: spec_register_tx(CMD_READ_SR),
                },
            ),
    {
        let mut busy: u8 = 1;
        while busy != 0
            invariant
                self.bus.inv(),
                !self.bus.mapped,
                self.mode == old(self).mode,
                self.quad_enabled == old(self).quad_enabled,
                busy != 0 ==> self.chip() == old(self).chip() && self.bus.log@ == old(
                    self,
                ).bus.log@,
                busy == 0 ==> self.chip() == disarmed(old(self).chip()) && self.bus.log@ == old(
                    self,
                ).bus.log@.push(
                    BusRecord {
                        action: BusAction::DataRead(1),
                        transaction: spec_register_tx(CMD_READ_SR),
                    },
                ),
            decreases busy,
        {
            let t = register_tx(CMD_READ_SR);
            let v = self.bus.blocking_read(1, t);
            busy = v[0] & SR_BUSY_MASK;
        }
    }

    /// Write-enable, erase at the given granularity, and wait: the
    /// sequence shared by the addressed erase commands.
    fn perform_erase(&mut self, addr: u32, cmd: u8)
        requires
            old(self).bus.inv(),
            !old(self).bus.mapped,
            cmd == CMD_SECTOR_ERASE || cmd == CMD_BLOCK_ERASE_32K || cmd == CMD_BLOCK_ERASE_64K,
        ensures
            final(self).bus.inv(),
            !final(self).bus.mapped,
            final(self).mode == old(self).mode,
            final(self).quad_enabled == old(self).quad_enabled,
            final(self).chip() == (ChipState {
                mem: erase_bytes(
                    old(self).chip().mem,
                    aligned_base(addr, spec_erase_size(cmd)),
                    spec_erase_size(cmd),
                ),
                write_enabled: false,
                reset_armed: false,
                ..old(self).chip()
            }),
            final(self).wire_log() == old(self).wire_log() + erase_records(cmd, addr),
    {
        self.exec_command(CMD_WRITE_ENABLE);
        let t = erase_tx(cmd, addr);
        self.bus.blocking_command(t);
        self.wait_write_finish();
        proof {
            assert(self.wire_log() =~= old(self).wire_log() + erase_records(cmd, addr));
            assert(self.chip() =~= (ChipState {
                mem: erase_bytes(
                    old(self).chip().mem,
                    aligned_base(addr, spec_erase_size(cmd)),
                    spec_erase_size(cmd),
                ),
                write_enabled: false,
                reset_armed: false,
                ..old(self).chip()
            }));
        }
    }

    /// Program one page-bounded chunk: write-enable, quad page program,
    /// wait. The chunk must not cross a page boundary; the chunking in
    /// `write_memory` guarantees that, and any caller violating it would
    /// be a defect in the sequencing logic itself.
    fn write_page(&mut self, addr: u32, data: &[u8])
        requires
            old(self).bus.inv(),
            !old(self).bus.mapped,
            data@.len() >= 1,
            addr as int % (MEMORY_PAGE_SIZE as int) + data@.len() <= MEMORY_PAGE_SIZE as int,
            addr + data@.len() <= old(self).bus.mem@.len(),
        ensures
            final(self).bus.inv(),
            !final(self).bus.mapped,
            final(self).mode == old(self).mode,
            final(self).quad_enabled == old(self).quad_enabled,
            final(self).chip() == (ChipState {
                mem: overlay(old(self).chip().mem, addr as int, data@),
                write_enabled: false,
                reset_armed: false,
                ..old(self).chip()
            }),
            final(self).wire_log() == old(self).wire_log() + page_records(
                addr as int,
                data@.len() as int,
            ),
    {
        self.exec_command(CMD_WRITE_ENABLE);
        let t = page_program_tx(addr);
        self.bus.blocking_write(data, t);
        self.wait_write_finish();
        proof {
            assert(self.wire_log() =~= old(self).wire_log() + page_records(
                addr as int,
                data@.len() as int,
            ));
            assert(self.chip() =~= (ChipState {
                mem: overlay(old(self).chip().mem, addr as int, data@),
                write_enabled: false,
                reset_armed: false,
                ..old(self).chip()
            }));
        }
    }

    /// Read a one-byte register: the status or the configuration register.
    fn read_register(&mut self, cmd: u8) -> (r: u8)
        requires
            old(self).bus.inv(),
            !old(self).bus.mapped,
            cmd == CMD_READ_SR || cmd == CMD_READ_CR,
        ensures
            final(self).bus.inv(),
            !final(self).bus.mapped,
            final(self).mode == old(self).mode,
            final(self).quad_enabled == old(self).quad_enabled,
            r == if cmd == CMD_READ_SR {
                old(self).chip().sr
            } else {
                old(self).chip().cr
            },
            final(self).chip() == disarmed(old(self).chip()),
            final(self).wire_log() == old(self).wire_log().push(
                BusRecord { action: BusAction::DataRead(1), transaction: spec_register_tx(cmd) },
            ),
    {
        let t = register_tx(cmd);
        let v = self.bus.blocking_read(1, t);
        v[0]
    }

    /// Write a one-byte register: the status or the configuration
    /// register.
    fn write_register(&mut self, cmd: u8, value: u8)
        requires
            old(self).bus.inv(),
            !old(self).bus.mapped,
            cmd == CMD_WRITE_SR || cmd == CMD_WRITE_CR,
        ensures
            final(self).bus.inv(),
            !final(self).bus.mapped,
            final(self).mode == old(self).mode,
            final(self).quad_enabled == old(self).quad_enabled,
            final(self).chip() == (if cmd == CMD_WRITE_SR {
                ChipState { sr: value & !SR_BUSY_MASK, reset_armed: false, ..old(self).chip() }
            } else {
                ChipState { cr: value, reset_armed: false, ..old(self).chip() }
            }),
            final(self).wire_log() == old(self).wire_log().push(
                BusRecord { action: BusAction::DataWrite(1), transaction: spec_register_tx(cmd) },
            ),
    {
        let t = register_tx(cmd);
        let mut data: Vec<u8> = Vec::new();
        data.push(value);
        self.bus.blocking_write(data.as_slice(), t);
        proof {
            assert(self.chip() =~= (if cmd == CMD_WRITE_SR {
                ChipState { sr: value & !SR_BUSY_MASK, reset_armed: false, ..old(self).chip() }
            } else {
                ChipState { cr: value, reset_armed: false, ..old(self).chip() }
            }));
        }
    }

    /// Issue the defensive reset pair twice — quad-width instruction
    /// encoding first, then single-width — and wait for the chip, so that
    /// the reset lands whatever bus width the chip was left listening on.
    fn run_reset_sequence(&mut self)
        requires
            old(self).bus.inv(),
            !old(self).bus.mapped,
        ensures
            final(self).bus.inv(),
            !final(self).bus.mapped,
            final(self).mode == old(self).mode,
            !final(self).quad_enabled,
            final(self).chip() == reset_state(old(self).chip()),
            final(self).chip() == crate::chip::reset_sequence(old(self).chip()),
            final(self).wire_log() == old(self).wire_log() + reset_records(),
            final(self).quad_enabled <==> final(self).bus.cr & CR_QUAD_ENABLE_MASK != 0,
    {
        self.exec_command_4(CMD_ENABLE_RESET);
        self.exec_command_4(CMD_RESET);
        self.exec_command(CMD_ENABLE_RESET);
        self.exec_command(CMD_RESET);
        self.wait_write_finish();
        self.quad_enabled = false;
        proof {
            crate::chip::lemma_reset_sequence_resets(old(self).chip());
            assert(self.wire_log() =~= old(self).wire_log() + reset_records());
            assert(0u8 & 0x02u8 == 0u8) by (bit_vector);
            assert(CR_QUAD_ENABLE_MASK == 0x02u8);
        }
    }
}

/// The wire trace of the defensive reset sequence: the enable-reset/reset
/// pair in quad-width and in single-width encoding, then one status read.
pub open spec fn reset_records() -> Seq<BusRecord> {
    seq![
        BusRecord {
            action: BusAction::Command,
            transaction: spec_command_tx(PhaseWidth::Quad, CMD_ENABLE_RESET),
        },
        BusRecord {
            action: BusAction::Command,
            transaction: spec_command_tx(PhaseWidth::Quad, CMD_RESET),
        },
        BusRecord {
            action: BusAction::Command,
            transaction: spec_command_tx(PhaseWidth::Single, CMD_ENABLE_RESET),
        },
        BusRecord {
            action: BusAction::Command,
            transaction: spec_command_tx(PhaseWidth::Single, CMD_RESET),
        },
        BusRecord { action: BusAction::DataRead(1), transaction: spec_register_tx(CMD_READ_SR) },
    ]
}

/// The wire trace of enabling quad mode when the configuration register
/// held `cr`: read it, write it back with the quad bit set.
pub open spec fn quad_enable_records() -> Seq<BusRecord> {
    seq![
        BusRecord { action: BusAction::DataRead(1), transaction: spec_register_tx(CMD_READ_CR) },
        BusRecord { action: BusAction::DataWrite(1), transaction: spec_register_tx(CMD_WRITE_CR) },
    ]
}

/// The wire trace of disabling quad mode: read the configuration register,
/// write it back with the quad bit cleared.
pub open spec fn quad_disable_records() -> Seq<BusRecord> {
    seq![
        BusRecord { action: BusAction::DataRead(1), transaction: spec_register_tx(CMD_READ_CR) },
        BusRecord { action: BusAction::DataWrite(1), transaction: spec_register_tx(CMD_WRITE_CR) },
    ]
}

/// The wire trace of one addressed erase: write-enable, the erase command
/// with its address, then one status read by the busy-wait.
pub open spec fn erase_records(cmd: u8, addr: u32) -> Seq<BusRecord> {
    seq![
        BusRecord {
            action: BusAction::Command,
            transaction: spec_command_tx(PhaseWidth::Single, CMD_WRITE_ENABLE),
        },
        BusRecord { action: BusAction::Command, transaction: spec_erase_tx(cmd, addr) },
        BusRecord { action: BusAction::DataRead(1), transaction: spec_register_tx(CMD_READ_SR) },
    ]
}

/// A post-state of one addressed erase in command mode: the call returned
/// success, the granularity-aligned region containing `addr` reads erased,
/// the write-enable latch is clear again, and the wire trace grew by
/// exactly the erase sequence.
pub open spec fn erase_post(
    pre: FlashMemory,
    post: FlashMemory,
    r: Result<(), FlashError>,
    cmd: u8,
    addr: u32,
) -> bool {
    &&& r == Ok::<(), FlashError>(())
    &&& post.mode == BusMode::Command
    &&& post.quad_enabled == pre.quad_enabled
    &&& post.chip() == (ChipState {
        mem: erase_bytes(pre.chip().mem, aligned_base(addr, spec_erase_size(cmd)), spec_erase_size(cmd)),
        write_enabled: false,
        reset_armed: false,
        ..pre.chip()
    })
    &&& post.wire_log() == pre.wire_log() + erase_records(cmd, addr)
}

} // verus!
