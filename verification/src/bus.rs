//! Executable transaction bus with an attached chip model.
//!
//! `QspiBus` stands for the transport together with the flash chip behind
//! it. Issuing a transaction mutates the chip state exactly as the `chip`
//! module's semantics say, and appends one record to a log of everything
//! put on the wire, so that the driver's command sequences are observable
//! and their contracts bit-exact. Command transactions are only legal while
//! the bus is not memory-mapped; mapped loads are only legal while it is.

use vstd::pervasive::VecAdditionalExecFns;
use vstd::prelude::*;

use crate::chip::{
    apply_command, apply_data_write, disarmed, read_result, spec_erase_size, aligned_base,
    erase_bytes, overlay, ChipState, JEDEC_CAPACITY, JEDEC_MANUFACTURER, JEDEC_MEMORY_TYPE,
    SR_BUSY_MASK, BLOCK_32K_SIZE, BLOCK_64K_SIZE, SECTOR_SIZE,
};
use crate::protocol::{
    spec_memory_map_tx, spec_page_program_tx, spec_quad_read_tx, spec_read_id_tx, spec_register_tx,
    Transaction, CMD_BLOCK_ERASE_32K, CMD_BLOCK_ERASE_64K, CMD_CHIP_ERASE, CMD_ENABLE_RESET,
    CMD_QUAD_READ, CMD_QUAD_WRITE_PG, CMD_READ_CR, CMD_READ_ID, CMD_READ_SR, CMD_RESET,
    CMD_SECTOR_ERASE, CMD_WRITE_CR, CMD_WRITE_ENABLE, CMD_WRITE_SR,
};

verus! {

/// Direction and data length of one logged transaction.
#[derive(Clone, Copy, PartialEq, Eq, Structural, Debug)]
pub enum BusAction {
    /// No data phase.
    Command,
    /// Incoming data phase of the given byte length.
    DataRead(usize),
    /// Outgoing data phase of the given byte length.
    DataWrite(usize),
    /// The transport was configured for memory-mapped mode with the
    /// transaction as template.
    MapEnable,
}

/// One wire-visible transaction, as recorded in the bus log.
#[derive(Clone, Copy, PartialEq, Eq, Debug)]
pub struct BusRecord {
    pub action: BusAction,
    pub transaction: Transaction,
}

/// The transport with its attached chip.
pub struct QspiBus {
    /// The chip's byte array.
    pub mem: Vec<u8>,
    /// The chip's status register.
    pub sr: u8,
    /// The chip's configuration register.
    pub cr: u8,
    /// The chip's write-enable latch.
    pub write_enabled: bool,
    /// Whether an enable-reset command was the transaction issued last.
    pub reset_armed: bool,
    /// Whether the transport is in memory-mapped mode.
    pub mapped: bool,
    /// Every transaction issued, in order.
    pub log: Vec<BusRecord>,
}

/// The shapes of incoming-data transactions the chip answers, and the data
/// lengths it answers them with.
pub open spec fn read_shape_ok(c: ChipState, t: Transaction, len: nat) -> bool {
    if t.instruction == CMD_READ_SR || t.instruction == CMD_READ_CR {
        t == spec_register_tx(t.instruction) && len == 1
    } else if t.instruction == CMD_READ_ID {
        t == spec_read_id_tx() && len == 3
    } else if t.instruction == CMD_QUAD_READ {
        match t.address {
            Some(addr) => t == spec_quad_read_tx(addr) && addr + len <= c.mem.len(),
            None => false,
        }
    } else {
        false
    }
}

/// The shapes of outgoing-data transactions the chip accepts.
pub open spec fn write_shape_ok(c: ChipState, t: Transaction, len: nat) -> bool {
    if t.instruction == CMD_WRITE_SR || t.instruction == CMD_WRITE_CR {
        t == spec_register_tx(t.instruction) && len == 1
    } else if t.instruction == CMD_QUAD_WRITE_PG {
        match t.address {
            Some(addr) => t == spec_page_program_tx(addr) && addr + len <= c.mem.len(),
            None => false,
        }
    } else {
        false
    }
}

impl QspiBus {
    /// The chip state behind the bus.
    pub open spec fn chip(&self) -> ChipState {
        ChipState {
            mem: self.mem@,
            sr: self.sr,
            cr: self.cr,
            write_enabled: self.write_enabled,
            reset_armed: self.reset_armed,
        }
    }

    /// Well-formedness: addresses fit the transaction's 32-bit address
    /// field, and the busy bit is clear whenever the bus is between
    /// transactions (every operation completes before its call returns).
    pub open spec fn inv(&self) -> bool {
        &&& self.mem@.len() <= u32::MAX as int
        &&& self.sr & SR_BUSY_MASK == 0
    }

    /// A fresh, unmapped bus over an erased chip of `size` bytes.
    pub fn new(size: usize) -> (b: QspiBus)
        requires
            size <= u32::MAX as usize,
        ensures
            b.inv(),
            !b.mapped,
            b.log@ == Seq::<BusRecord>::empty(),
            b.chip() == (ChipState {
                mem: Seq::new(size as nat, |i: int| 0xFFu8),
                sr: 0,
                cr: 0,
                write_enabled: false,
                reset_armed: false,
            }),
    {
        let mut mem: Vec<u8> = Vec::new();
        while mem.len() < size
            invariant
                mem@.len() <= size,
                mem@ == Seq::new(mem@.len(), |i: int| 0xFFu8),
            decreases size - mem@.len(),
        {
            mem.push(0xFF);
            proof {
                assert(mem@ =~= Seq::new(mem@.len(), |i: int| 0xFFu8));
            }
        }
        let b = QspiBus {
            mem,
            sr: 0,
            cr: 0,
            write_enabled: false,
            reset_armed: false,
            mapped: false,
            log: Vec::new(),
        };
        proof {
            assert(b.chip().mem =~= Seq::new(size as nat, |i: int| 0xFFu8));
            assert(0u8 & 0x01u8 == 0u8) by (bit_vector);
            assert(SR_BUSY_MASK == 0x01u8);
        }
        b
    }

    /// Issue a transaction with no data phase.
    pub fn blocking_command(&mut self, t: Transaction)
        requires
            old(self).inv(),
            !old(self).mapped,
        ensures
            final(self).inv(),
            final(self).mapped == old(self).mapped,
            final(self).chip() == apply_command(old(self).chip(), t),
            final(self).log@ == old(self).log@.push(
                BusRecord { action: BusAction::Command, transaction: t },
            ),
    {
        if t.instruction == CMD_ENABLE_RESET {
            self.reset_armed = true;
        } else if t.instruction == CMD_RESET {
            if self.reset_armed {
                self.sr = 0;
                self.cr = 0;
                self.write_enabled = false;
                proof {
                    assert(0u8 & 0x01u8 == 0u8) by (bit_vector);
                    assert(SR_BUSY_MASK == 0x01u8);
                }
            }
            self.reset_armed = false;
        } else if t.instruction == CMD_WRITE_ENABLE {
            self.write_enabled = true;
            self.reset_armed = false;
        } else if t.instruction == CMD_CHIP_ERASE {
            if self.write_enabled {
                let n = self.mem.len();
                self.erase_range(0, n);
                self.write_enabled = false;
            }
            self.reset_armed = false;
        } else if t.instruction == CMD_SECTOR_ERASE || t.instruction == CMD_BLOCK_ERASE_32K
            || t.instruction == CMD_BLOCK_ERASE_64K {
            match t.address {
                Some(addr) => {
                    if self.write_enabled {
                        let size: usize = if t.instruction == CMD_SECTOR_ERASE {
                            SECTOR_SIZE
                        } else if t.instruction == CMD_BLOCK_ERASE_32K {
                            BLOCK_32K_SIZE
                        } else {
                            BLOCK_64K_SIZE
                        };
                        let rem: usize = (addr as usize) % size;
                        proof {
                            assert(rem <= addr as usize) by (nonlinear_arith)
                                requires
                                    size > 0,
                                    rem == (addr as usize) % size,
                            ;
                        }
                        let base: usize = addr as usize - rem;
                        proof {
                            assert(base == aligned_base(addr, spec_erase_size(t.instruction)));
                        }
                        self.erase_range(base, size);
                        self.write_enabled = false;
                    }
                    self.reset_armed = false;
                },
                None => {
                    self.reset_armed = false;
                },
            }
        } else {
            self.reset_armed = false;
        }
        self.log.push(BusRecord { action: BusAction::Command, transaction: t });
        proof {
            assert(self.chip() =~= apply_command(old(self).chip(), t));
        }
    }

    /// Set every byte of `[base, base + size)` that lies inside the array
    /// to the erased value.
    fn erase_range(&mut self, base: usize, size: usize)
        ensures
            final(self).mem@ == erase_bytes(old(self).mem@, base as int, size as int),
            final(self).sr == old(self).sr,
            final(self).cr == old(self).cr,
            final(self).write_enabled == old(self).write_enabled,
            final(self).reset_armed == old(self).reset_armed,
            final(self).mapped == old(self).mapped,
            final(self).log@ == old(self).log@,
    {
        let mut i: usize = base;
        while i < self.mem.len() && i - base < size
            invariant
                base <= i,
                i <= base + size,
                self.mem@.len() == old(self).mem@.len(),
                self.mem@ == Seq::new(
                    old(self).mem@.len(),
                    |j: int| if base <= j < i { 0xFFu8 } else { old(self).mem@[j] },
                ),
                self.sr == old(self).sr,
                self.cr == old(self).cr,
                self.write_enabled == old(self).write_enabled,
                self.reset_armed == old(self).reset_armed,
                self.mapped == old(self).mapped,
                self.log@ == old(self).log@,
            decreases base + size - i,
        {
            self.mem.set(i, 0xFF);
            i = i + 1;
            proof {
                assert(self.mem@ =~= Seq::new(
                    old(self).mem@.len(),
                    |j: int| if base <= j < i { 0xFFu8 } else { old(self).mem@[j] },
                ));
            }
        }
        proof {
            assert(self.mem@ =~= erase_bytes(old(self).mem@, base as int, size as int));
        }
    }

    /// Issue a transaction with an incoming data phase of `len` bytes and
    /// return what the chip answered.
    pub fn blocking_read(&mut self, len: usize, t: Transaction) -> (r: Vec<u8>)
        requires
            old(self).inv(),
            !old(self).mapped,
            read_shape_ok(old(self).chip(), t, len as nat),
        ensures
            final(self).inv(),
            final(self).mapped == old(self).mapped,
            final(self).chip() == disarmed(old(self).chip()),
            final(self).log@ == old(self).log@.push(
                BusRecord { action: BusAction::DataRead(len), transaction: t },
            ),
            r@ == read_result(old(self).chip(), t, len as nat),
            r@.len() == len,
    {
        let mut r: Vec<u8> = Vec::new();
        if t.instruction == CMD_READ_SR {
            r.push(self.sr);
        } else if t.instruction == CMD_READ_CR {
            r.push(self.cr);
        } else if t.instruction == CMD_READ_ID {
            r.push(JEDEC_MANUFACTURER);
            r.push(JEDEC_MEMORY_TYPE);
            r.push(JEDEC_CAPACITY);
        } else {
            let addr = match t.address {
                Some(a) => a,
                None => 0,
            };
            let start = addr as usize;
            let mut i: usize = 0;
            while i < len
                invariant
                    i <= len,
                    start + len <= self.mem@.len(),
                    start + len <= usize::MAX,
                    r@ == self.mem@.subrange(start as int, start + i),
                decreases len - i,
            {
                r.push(self.mem[start + i]);
                i = i + 1;
                proof {
                    assert(r@ =~= self.mem@.subrange(start as int, start + i));
                }
            }
        }
        self.reset_armed = false;
        self.log.push(BusRecord { action: BusAction::DataRead(len), transaction: t });
        proof {
            assert(r@ =~= read_result(old(self).chip(), t, len as nat));
        }
        r
    }

    /// Issue a transaction with an outgoing data phase carrying `data`.
    pub fn blocking_write(&mut self, data: &[u8], t: Transaction)
        requires
            old(self).inv(),
            !old(self).mapped,
            write_shape_ok(old(self).chip(), t, data@.len()),
        ensures
            final(self).inv(),
            final(self).mapped == old(self).mapped,
            final(self).chip() == apply_data_write(old(self).chip(), t, data@),
            final(self).log@ == old(self).log@.push(
                BusRecord { action: BusAction::DataWrite(data@.len() as usize), transaction: t },
            ),
    {
        if t.instruction == CMD_WRITE_SR {
            let incoming = data[0];
            proof {
                assert((incoming & !0x01u8) & 0x01u8 == 0u8) by (bit_vector);
                assert(SR_BUSY_MASK == 0x01u8);
            }
            self.sr = incoming & !SR_BUSY_MASK;
            self.reset_armed = false;
        } else if t.instruction == CMD_WRITE_CR {
            self.cr = data[0];
            self.reset_armed = false;
        } else {
            let addr = match t.address {
                Some(a) => a,
                None => 0,
            };
            if self.write_enabled {
                let start = addr as usize;
                let mut i: usize = 0;
                while i < data.len()
                    invariant
                        i <= data@.len(),
                        start + data@.len() <= self.mem@.len(),
                        start + data@.len() <= usize::MAX,
                        self.mem@.len() == old(self).mem@.len(),
                        self.mem@ == Seq::new(
                            old(self).mem@.len(),
                            |j: int| if start <= j < start + i {
                                data@[j - start]
                            } else {
                                old(self).mem@[j]
                            },
                        ),
                        self.sr == old(self).sr,
                        self.cr == old(self).cr,
                        self.write_enabled == old(self).write_enabled,
                        self.reset_armed == old(self).reset_armed,
                        self.mapped == old(self).mapped,
                        self.log@ == old(self).log@,
                    decreases data@.len() - i,
                {
                    self.mem.set(start + i, data[i]);
                    i = i + 1;
                    proof {
                        assert(self.mem@ =~= Seq::new(
                            old(self).mem@.len(),
                            |j: int| if start <= j < start + i {
                                data@[j - start]
                            } else {
                                old(self).mem@[j]
                            },
                        ));
                    }
                }
                proof {
                    assert(self.mem@ =~= overlay(old(self).mem@, addr as int, data@));
                }
                self.write_enabled = false;
            }
            self.reset_armed = false;
        }
        self.log.push(
            BusRecord { action: BusAction::DataWrite(data.len()), transaction: t },
        );
        proof {
            assert(self.chip() =~= apply_data_write(old(self).chip(), t, data@));
        }
    }

    /// Configure the transport for memory-mapped mode: the template is
    /// re-issued by the transport itself for every subsequent mapped load.
    /// This configures the transport, not the chip, which is left untouched.
    pub fn enable_memory_map(&mut self, t: Transaction)
        requires
            old(self).inv(),
            !old(self).mapped,
            t == spec_memory_map_tx(),
        ensures
            final(self).inv(),
            final(self).mapped,
            final(self).chip() == old(self).chip(),
            final(self).log@ == old(self).log@.push(
                BusRecord { action: BusAction::MapEnable, transaction: t },
            ),
    {
        self.mapped = true;
        self.log.push(BusRecord { action: BusAction::MapEnable, transaction: t });
    }

    /// A processor load from the mapped window: returns `len` bytes of the
    /// chip's contents starting at `offset`. Transparent to the transaction
    /// log, as mapped loads never appear as explicit transactions.
    pub fn mapped_read(&self, offset: usize, len: usize) -> (r: Vec<u8>)
        requires
            self.inv(),
            self.mapped,
            offset + len <= self.mem@.len(),
        ensures
            r@ == self.mem@.subrange(offset as int, offset + len),
    {
        let n = self.mem.len();
        let mut r: Vec<u8> = Vec::new();
        let mut i: usize = 0;
        while i < len
            invariant
                i <= len,
                offset + len <= n,
                n == self.mem@.len(),
                r@ == self.mem@.subrange(offset as int, offset + i),
            decreases len - i,
        {
            r.push(self.mem[offset + i]);
            i = i + 1;
            proof {
                assert(r@ =~= self.mem@.subrange(offset as int, offset + i));
            }
        }
        r
    }
}

} // verus!
