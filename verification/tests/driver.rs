use qspi_boot::boot::boot;
use qspi_boot::bus::{BusAction, BusRecord, QspiBus};
use qspi_boot::flash::{BusMode, FlashError, FlashMemory};
use qspi_boot::protocol::{
    command_tx, erase_tx, memory_map_tx, page_program_tx, quad_read_tx, read_id_tx, register_tx,
    PhaseWidth, CMD_CHIP_ERASE, CMD_READ_CR, CMD_READ_SR, CMD_SECTOR_ERASE, CMD_WRITE_CR,
    CMD_WRITE_ENABLE,
};

fn cmd_record(width: PhaseWidth, op: u8) -> BusRecord {
    BusRecord { action: BusAction::Command, transaction: command_tx(width, op) }
}

fn status_poll_record() -> BusRecord {
    BusRecord { action: BusAction::DataRead(1), transaction: register_tx(CMD_READ_SR) }
}

fn ready_device(size: usize) -> FlashMemory {
    FlashMemory::new(QspiBus::new(size))
}

#[test]
fn single_page_write_is_one_chunk() {
    // Writing exactly one page at address 0 issues exactly one
    // write-enable + program + busy-wait sequence.
    let mut flash = ready_device(64);
    let base = flash.bus.log.len();
    let data: Vec<u8> = vec![0, 1, 2, 3, 4, 5, 6, 7];
    assert_eq!(flash.write_memory(0, &data), Ok(()));
    let tail = &flash.bus.log[base..];
    assert_eq!(tail.len(), 3);
    assert_eq!(tail[0], cmd_record(PhaseWidth::Single, CMD_WRITE_ENABLE));
    assert_eq!(
        tail[1],
        BusRecord { action: BusAction::DataWrite(8), transaction: page_program_tx(0) }
    );
    assert_eq!(tail[2], status_poll_record());
}

#[test]
fn straddling_write_splits_at_page_boundary() {
    // Ten bytes at address 4 with page size 8: first 4 bytes fill up to the
    // boundary at 8, the remaining 6 start a new chunk at address 8.
    let mut flash = ready_device(64);
    let base = flash.bus.log.len();
    let data: Vec<u8> = vec![10, 11, 12, 13, 14, 15, 16, 17, 18, 19];
    assert_eq!(flash.write_memory(4, &data), Ok(()));
    let tail = &flash.bus.log[base..];
    assert_eq!(tail.len(), 6);
    assert_eq!(tail[0], cmd_record(PhaseWidth::Single, CMD_WRITE_ENABLE));
    assert_eq!(
        tail[1],
        BusRecord { action: BusAction::DataWrite(4), transaction: page_program_tx(4) }
    );
    assert_eq!(tail[2], status_poll_record());
    assert_eq!(tail[3], cmd_record(PhaseWidth::Single, CMD_WRITE_ENABLE));
    assert_eq!(
        tail[4],
        BusRecord { action: BusAction::DataWrite(6), transaction: page_program_tx(8) }
    );
    assert_eq!(tail[5], status_poll_record());
    let read = flash.read_memory(4, 10).unwrap();
    assert_eq!(read, data);
}

#[test]
fn long_write_chunks_in_ascending_order() {
    // Twenty bytes at address 3: chunks of 5 at 3, 8 at 8, 7 at 16.
    let mut flash = ready_device(64);
    let base = flash.bus.log.len();
    let data: Vec<u8> = (0u8..20).collect();
    assert_eq!(flash.write_memory(3, &data), Ok(()));
    let tail = &flash.bus.log[base..];
    assert_eq!(tail.len(), 9);
    assert_eq!(
        tail[1],
        BusRecord { action: BusAction::DataWrite(5), transaction: page_program_tx(3) }
    );
    assert_eq!(
        tail[4],
        BusRecord { action: BusAction::DataWrite(8), transaction: page_program_tx(8) }
    );
    assert_eq!(
        tail[7],
        BusRecord { action: BusAction::DataWrite(7), transaction: page_program_tx(16) }
    );
    assert_eq!(flash.read_memory(3, 20).unwrap(), data);
}

#[test]
fn empty_write_issues_nothing() {
    let mut flash = ready_device(64);
    let base = flash.bus.log.len();
    let data: Vec<u8> = Vec::new();
    assert_eq!(flash.write_memory(5, &data), Ok(()));
    assert_eq!(flash.bus.log.len(), base);
}

#[test]
fn sector_erase_sequence() {
    // Sector erase at 0x1000: write-enable, erase opcode 0x20 with address
    // 0x1000, then a busy-wait that sees status bit 0 clear.
    let mut flash = ready_device(0x3000);
    let base = flash.bus.log.len();
    assert_eq!(flash.erase_sector(0x1000), Ok(()));
    let tail = &flash.bus.log[base..];
    assert_eq!(tail.len(), 3);
    assert_eq!(tail[0], cmd_record(PhaseWidth::Single, CMD_WRITE_ENABLE));
    assert_eq!(
        tail[1],
        BusRecord { action: BusAction::Command, transaction: erase_tx(CMD_SECTOR_ERASE, 0x1000) }
    );
    assert_eq!(tail[2], status_poll_record());
    assert_eq!(flash.read_sr().unwrap() & 0x01, 0);
}

#[test]
fn sector_erase_clears_only_its_sector() {
    let mut flash = ready_device(0x3000);
    let data: Vec<u8> = vec![1, 2, 3, 4];
    assert_eq!(flash.write_memory(0x0FFC, &data), Ok(()));
    assert_eq!(flash.write_memory(0x1004, &data), Ok(()));
    // A misaligned address erases the whole aligned sector containing it.
    assert_eq!(flash.erase_sector(0x1234), Ok(()));
    assert_eq!(flash.read_memory(0x0FFC, 4).unwrap(), data);
    assert_eq!(flash.read_memory(0x1004, 4).unwrap(), vec![0xFF; 4]);
}

#[test]
fn block_erase_32k_clears_its_block() {
    let mut flash = ready_device(0x10000);
    let data: Vec<u8> = vec![9, 9];
    assert_eq!(flash.write_memory(0x8004, &data), Ok(()));
    assert_eq!(flash.write_memory(0x7FF0, &data), Ok(()));
    assert_eq!(flash.erase_block_32k(0x8004), Ok(()));
    assert_eq!(flash.read_memory(0x8004, 2).unwrap(), vec![0xFF, 0xFF]);
    assert_eq!(flash.read_memory(0x7FF0, 2).unwrap(), data);
}

#[test]
fn block_erase_64k_clears_its_block() {
    let mut flash = ready_device(0x20000);
    let data: Vec<u8> = vec![7];
    assert_eq!(flash.write_memory(0x10000, &data), Ok(()));
    assert_eq!(flash.write_memory(0xFFFF, &data), Ok(()));
    assert_eq!(flash.erase_block_64k(0x1ABCD), Ok(()));
    assert_eq!(flash.read_memory(0x10000, 1).unwrap(), vec![0xFF]);
    assert_eq!(flash.read_memory(0xFFFF, 1).unwrap(), data);
}

#[test]
fn chip_erase_clears_everything() {
    let mut flash = ready_device(64);
    let data: Vec<u8> = vec![1, 2, 3];
    assert_eq!(flash.write_memory(8, &data), Ok(()));
    let base = flash.bus.log.len();
    assert_eq!(flash.erase_chip(), Ok(()));
    let tail = &flash.bus.log[base..];
    assert_eq!(tail.len(), 3);
    assert_eq!(tail[0], cmd_record(PhaseWidth::Single, CMD_WRITE_ENABLE));
    assert_eq!(tail[1], cmd_record(PhaseWidth::Single, CMD_CHIP_ERASE));
    assert_eq!(tail[2], status_poll_record());
    assert_eq!(flash.read_memory(0, 64).unwrap(), vec![0xFF; 64]);
}

#[test]
fn quad_enable_sets_configuration_bit() {
    // Bringing the device up reads the configuration register, ORs in 0x02
    // and writes it back; a subsequent read has bit 1 set.
    let flash = ready_device(64);
    let log = &flash.bus.log;
    // The last two records of construction are the read/modify/write pair.
    assert_eq!(
        log[log.len() - 2],
        BusRecord { action: BusAction::DataRead(1), transaction: register_tx(CMD_READ_CR) }
    );
    assert_eq!(
        log[log.len() - 1],
        BusRecord { action: BusAction::DataWrite(1), transaction: register_tx(CMD_WRITE_CR) }
    );
    let mut flash = flash;
    let cr = flash.read_cr().unwrap();
    assert_eq!(cr & 0x02, 0x02);
    assert!(flash.quad_enabled);
}

#[test]
fn disable_quad_clears_configuration_bit() {
    let mut flash = ready_device(64);
    assert_eq!(flash.disable_quad(), Ok(()));
    let cr = flash.read_cr().unwrap();
    assert_eq!(cr & 0x02, 0);
    assert!(!flash.quad_enabled);
}

#[test]
fn write_then_read_round_trips() {
    let mut flash = ready_device(256);
    let data: Vec<u8> = (100u8..140).collect();
    assert_eq!(flash.write_memory(17, &data), Ok(()));
    assert_eq!(flash.read_memory(17, 40).unwrap(), data);
    // Bytes on either side stay erased.
    assert_eq!(flash.read_memory(16, 1).unwrap(), vec![0xFF]);
    assert_eq!(flash.read_memory(57, 1).unwrap(), vec![0xFF]);
}

#[test]
fn read_id_returns_jedec_bytes() {
    let mut flash = ready_device(64);
    let base = flash.bus.log.len();
    assert_eq!(flash.read_id(), Ok([0xC8, 0x40, 0x17]));
    let tail = &flash.bus.log[base..];
    assert_eq!(tail.len(), 1);
    assert_eq!(
        tail[0],
        BusRecord { action: BusAction::DataRead(3), transaction: read_id_tx() }
    );
}

#[test]
fn reset_sequence_wire_trace() {
    // The defensive reset: enable-reset and reset in quad-width encoding,
    // the same pair in single-width encoding, then the busy-wait.
    let mut flash = ready_device(64);
    let base = flash.bus.log.len();
    assert_eq!(flash.reset_memory(), Ok(()));
    let tail = &flash.bus.log[base..];
    assert_eq!(tail.len(), 5);
    assert_eq!(tail[0], cmd_record(PhaseWidth::Quad, 0x66));
    assert_eq!(tail[1], cmd_record(PhaseWidth::Quad, 0x99));
    assert_eq!(tail[2], cmd_record(PhaseWidth::Single, 0x66));
    assert_eq!(tail[3], cmd_record(PhaseWidth::Single, 0x99));
    assert_eq!(tail[4], status_poll_record());
}

#[test]
fn reset_is_idempotent_on_chip_state() {
    // Two devices over identical contents: resetting twice leaves the chip
    // exactly as resetting once, and the quad flag must be re-enabled.
    let mut once = ready_device(64);
    let mut twice = ready_device(64);
    let data: Vec<u8> = vec![3, 1, 4, 1, 5];
    assert_eq!(once.write_memory(9, &data), Ok(()));
    assert_eq!(twice.write_memory(9, &data), Ok(()));
    assert_eq!(once.enable_write(), Ok(()));
    assert_eq!(twice.enable_write(), Ok(()));
    assert_eq!(once.reset_memory(), Ok(()));
    assert_eq!(twice.reset_memory(), Ok(()));
    assert_eq!(twice.reset_memory(), Ok(()));
    assert_eq!(once.bus.mem, twice.bus.mem);
    assert_eq!(once.bus.sr, twice.bus.sr);
    assert_eq!(once.bus.cr, twice.bus.cr);
    assert_eq!(once.bus.write_enabled, twice.bus.write_enabled);
    assert_eq!(once.bus.reset_armed, twice.bus.reset_armed);
    assert!(!once.quad_enabled && !twice.quad_enabled);
    assert_eq!(once.bus.cr, 0);
}

#[test]
fn reset_clears_registers_but_not_contents() {
    let mut flash = ready_device(64);
    let data: Vec<u8> = vec![42; 8];
    assert_eq!(flash.write_memory(0, &data), Ok(()));
    assert_eq!(flash.write_sr(0x42), Ok(()));
    assert_eq!(flash.reset_memory(), Ok(()));
    assert_eq!(flash.read_sr().unwrap(), 0);
    assert_eq!(flash.read_cr().unwrap(), 0);
    // Contents survive a reset; re-enable quad mode to read them back.
    assert_eq!(flash.write_cr(0x02), Ok(()));
    assert_eq!(flash.read_memory(0, 8).unwrap(), data);
}

#[test]
fn status_register_busy_bit_cannot_be_written() {
    let mut flash = ready_device(64);
    assert_eq!(flash.write_sr(0xFF), Ok(()));
    assert_eq!(flash.read_sr().unwrap(), 0xFE);
    assert_eq!(flash.write_sr(0x01), Ok(()));
    assert_eq!(flash.read_sr().unwrap(), 0);
}

#[test]
fn memory_mapped_mode_rejects_command_operations() {
    // After the mode transition, every command-mode operation returns
    // WrongMode and leaves no trace on the wire.
    let mut flash = ready_device(64);
    let data: Vec<u8> = vec![1, 2, 3, 4];
    assert_eq!(flash.write_memory(0, &data), Ok(()));
    assert_eq!(flash.enable_mm(), Ok(()));
    let base = flash.bus.log.len();
    assert_eq!(flash.read_id(), Err(FlashError::WrongMode));
    assert_eq!(flash.read_sr(), Err(FlashError::WrongMode));
    assert_eq!(flash.read_cr(), Err(FlashError::WrongMode));
    assert_eq!(flash.write_sr(0), Err(FlashError::WrongMode));
    assert_eq!(flash.write_cr(0), Err(FlashError::WrongMode));
    assert_eq!(flash.enable_write(), Err(FlashError::WrongMode));
    assert_eq!(flash.reset_memory(), Err(FlashError::WrongMode));
    assert_eq!(flash.erase_sector(0), Err(FlashError::WrongMode));
    assert_eq!(flash.erase_block_32k(0), Err(FlashError::WrongMode));
    assert_eq!(flash.erase_block_64k(0), Err(FlashError::WrongMode));
    assert_eq!(flash.erase_chip(), Err(FlashError::WrongMode));
    assert_eq!(flash.write_memory(0, &data), Err(FlashError::WrongMode));
    assert_eq!(flash.read_memory(0, 4), Err(FlashError::WrongMode));
    assert_eq!(flash.disable_quad(), Err(FlashError::WrongMode));
    // The transition is irreversible; a second attempt is rejected too.
    assert_eq!(flash.enable_mm(), Err(FlashError::WrongMode));
    assert_eq!(flash.bus.log.len(), base);
    assert_eq!(flash.mode, BusMode::MemoryMapped);
    // Mapped loads now mirror the chip's contents.
    assert_eq!(flash.mapped_read(0, 4).unwrap(), data);
}

#[test]
fn mapped_reads_rejected_in_command_mode() {
    let flash = ready_device(64);
    assert_eq!(flash.mapped_read(0, 4), Err(FlashError::WrongMode));
}

#[test]
fn enable_mm_installs_quad_read_template() {
    let mut flash = ready_device(64);
    let base = flash.bus.log.len();
    assert_eq!(flash.enable_mm(), Ok(()));
    let tail = &flash.bus.log[base..];
    assert_eq!(tail.len(), 1);
    assert_eq!(
        tail[0],
        BusRecord { action: BusAction::MapEnable, transaction: memory_map_tx() }
    );
    assert_eq!(tail[0].transaction, quad_read_tx(0));
    assert_eq!(tail[0].transaction.dummy, 8);
}

#[test]
fn boot_reads_vector_table_little_endian() {
    // Seed a vector table: initial stack pointer 0x20001000, entry
    // 0x90000209, then boot from a fresh, unmapped bus.
    let mut flash = ready_device(64);
    let table: Vec<u8> = vec![0x00, 0x10, 0x00, 0x20, 0x09, 0x02, 0x00, 0x90];
    assert_eq!(flash.write_memory(0, &table), Ok(()));
    assert_eq!(flash.reset_memory(), Ok(()));
    let (booted, stack_pointer, entry) = boot(flash.bus);
    assert_eq!(stack_pointer, 0x2000_1000);
    assert_eq!(entry, 0x9000_0209);
    assert_eq!(booted.mode, BusMode::MemoryMapped);
    assert_eq!(booted.mapped_read(0, 8).unwrap(), table);
}

#[test]
fn construction_resets_then_enables_quad() {
    let flash = ready_device(64);
    let log = &flash.bus.log;
    assert_eq!(log.len(), 7);
    assert_eq!(log[0], cmd_record(PhaseWidth::Quad, 0x66));
    assert_eq!(log[1], cmd_record(PhaseWidth::Quad, 0x99));
    assert_eq!(log[2], cmd_record(PhaseWidth::Single, 0x66));
    assert_eq!(log[3], cmd_record(PhaseWidth::Single, 0x99));
    assert_eq!(log[4], status_poll_record());
    assert_eq!(flash.mode, BusMode::Command);
    assert_eq!(flash.bus.cr, 0x02);
    assert_eq!(flash.bus.sr, 0);
    assert!(!flash.bus.write_enabled);
}

#[test]
fn enable_write_sets_latch_and_program_clears_it() {
    let mut flash = ready_device(64);
    assert_eq!(flash.enable_write(), Ok(()));
    assert!(flash.bus.write_enabled);
    let data: Vec<u8> = vec![1];
    assert_eq!(flash.write_memory(0, &data), Ok(()));
    // Each chunk re-enables writing itself and the chip clears the latch
    // after the program command.
    assert!(!flash.bus.write_enabled);
}
