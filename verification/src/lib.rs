//! Driver and boot sequencing logic for a quad-mode serial NOR flash chip.
//!
//! The crate is organised bottom-up: `protocol` holds the chip's opcode table
//! and the shape of every bus transaction the driver issues; `chip` gives the
//! chip's command semantics as a mathematical model; `bus` is an executable
//! transaction bus carrying an attached chip model and a log of every
//! transaction issued; `flash` is the driver proper (write-enable/busy-wait
//! sequencing, page-bounded writes, the command/memory-mapped mode machine);
//! `boot` is the startup orchestration that ends with the mapped vector table.

pub mod boot;
pub mod bus;
pub mod chip;
pub mod flash;
pub mod protocol;
