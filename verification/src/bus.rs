//! Register-transaction framing for the synchronous serial bus.
//!
//! Every register access is one bracketed transaction: chip-select driven to
//! its active level, an address byte exchanged, a data byte exchanged, and
//! chip-select released. A read is announced by setting the top bit of the
//! address byte; a write keeps it clear. The bus is full duplex, so each
//! exchanged byte yields one received byte: during a read the driver discards
//! the byte received in the address phase and keeps the byte received while
//! transmitting the dummy data byte.

use vstd::prelude::*;

verus! {

/// One primitive action on the bus: drive chip-select to its active level,
/// exchange one byte (full duplex), or release chip-select.
#[derive(Clone, Copy, Debug, PartialEq, Eq, Structural)]
pub enum BusOp {
    /// Drive the chip-select line to its active level, addressing the device.
    Select,
    /// Transmit one byte and capture the byte received in exchange.
    Exchange(u8),
    /// Release the chip-select line, ending the transaction.
    Release,
}

/// The address byte of a read transaction: the register with its top bit set.
pub open spec fn read_address(reg: u8) -> u8 {
    reg | 0x80
}

/// The address byte of a write transaction: the register with its top bit clear.
pub open spec fn write_address(reg: u8) -> u8 {
    reg & 0x7f
}

/// The exact bus operations of one register read: select, address byte with
/// the read bit set, a dummy byte whose exchanged response carries the
/// register's content, release.
pub open spec fn read_frame_ops(reg: u8) -> Seq<BusOp> {
    seq![
        BusOp::Select,
        BusOp::Exchange(read_address(reg)),
        BusOp::Exchange(0x00),
        BusOp::Release,
    ]
}

/// The exact bus operations of one register write: select, address byte with
/// the read bit clear, the data byte, release.
pub open spec fn write_frame_ops(reg: u8, data: u8) -> Seq<BusOp> {
    seq![
        BusOp::Select,
        BusOp::Exchange(write_address(reg)),
        BusOp::Exchange(data),
        BusOp::Release,
    ]
}

/// Chip-select brackets exactly one address+data exchange pair: it is driven
/// active first, released last, and is never left active across transactions.
pub open spec fn well_framed(ops: Seq<BusOp>) -> bool {
    &&& ops.len() == 4
    &&& ops[0] == BusOp::Select
    &&& ops[1] is Exchange
    &&& ops[2] is Exchange
    &&& ops[3] == BusOp::Release
}

/// Builds the operations of one register read, in order.
pub fn read_frame(reg: u8) -> (ops: Vec<BusOp>)
    ensures
        ops@ == read_frame_ops(reg),
{
    let mut ops: Vec<BusOp> = Vec::new();
    ops.push(BusOp::Select);
    ops.push(BusOp::Exchange(reg | 0x80));
    ops.push(BusOp::Exchange(0x00));
    ops.push(BusOp::Release);
    proof {
        assert(ops@ =~= read_frame_ops(reg));
    }
    ops
}

/// Builds the operations of one register write, in order.
pub fn write_frame(reg: u8, data: u8) -> (ops: Vec<BusOp>)
    ensures
        ops@ == write_frame_ops(reg, data),
{
    let mut ops: Vec<BusOp> = Vec::new();
    ops.push(BusOp::Select);
    ops.push(BusOp::Exchange(reg & 0x7f));
    ops.push(BusOp::Exchange(data));
    ops.push(BusOp::Release);
    proof {
        assert(ops@ =~= write_frame_ops(reg, data));
    }
    ops
}

/// Transaction-framing law: every frame holds chip-select active for exactly
/// one address+data pair; a read's address byte is the register with the top
/// bit set, a write's address byte is the register with the top bit clear.
pub proof fn lemma_transaction_framing(reg: u8, data: u8)
    ensures
        well_framed(read_frame_ops(reg)),
        well_framed(write_frame_ops(reg, data)),
        read_frame_ops(reg)[1] == BusOp::Exchange(reg | 0x80),
        read_frame_ops(reg)[2] == BusOp::Exchange(0x00),
        write_frame_ops(reg, data)[1] == BusOp::Exchange(reg & 0x7f),
        write_frame_ops(reg, data)[2] == BusOp::Exchange(data),
        read_address(reg) >= 0x80,
        write_address(reg) < 0x80,
{
    assert(reg | 0x80 >= 0x80) by (bit_vector);
    assert(reg & 0x7f < 0x80) by (bit_vector);
}

} // verus!
