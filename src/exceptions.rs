//! The exception vector table and its activation.

use vstd::prelude::*;
use crate::threading::{Action, Fault};

verus! {

/// Required alignment of the table's base address, in bytes.
pub const VECTOR_ALIGN: u32 = 32;

/// The eight trap sources, in table order.
#[derive(Clone, Copy, Debug, PartialEq, Eq, Structural)]
pub enum Vector {
    Reset,
    UndefinedInstruction,
    SoftwareInterrupt,
    PrefetchAbort,
    DataAbort,
    Reserved,
    Irq,
    Fiq,
}

/// The trap source of table slot `slot`.
pub open spec fn vector_at(slot: u32) -> Option<Vector> {
    if slot == 0 {
        Some(Vector::Reset)
    } else if slot == 1 {
        Some(Vector::UndefinedInstruction)
    } else if slot == 2 {
        Some(Vector::SoftwareInterrupt)
    } else if slot == 3 {
        Some(Vector::PrefetchAbort)
    } else if slot == 4 {
        Some(Vector::DataAbort)
    } else if slot == 5 {
        Some(Vector::Reserved)
    } else if slot == 6 {
        Some(Vector::Irq)
    } else if slot == 7 {
        Some(Vector::Fiq)
    } else {
        None
    }
}

/// The trap source whose branch sits `offset` bytes past the table's base:
/// one four-byte slot each.
pub fn vector_from_offset(offset: u32) -> (r: Option<Vector>)
    ensures
        r == (if offset % 4 == 0 { vector_at(offset / 4) } else { None }),
{
    if offset % 4 != 0 {
        return None;
    }
    let slot = offset / 4;
    if slot == 0 {
        Some(Vector::Reset)
    } else if slot == 1 {
        Some(Vector::UndefinedInstruction)
    } else if slot == 2 {
        Some(Vector::SoftwareInterrupt)
    } else if slot == 3 {
        Some(Vector::PrefetchAbort)
    } else if slot == 4 {
        Some(Vector::DataAbort)
    } else if slot == 5 {
        Some(Vector::Reserved)
    } else if slot == 6 {
        Some(Vector::Irq)
    } else if slot == 7 {
        Some(Vector::Fiq)
    } else {
        None
    }
}

/// The handler a slot branches to.
#[derive(Clone, Copy, Debug, PartialEq, Eq, Structural)]
pub enum Handler {
    /// The syscall dispatcher.
    Syscall,
    /// The fatal handler for traps this kernel does not support.
    Unset,
}

/// Only the software interrupt is handled; every other slot is fatal.
pub fn handler_for(v: Vector) -> (r: Handler)
    ensures
        r == (if v == Vector::SoftwareInterrupt { Handler::Syscall } else { Handler::Unset }),
{
    match v {
        Vector::SoftwareInterrupt => Handler::Syscall,
        _ => Handler::Unset,
    }
}

/// The fatal handler of every unsupported trap; the fault names its source.
pub fn trampoline_unset(source: Vector) -> (r: Action)
    ensures
        r == Action::Halt(Fault::UnsupportedTrap(source)),
{
    Action::Halt(Fault::UnsupportedTrap(source))
}

/// A privileged system-control operation.
#[derive(Clone, Copy, Debug, PartialEq, Eq, Structural)]
pub enum ControlOp {
    /// Write the vector base address register.
    WriteVectorBase(u32),
    /// Data synchronization barrier.
    DataSyncBarrier,
    /// Instruction synchronization barrier.
    InstructionSyncBarrier,
}

/// The operations that install the table at `base`, in order: the base
/// write, then a data barrier, then an instruction barrier, before any trap
/// relies on the new table.
pub fn activate_exception_vector_hook(base: u32) -> (r: Vec<ControlOp>)
    requires
        base % VECTOR_ALIGN == 0,
    ensures
        r@ == seq![
            ControlOp::WriteVectorBase(base),
            ControlOp::DataSyncBarrier,
            ControlOp::InstructionSyncBarrier,
        ],
{
    let mut ops: Vec<ControlOp> = Vec::new();
    ops.push(ControlOp::WriteVectorBase(base));
    ops.push(ControlOp::DataSyncBarrier);
    ops.push(ControlOp::InstructionSyncBarrier);
    assert(ops@ =~= seq![
        ControlOp::WriteVectorBase(base),
        ControlOp::DataSyncBarrier,
        ControlOp::InstructionSyncBarrier,
    ]);
    ops
}

} // verus!
