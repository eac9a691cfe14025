//! The one definition of the 1-Wire wire protocol: an abstract bus model
//! and the state-machine transitions every bus-master operation is
//! specified against, whatever its suspension discipline.
//!
//! A bus master carries an abstract [`BusModel`]; each operation of the
//! contract is a deterministic step on it.  The trace of [`BusEvent`]s
//! records the wire activity of every completed operation, in order, so
//! ordering and atomicity guarantees can be stated exactly: one call
//! appends one contiguous segment.

use vstd::prelude::*;

use crate::onewire::{Command, ErrorKind, RomId, command_byte};

verus! {

/// One observable wire-level event, as recorded by the abstract model.
#[derive(Debug, Clone, Copy, Eq, PartialEq, Structural)]
pub enum BusEvent {
    /// A reset pulse followed by the presence-detection window.
    Reset,
    /// A completed addressing phase that selected the given device.
    Address(RomId),
    /// One byte driven onto the bus by the master.
    WriteByte(u8),
    /// One byte pulled from the bus by the master.
    ReadByte(u8),
}

/// The abstract state of a 1-Wire bus as seen by its single master.
#[verifier::ext_equal]
pub ghost struct BusModel {
    /// The ROM identifiers of the devices attached to the bus.
    pub devices: Seq<RomId>,
    /// The bytes the addressed device stands ready to emit, in order.
    pub emitted: Seq<u8>,
    /// Whether the bus is in a usable state: set by a successful reset,
    /// cleared by a data-phase failure, which obliges the caller to issue
    /// a fresh reset before reuse.
    pub ready: bool,
    /// The wire activity of every completed operation, oldest first.
    pub trace: Seq<BusEvent>,
}

/// What a bus reset reports: presence of at least one device, or
/// `NoDevicePresence`.
pub open spec fn reset_outcome(m: BusModel) -> Result<(), ErrorKind> {
    if m.devices.len() == 0 {
        Err(ErrorKind::NoDevicePresence)
    } else {
        Ok(())
    }
}

/// The state after a bus reset: the reset pulse is recorded, and the bus
/// is usable exactly when some device acknowledged presence.
pub open spec fn reset_step(m: BusModel) -> BusModel {
    BusModel { ready: m.devices.len() > 0, trace: m.trace.push(BusEvent::Reset), ..m }
}

/// What an addressing phase targeted at `rom_id` reports: `Other` on a
/// bus that still owes a fresh reset, `RomNotFound` when the device is
/// not attached, success otherwise.
pub open spec fn address_outcome(m: BusModel, rom_id: RomId) -> Result<(), ErrorKind> {
    if !m.ready {
        Err(ErrorKind::Other)
    } else if !m.devices.contains(rom_id) {
        Err(ErrorKind::RomNotFound(rom_id))
    } else {
        Ok(())
    }
}

/// The wire events of pushing `bytes` onto the bus, in order.
pub open spec fn write_events(bytes: Seq<u8>) -> Seq<BusEvent> {
    bytes.map_values(|b: u8| BusEvent::WriteByte(b))
}

/// The wire events of pulling `bytes` from the bus, in order.
pub open spec fn read_events(bytes: Seq<u8>) -> Seq<BusEvent> {
    bytes.map_values(|b: u8| BusEvent::ReadByte(b))
}

/// One addressed write: an addressing phase targeted at `rom_id`, then
/// `bytes` driven onto the bus as one atomic sequence.  A failed
/// addressing phase fails the whole call and records nothing.
pub open spec fn write_step(m: BusModel, rom_id: RomId, bytes: Seq<u8>) -> (BusModel, Result<
    (),
    ErrorKind,
>) {
    match address_outcome(m, rom_id) {
        Err(e) => (m, Err(e)),
        Ok(()) => (
            (BusModel {
                trace: m.trace + seq![BusEvent::Address(rom_id)] + write_events(bytes),
                ..m
            }),
            Ok(()),
        ),
    }
}

/// One addressed command write: the single wire byte of `command`.
pub open spec fn write_command_step(m: BusModel, rom_id: RomId, command: Command) -> (
    BusModel,
    Result<(), ErrorKind>,
) {
    write_step(m, rom_id, seq![command_byte(command)])
}

/// One addressed read of `n` bytes: an addressing phase targeted at
/// `rom_id`, then the next `n` bytes the device emits, in order, one
/// byte following the previous.  If the device has fewer than `n` bytes
/// to emit, the data phase fails with `Other` and the bus owes a fresh
/// reset.
pub open spec fn read_step(m: BusModel, rom_id: RomId, n: nat) -> (BusModel, Result<
    (),
    ErrorKind,
>) {
    match address_outcome(m, rom_id) {
        Err(e) => (m, Err(e)),
        Ok(()) => if m.emitted.len() < n {
            ((BusModel { ready: false, ..m }), Err(ErrorKind::Other))
        } else {
            (
                (BusModel {
                    emitted: m.emitted.skip(n as int),
                    trace: m.trace + seq![BusEvent::Address(rom_id)] + read_events(
                        m.emitted.take(n as int),
                    ),
                    ..m
                }),
                Ok(()),
            )
        },
    }
}

/// An addressed write followed — without releasing the bus and without a
/// second addressing phase — by a read of `n` bytes.  The single
/// `Address` event followed by one contiguous write-then-read segment is
/// what makes the atomicity of the combined call observable.
pub open spec fn write_read_step(m: BusModel, rom_id: RomId, bytes: Seq<u8>, n: nat) -> (
    BusModel,
    Result<(), ErrorKind>,
) {
    match address_outcome(m, rom_id) {
        Err(e) => (m, Err(e)),
        Ok(()) => if m.emitted.len() < n {
            ((BusModel { ready: false, ..m }), Err(ErrorKind::Other))
        } else {
            (
                (BusModel {
                    emitted: m.emitted.skip(n as int),
                    trace: m.trace + seq![BusEvent::Address(rom_id)] + write_events(bytes)
                        + read_events(m.emitted.take(n as int)),
                    ..m
                }),
                Ok(()),
            )
        },
    }
}

/// The abstract content of one transaction step.
#[verifier::ext_equal]
pub ghost enum OpView {
    /// An addressing phase matching the given device.
    Search(RomId),
    /// A data phase pulling the given bytes into the caller's buffer.
    Read(Seq<u8>),
    /// A data phase pushing the given bytes from the caller's buffer.
    Write(Seq<u8>),
}

/// One step of a transaction.  A `Search` step performs the addressing
/// phase; `Read` and `Write` steps are bare data phases that trust the
/// caller's addressing, as the policy below states.  The step returns
/// the new model, the step with its buffer as the caller sees it
/// afterwards, and what the step reported.
pub open spec fn run_op(m: BusModel, op: OpView) -> (BusModel, OpView, Result<(), ErrorKind>) {
    match op {
        OpView::Search(rom_id) => match address_outcome(m, rom_id) {
            Err(e) => (m, op, Err(e)),
            Ok(()) => (
                (BusModel { trace: m.trace.push(BusEvent::Address(rom_id)), ..m }),
                op,
                Ok(()),
            ),
        },
        OpView::Write(bytes) => if !m.ready {
            (m, op, Err(ErrorKind::Other))
        } else {
            ((BusModel { trace: m.trace + write_events(bytes), ..m }), op, Ok(()))
        },
        OpView::Read(buf) => if !m.ready {
            (m, op, Err(ErrorKind::Other))
        } else if m.emitted.len() < buf.len() {
            ((BusModel { ready: false, ..m }), op, Err(ErrorKind::Other))
        } else {
            (
                (BusModel {
                    emitted: m.emitted.skip(buf.len() as int),
                    trace: m.trace + read_events(m.emitted.take(buf.len() as int)),
                    ..m
                }),
                OpView::Read(m.emitted.take(buf.len() as int)),
                Ok(()),
            )
        },
    }
}

/// A whole transaction: the steps run strictly in the order given, none
/// reordered, merged or skipped, under one uninterrupted hold of the
/// bus.  The first failing step aborts the remaining ones, which leave
/// their buffers untouched; the whole call then reports that failure.
///
/// An empty transaction is a no-op that succeeds without touching the
/// bus or any buffer.
///
/// Addressing policy: the wire protocol has one addressing phase per
/// bus sequence, performed here by a `Search` step; callers should place
/// at most one `Search` at the front.  A second `Search` is executed as
/// a further addressing phase rather than rejected, and `Read`/`Write`
/// steps before any `Search` trust the caller's prior addressing, as
/// bare reads do.
pub open spec fn run_ops(m: BusModel, ops: Seq<OpView>) -> (BusModel, Seq<OpView>, Result<
    (),
    ErrorKind,
>)
    decreases ops.len(),
{
    if ops.len() == 0 {
        (m, ops, Ok(()))
    } else {
        let (m1, op1, r1) = run_op(m, ops[0]);
        if r1 is Err {
            (m1, seq![op1] + ops.skip(1), r1)
        } else {
            let (m2, rest, r2) = run_ops(m1, ops.skip(1));
            (m2, seq![op1] + rest, r2)
        }
    }
}

/// A bus reset on a bus with zero attached devices reports
/// `NoDevicePresence` — never any other kind — and leaves the bus
/// unusable for addressed operations, so every bus master whose
/// operations follow these steps surfaces exactly that kind there.
pub proof fn lemma_reset_without_devices(m: BusModel)
    requires
        m.devices.len() == 0,
    ensures
        reset_outcome(m) == Err::<(), ErrorKind>(ErrorKind::NoDevicePresence),
        !reset_step(m).ready,
{
}

/// A transaction with zero operations is a no-op that succeeds: it
/// leaves the bus exactly as it was — no wire event, no consumed
/// emission — and touches no buffer.
pub proof fn lemma_empty_transaction(m: BusModel)
    ensures
        run_ops(m, Seq::<OpView>::empty()) == (
            m,
            Seq::<OpView>::empty(),
            Ok::<(), ErrorKind>(()),
        ),
{
}

/// A completed write-then-read is observably atomic: it appends to the
/// trace one contiguous segment that begins with the single addressing
/// event, targeted at `rom_id`, and contains no other addressing event
/// — so no operation addressed at any device, the same or a different
/// one, stands between its write phase and its read phase.
pub proof fn lemma_write_read_atomic(m: BusModel, rom_id: RomId, bytes: Seq<u8>, n: nat)
    requires
        write_read_step(m, rom_id, bytes, n).1 is Ok,
    ensures
        ({
            let seg = seq![BusEvent::Address(rom_id)] + write_events(bytes) + read_events(
                m.emitted.take(n as int),
            );
            &&& write_read_step(m, rom_id, bytes, n).0.trace == m.trace + seg
            &&& seg[0] == BusEvent::Address(rom_id)
            &&& forall|j: int| 1 <= j < seg.len() ==> !(seg[j] is Address)
        }),
{
    let seg = seq![BusEvent::Address(rom_id)] + write_events(bytes) + read_events(
        m.emitted.take(n as int),
    );
    assert forall|j: int| 1 <= j < seg.len() implies !(seg[j] is Address) by {
        if j < 1 + bytes.len() {
            assert(seg[j] == write_events(bytes)[j - 1]);
            assert(write_events(bytes)[j - 1] == BusEvent::WriteByte(bytes[j - 1]));
        } else {
            let rd = read_events(m.emitted.take(n as int));
            assert(seg[j] == rd[j - 1 - bytes.len()]);
            assert(rd[j - 1 - bytes.len()] == BusEvent::ReadByte(
                m.emitted.take(n as int)[j - 1 - bytes.len()],
            ));
        }
    }
}

} // verus!
