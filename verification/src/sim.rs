//! A simulated 1-Wire bus: a backend that realizes the bus-master
//! contract against an in-memory device table and records the wire
//! activity it performs, so that callers — and tests — can observe
//! ordering and atomicity directly.

use vstd::prelude::*;

use crate::model::{
    read_events, reset_step, run_op, run_ops, write_events, BusEvent, BusModel,
};
use crate::onewire::{
    kind_of, views_of, Command, ErrorKind, ErrorType, OneWire, Operation, RomId,
};
use crate::onewire_nb;
use crate::onewire_nb::{NbError, NbResult, OneMaster};
use vstd::std_specs::vec::vec_index_mut;

verus! {

/// Whether `rom_id` is one of the attached devices.
fn contains_rom(devices: &Vec<RomId>, rom_id: RomId) -> (b: bool)
    ensures
        b == devices@.contains(rom_id),
{
    let n = devices.len();
    let mut i: usize = 0;
    while i < n
        invariant
            i <= n,
            n == devices@.len(),
            forall|j: int| 0 <= j < i ==> devices@[j] != rom_id,
        decreases n - i,
    {
        if devices[i] == rom_id {
            assert(devices@.contains(rom_id));
            return true;
        }
        i += 1;
    }
    assert(!devices@.contains(rom_id));
    false
}

/// The first `n` bytes of `v`, in order.
fn vec_take(v: &Vec<u8>, n: usize) -> (out: Vec<u8>)
    requires
        n <= v@.len(),
    ensures
        out@ == v@.take(n as int),
{
    let mut out: Vec<u8> = Vec::new();
    let mut i: usize = 0;
    while i < n
        invariant
            i <= n,
            n <= v@.len(),
            out@ == v@.take(i as int),
        decreases n - i,
    {
        out.push(v[i]);
        assert(out@ =~= v@.take(i + 1 as int));
        i += 1;
    }
    out
}

/// All but the first `n` bytes of `v`, in order.
fn vec_skip(v: &Vec<u8>, n: usize) -> (out: Vec<u8>)
    requires
        n <= v@.len(),
    ensures
        out@ == v@.skip(n as int),
{
    let len = v.len();
    let mut out: Vec<u8> = Vec::new();
    let mut i: usize = n;
    while i < len
        invariant
            n <= i <= len,
            len == v@.len(),
            out@ == v@.subrange(n as int, i as int),
        decreases len - i,
    {
        out.push(v[i]);
        assert(out@ =~= v@.subrange(n as int, i + 1 as int));
        i += 1;
    }
    assert(out@ =~= v@.skip(n as int));
    out
}

/// Records the wire events of pushing `bytes` onto the bus.
fn push_write_events(trace: &mut Vec<BusEvent>, bytes: &[u8])
    ensures
        final(trace)@ == old(trace)@ + write_events(bytes@),
{
    let n = bytes.len();
    let mut i: usize = 0;
    while i < n
        invariant
            i <= n,
            n == bytes@.len(),
            trace@ == old(trace)@ + write_events(bytes@.take(i as int)),
        decreases n - i,
    {
        trace.push(BusEvent::WriteByte(bytes[i]));
        assert(bytes@.take(i + 1 as int) =~= bytes@.take(i as int).push(bytes@[i as int]));
        assert(trace@ =~= old(trace)@ + write_events(bytes@.take(i + 1 as int)));
        i += 1;
    }
    assert(bytes@.take(n as int) =~= bytes@);
}

/// Records the wire events of pulling `bytes` from the bus.
fn push_read_events(trace: &mut Vec<BusEvent>, bytes: &Vec<u8>)
    ensures
        final(trace)@ == old(trace)@ + read_events(bytes@),
{
    let n = bytes.len();
    let mut i: usize = 0;
    while i < n
        invariant
            i <= n,
            n == bytes@.len(),
            trace@ == old(trace)@ + read_events(bytes@.take(i as int)),
        decreases n - i,
    {
        trace.push(BusEvent::ReadByte(bytes[i]));
        assert(bytes@.take(i + 1 as int) =~= bytes@.take(i as int).push(bytes@[i as int]));
        assert(trace@ =~= old(trace)@ + read_events(bytes@.take(i + 1 as int)));
        i += 1;
    }
    assert(bytes@.take(n as int) =~= bytes@);
}

/// A simulated bus with a fixed table of attached devices and a
/// preprogrammed stream of bytes the addressed device emits, e.g. a
/// scratch pad.  Every completed operation is recorded in a trace of
/// wire events, oldest first.
pub struct SimBus {
    devices: Vec<RomId>,
    emitted: Vec<u8>,
    ready: bool,
    trace: Vec<BusEvent>,
}

impl SimBus {
    /// The abstract bus this backend realizes.
    pub closed spec fn model_spec(&self) -> BusModel {
        BusModel {
            devices: self.devices@,
            emitted: self.emitted@,
            ready: self.ready,
            trace: self.trace@,
        }
    }

    /// A fresh simulated bus with the given attached devices and
    /// emission stream.  The bus starts usable — it tolerates callers
    /// that skip the initial reset — with an empty trace.
    pub fn new(devices: Vec<RomId>, emitted: Vec<u8>) -> (s: SimBus)
        ensures
            s.model_spec() == (BusModel {
                devices: devices@,
                emitted: emitted@,
                ready: true,
                trace: Seq::<BusEvent>::empty(),
            }),
    {
        let s = SimBus { devices, emitted, ready: true, trace: Vec::new() };
        assert(s.model_spec() =~= BusModel {
            devices: s.devices@,
            emitted: s.emitted@,
            ready: true,
            trace: Seq::<BusEvent>::empty(),
        });
        s
    }

    /// The wire events of every completed operation, oldest first.
    pub fn trace(&self) -> (t: &Vec<BusEvent>)
        ensures
            t@ == self.model_spec().trace,
    {
        &self.trace
    }

    /// The bytes the addressed device still stands ready to emit.
    pub fn remaining_emitted(&self) -> (e: &Vec<u8>)
        ensures
            e@ == self.model_spec().emitted,
    {
        &self.emitted
    }
}

impl ErrorType for SimBus {
    type Error = ErrorKind;
}

impl SimBus {
    /// Executes the steps of a transaction from position `i` on,
    /// leaving the steps before `i` untouched.
    fn transaction_from(&mut self, operations: &mut Vec<Operation>, i: usize) -> (r: Result<
        (),
        ErrorKind,
    >)
        requires
            i <= old(operations)@.len(),
        ensures
            ({
                let (m2, ops2, rr) = run_ops(
                    old(self).model_spec(),
                    views_of(old(operations)@.skip(i as int)),
                );
                &&& final(self).model_spec() == m2
                &&& final(operations)@.len() == old(operations)@.len()
                &&& final(operations)@.take(i as int) == old(operations)@.take(i as int)
                &&& views_of(final(operations)@.skip(i as int)) == ops2
                &&& kind_of::<ErrorKind>(r) == rr
            }),
        decreases old(operations)@.len() - i,
    {
        let ghost m0 = self.model_spec();
        let ghost ops_pre = operations@;
        let n = operations.len();
        if i >= n {
            return Ok(());
        }
        let ghost s = views_of(ops_pre.skip(i as int));
        proof {
            assert(s[0] == ops_pre[i as int]@);
        }
        let step_r: Result<(), ErrorKind>;
        let elem = vec_index_mut(operations, i);
        match elem {
            Operation::Search(rom_ref) => {
                let rom = *rom_ref;
                if !self.ready {
                    step_r = Err(ErrorKind::Other);
                } else if !contains_rom(&self.devices, rom) {
                    step_r = Err(ErrorKind::RomNotFound(rom));
                } else {
                    self.trace.push(BusEvent::Address(rom));
                    step_r = Ok(());
                }
            },
            Operation::Write(bytes) => {
                if !self.ready {
                    step_r = Err(ErrorKind::Other);
                } else {
                    push_write_events(&mut self.trace, bytes.as_slice());
                    step_r = Ok(());
                }
            },
            Operation::Read(buf) => {
                if !self.ready {
                    step_r = Err(ErrorKind::Other);
                } else {
                    let len = buf.len();
                    if self.emitted.len() < len {
                        self.ready = false;
                        step_r = Err(ErrorKind::Other);
                    } else {
                        let out = vec_take(&self.emitted, len);
                        push_read_events(&mut self.trace, &out);
                        let rest = vec_skip(&self.emitted, len);
                        self.emitted = rest;
                        *buf = out;
                        step_r = Ok(());
                    }
                }
            },
        }
        proof {
            let (m1, op1, r1) = run_op(m0, s[0]);
            assert(self.model_spec() =~= m1);
            assert(operations@[i as int]@ == op1);
            assert(operations@.len() == ops_pre.len());
            assert(operations@.take(i as int) =~= ops_pre.take(i as int));
            assert(step_r == r1);
        }
        if let Err(e) = step_r {
            proof {
                let (m1, op1, r1) = run_op(m0, s[0]);
                assert(views_of(operations@.skip(i as int)) =~= seq![op1] + s.skip(1));
                assert(run_ops(m0, s) == (m1, seq![op1] + s.skip(1), r1));
            }
            return Err(e);
        }
        let ghost m_mid = self.model_spec();
        let ghost ops_mid = operations@;
        let r2 = self.transaction_from(operations, i + 1);
        proof {
            let (m1, op1, r1) = run_op(m0, s[0]);
            assert(views_of(ops_mid.skip(i + 1 as int)) =~= s.skip(1));
            let (m2, rest2, rr2) = run_ops(m_mid, views_of(ops_mid.skip(i + 1 as int)));
            assert(run_ops(m0, s) == (m2, seq![op1] + rest2, rr2));
            assert(ops_mid.take(i + 1 as int)[i as int] == ops_mid[i as int]);
            assert(operations@[i as int] == ops_mid[i as int]);
            assert(views_of(operations@.skip(i as int)) =~= seq![op1] + views_of(
                operations@.skip(i + 1 as int),
            ));
            assert(operations@.take(i as int) =~= ops_pre.take(i as int));
        }
        r2
    }
}

/// The bus-master contract, realized immediately against the simulated
/// bus: every operation completes in the call, as the state-machine
/// step on the recorded model.
impl OneWire for SimBus {
    open spec fn model(&self) -> BusModel {
        self.model_spec()
    }

    fn bus_reset(&mut self) -> (r: Result<(), Self::Error>) {
        self.trace.push(BusEvent::Reset);
        if self.devices.len() == 0 {
            self.ready = false;
            proof {
                assert(self.model_spec() =~= reset_step(old(self).model_spec()));
            }
            Err(ErrorKind::NoDevicePresence)
        } else {
            self.ready = true;
            proof {
                assert(self.model_spec() =~= reset_step(old(self).model_spec()));
            }
            Ok(())
        }
    }

    fn write(&mut self, rom_id: RomId, command: Command) -> (r: Result<(), Self::Error>) {
        if !self.ready {
            return Err(ErrorKind::Other);
        }
        if !contains_rom(&self.devices, rom_id) {
            return Err(ErrorKind::RomNotFound(rom_id));
        }
        let byte = u8::from(command);
        self.trace.push(BusEvent::Address(rom_id));
        self.trace.push(BusEvent::WriteByte(byte));
        proof {
            assert(self.trace@ =~= old(self).trace@ + seq![BusEvent::Address(rom_id)]
                + write_events(seq![byte]));
            assert(self.model_spec() =~= BusModel {
                trace: old(self).model_spec().trace + seq![BusEvent::Address(rom_id)]
                    + write_events(seq![byte]),
                ..old(self).model_spec()
            });
        }
        Ok(())
    }

    fn read(&mut self, rom_id: RomId, buffer: &mut Vec<u8>) -> (r: Result<(), Self::Error>) {
        if !self.ready {
            return Err(ErrorKind::Other);
        }
        if !contains_rom(&self.devices, rom_id) {
            return Err(ErrorKind::RomNotFound(rom_id));
        }
        let n = buffer.len();
        if self.emitted.len() < n {
            self.ready = false;
            proof {
                assert(self.model_spec() =~= BusModel { ready: false, ..old(self).model_spec() });
            }
            return Err(ErrorKind::Other);
        }
        let out = vec_take(&self.emitted, n);
        self.trace.push(BusEvent::Address(rom_id));
        push_read_events(&mut self.trace, &out);
        let rest = vec_skip(&self.emitted, n);
        self.emitted = rest;
        *buffer = out;
        proof {
            assert(self.model_spec() =~= BusModel {
                emitted: old(self).model_spec().emitted.skip(n as int),
                trace: old(self).model_spec().trace + seq![BusEvent::Address(rom_id)]
                    + read_events(old(self).model_spec().emitted.take(n as int)),
                ..old(self).model_spec()
            });
        }
        Ok(())
    }

    fn write_iter(&mut self, rom_id: RomId, bytes: &[u8]) -> (r: Result<(), Self::Error>) {
        if !self.ready {
            return Err(ErrorKind::Other);
        }
        if !contains_rom(&self.devices, rom_id) {
            return Err(ErrorKind::RomNotFound(rom_id));
        }
        self.trace.push(BusEvent::Address(rom_id));
        push_write_events(&mut self.trace, bytes);
        proof {
            assert(self.model_spec() =~= BusModel {
                trace: old(self).model_spec().trace + seq![BusEvent::Address(rom_id)]
                    + write_events(bytes@),
                ..old(self).model_spec()
            });
        }
        Ok(())
    }

    fn write_read(&mut self, rom_id: RomId, bytes: &[u8], buffer: &mut Vec<u8>) -> (r: Result<
        (),
        Self::Error,
    >) {
        if !self.ready {
            return Err(ErrorKind::Other);
        }
        if !contains_rom(&self.devices, rom_id) {
            return Err(ErrorKind::RomNotFound(rom_id));
        }
        let n = buffer.len();
        if self.emitted.len() < n {
            self.ready = false;
            proof {
                assert(self.model_spec() =~= BusModel { ready: false, ..old(self).model_spec() });
            }
            return Err(ErrorKind::Other);
        }
        self.trace.push(BusEvent::Address(rom_id));
        push_write_events(&mut self.trace, bytes);
        let out = vec_take(&self.emitted, n);
        push_read_events(&mut self.trace, &out);
        let rest = vec_skip(&self.emitted, n);
        self.emitted = rest;
        *buffer = out;
        proof {
            assert(self.model_spec() =~= BusModel {
                emitted: old(self).model_spec().emitted.skip(n as int),
                trace: old(self).model_spec().trace + seq![BusEvent::Address(rom_id)]
                    + write_events(bytes@) + read_events(
                    old(self).model_spec().emitted.take(n as int),
                ),
                ..old(self).model_spec()
            });
        }
        Ok(())
    }

    fn write_iter_read(&mut self, rom_id: RomId, bytes: Vec<u8>, buffer: &mut Vec<u8>) -> (r:
        Result<(), Self::Error>) {
        self.write_read(rom_id, bytes.as_slice(), buffer)
    }

    fn transaction(&mut self, operations: &mut Vec<Operation>) -> (r: Result<(), Self::Error>) {
        let r = self.transaction_from(operations, 0);
        proof {
            assert(old(operations)@.skip(0) =~= old(operations)@);
            assert(views_of(operations@.skip(0)) =~= views_of(operations@));
        }
        r
    }

    fn transaction_iter(&mut self, operations: Vec<Operation>) -> (r: Result<
        Vec<Operation>,
        Self::Error,
    >) {
        let mut ops = operations;
        match self.transaction(&mut ops) {
            Ok(()) => Ok(ops),
            Err(e) => Err(e),
        }
    }
}

/// A poll-driven simulated bus: the same bus as [`SimBus`], completing
/// each operation only after reporting "would block" a configured
/// number of times — the countdown is the retry budget of the
/// poll-driven contract.
pub struct SimPollBus {
    bus: SimBus,
    delay: u8,
    countdown: u8,
}

impl SimPollBus {
    /// The abstract bus this backend realizes.
    pub closed spec fn model_spec(&self) -> BusModel {
        self.bus.model_spec()
    }

    /// How many would-blocks the backend will still report before the
    /// next completion.
    pub closed spec fn countdown_spec(&self) -> nat {
        self.countdown as nat
    }

    /// A fresh poll-driven simulated bus over the given attached
    /// devices and emission stream, reporting "would block" `delay`
    /// times before each completed operation.
    pub fn new(devices: Vec<RomId>, emitted: Vec<u8>, delay: u8) -> (s: SimPollBus)
        ensures
            s.model_spec() == (BusModel {
                devices: devices@,
                emitted: emitted@,
                ready: true,
                trace: Seq::<BusEvent>::empty(),
            }),
            s.countdown_spec() == delay as nat,
    {
        SimPollBus { bus: SimBus::new(devices, emitted), delay, countdown: delay }
    }

    /// The wire events of every completed operation, oldest first.
    pub fn trace(&self) -> (t: &Vec<BusEvent>)
        ensures
            t@ == self.model_spec().trace,
    {
        self.bus.trace()
    }

    /// Counts down the would-blocks still owed; reports whether the
    /// operation in flight completes now.
    fn tick(&mut self) -> (complete: bool)
        ensures
            final(self).model_spec() == old(self).model_spec(),
            !complete ==> final(self).countdown_spec() < old(self).countdown_spec(),
            complete ==> old(self).countdown_spec() == 0,
    {
        if self.countdown > 0 {
            self.countdown -= 1;
            false
        } else {
            self.countdown = self.delay;
            true
        }
    }
}

impl ErrorType for SimPollBus {
    type Error = ErrorKind;
}

/// The poll-driven bus-master contract, realized against the simulated
/// bus: each completed operation is the identical state-machine step
/// the immediate discipline performs.
impl onewire_nb::OneWire for SimPollBus {
    open spec fn model(&self) -> BusModel {
        self.model_spec()
    }

    open spec fn budget(&self) -> nat {
        self.countdown_spec()
    }

    fn bus_reset(&mut self) -> (r: NbResult<(), Self::Error>) {
        if !self.tick() {
            return Err(NbError::WouldBlock);
        }
        match self.bus.bus_reset() {
            Ok(()) => Ok(()),
            Err(e) => Err(NbError::Other(e)),
        }
    }

    fn write(&mut self, rom_id: RomId, command: Command) -> (r: NbResult<(), Self::Error>) {
        if !self.tick() {
            return Err(NbError::WouldBlock);
        }
        match self.bus.write(rom_id, command) {
            Ok(()) => Ok(()),
            Err(e) => Err(NbError::Other(e)),
        }
    }

    fn read(&mut self, rom_id: RomId, buffer: &mut Vec<u8>) -> (r: NbResult<(), Self::Error>) {
        if !self.tick() {
            return Err(NbError::WouldBlock);
        }
        match self.bus.read(rom_id, buffer) {
            Ok(()) => Ok(()),
            Err(e) => Err(NbError::Other(e)),
        }
    }

    fn write_iter(&mut self, rom_id: RomId, bytes: &[u8]) -> (r: NbResult<(), Self::Error>) {
        if !self.tick() {
            return Err(NbError::WouldBlock);
        }
        match self.bus.write_iter(rom_id, bytes) {
            Ok(()) => Ok(()),
            Err(e) => Err(NbError::Other(e)),
        }
    }

    fn write_read(&mut self, rom_id: RomId, bytes: &[u8], buffer: &mut Vec<u8>) -> (r: NbResult<
        (),
        Self::Error,
    >) {
        if !self.tick() {
            return Err(NbError::WouldBlock);
        }
        match self.bus.write_read(rom_id, bytes, buffer) {
            Ok(()) => Ok(()),
            Err(e) => Err(NbError::Other(e)),
        }
    }

    fn write_iter_read(&mut self, rom_id: RomId, bytes: Vec<u8>, buffer: &mut Vec<u8>) -> (r:
        NbResult<(), Self::Error>) {
        if !self.tick() {
            return Err(NbError::WouldBlock);
        }
        match self.bus.write_iter_read(rom_id, bytes, buffer) {
            Ok(()) => Ok(()),
            Err(e) => Err(NbError::Other(e)),
        }
    }

    fn transaction(&mut self, operations: &mut Vec<Operation>) -> (r: NbResult<
        (),
        Self::Error,
    >) {
        if !self.tick() {
            return Err(NbError::WouldBlock);
        }
        match self.bus.transaction(operations) {
            Ok(()) => Ok(()),
            Err(e) => Err(NbError::Other(e)),
        }
    }

    fn transaction_iter(&mut self, operations: Vec<Operation>) -> (r: Result<
        Vec<Operation>,
        NbError<Self::Error>,
    >) {
        if !self.tick() {
            return Err(NbError::WouldBlock);
        }
        match self.bus.transaction_iter(operations) {
            Ok(ops) => Ok(ops),
            Err(e) => Err(NbError::Other(e)),
        }
    }
}

/// The minimal master interface, realized by the same poll-driven
/// simulated bus.
impl OneMaster for SimPollBus {
    type Error = ErrorKind;

    open spec fn model(&self) -> BusModel {
        self.model_spec()
    }

    open spec fn budget(&self) -> nat {
        self.countdown_spec()
    }

    fn bus_reset(&mut self) -> (r: NbResult<(), Self::Error>) {
        onewire_nb::OneWire::bus_reset(self)
    }

    fn write(&mut self, rom_id: RomId, command: Command) -> (r: NbResult<(), Self::Error>) {
        onewire_nb::OneWire::write(self, rom_id, command)
    }

    fn read(&mut self, rom_id: RomId, buffer: &mut Vec<u8>) -> (r: NbResult<(), Self::Error>) {
        onewire_nb::OneWire::read(self, rom_id, buffer)
    }
}

/// The poll-driven simulated bus opts into the default blocking read.
impl crate::blocking::read::Default for SimPollBus {

}

/// The poll-driven simulated bus opts into the default blocking write.
impl crate::blocking::write::Default for SimPollBus {

}

} // verus!

