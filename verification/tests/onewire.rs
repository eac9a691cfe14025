use onewire_hal::blocking;
use onewire_hal::model::BusEvent;
use onewire_hal::onewire::{Command, Error, ErrorKind, OneWire, Operation};
use onewire_hal::onewire_nb;
use onewire_hal::onewire_nb::{NbError, OneMaster};
use onewire_hal::sim::{SimBus, SimPollBus};

const ROM: u64 = 0x1122334455667788;

#[test]
fn command_round_trip() {
    for b in [0xccu8, 0x44, 0xbe] {
        let c = Command::from(b);
        let back: u8 = c.into();
        assert_eq!(back, b);
    }
    assert_eq!(Command::from(0x00u8), Command::SkipRom);
    assert_eq!(Command::from(0xffu8), Command::SkipRom);
    assert_eq!(u8::from(Command::SkipRom), 0xcc);
    assert_eq!(u8::from(Command::ConvertTemperature), 0x44);
    assert_eq!(u8::from(Command::ReadScratchPad), 0xbe);
}

#[test]
fn error_kinds_map_to_themselves() {
    assert_eq!(ErrorKind::NoDevicePresence.kind(), ErrorKind::NoDevicePresence);
    assert_eq!(ErrorKind::RomNotFound(ROM).kind(), ErrorKind::RomNotFound(ROM));
    assert_eq!(ErrorKind::Other.kind(), ErrorKind::Other);
}

#[test]
fn reset_without_devices() {
    let mut bus = SimBus::new(vec![], vec![]);
    assert_eq!(bus.bus_reset(), Err(ErrorKind::NoDevicePresence));
    assert_eq!(bus.trace(), &vec![BusEvent::Reset]);
}

#[test]
fn empty_transaction_is_noop() {
    let mut bus = SimBus::new(vec![ROM], vec![1, 2, 3]);
    let mut ops: Vec<Operation> = Vec::new();
    assert_eq!(bus.transaction(&mut ops), Ok(()));
    assert!(ops.is_empty());
    assert!(bus.trace().is_empty());
    assert_eq!(bus.remaining_emitted(), &vec![1, 2, 3]);
}

#[test]
fn scenario_single_device_scratchpad() {
    let pad = vec![0xaa, 0x01, 0x4b, 0x46, 0x7f, 0xff, 0x0c, 0x10, 0x1c];
    let mut bus = SimBus::new(vec![ROM], pad.clone());
    assert_eq!(bus.bus_reset(), Ok(()));
    assert_eq!(bus.write(ROM, Command::ConvertTemperature), Ok(()));
    let mut buffer = vec![0u8; 9];
    assert_eq!(bus.read(ROM, &mut buffer), Ok(()));
    assert_eq!(buffer, pad);
}

#[test]
fn write_to_wrong_rom_id_fails() {
    let wrong: u64 = 0x8877665544332211;
    let mut bus = SimBus::new(vec![ROM], vec![]);
    assert_eq!(
        bus.write(wrong, Command::ConvertTemperature),
        Err(ErrorKind::RomNotFound(wrong))
    );
    assert!(bus.trace().is_empty());
}

#[test]
fn write_read_trace_is_atomic() {
    let mut bus = SimBus::new(vec![ROM], vec![0x10, 0x20]);
    let mut buffer = vec![0u8; 2];
    assert_eq!(bus.write_read(ROM, &[0xbe, 0x01], &mut buffer), Ok(()));
    assert_eq!(buffer, vec![0x10, 0x20]);
    assert_eq!(
        bus.trace(),
        &vec![
            BusEvent::Address(ROM),
            BusEvent::WriteByte(0xbe),
            BusEvent::WriteByte(0x01),
            BusEvent::ReadByte(0x10),
            BusEvent::ReadByte(0x20),
        ]
    );
}

#[test]
fn read_beyond_emission_requires_fresh_reset() {
    let mut bus = SimBus::new(vec![ROM], vec![0x10]);
    let mut buffer = vec![0u8; 2];
    assert_eq!(bus.read(ROM, &mut buffer), Err(ErrorKind::Other));
    assert_eq!(buffer, vec![0, 0]);
    // The bus now owes a fresh reset before any addressed operation.
    assert_eq!(bus.write(ROM, Command::SkipRom), Err(ErrorKind::Other));
    assert_eq!(bus.bus_reset(), Ok(()));
    assert_eq!(bus.write(ROM, Command::SkipRom), Ok(()));
}

#[test]
fn transaction_runs_steps_in_order() {
    let mut bus = SimBus::new(vec![ROM], vec![0x10, 0x20]);
    let mut ops = vec![
        Operation::Search(ROM),
        Operation::Write(vec![0xbe]),
        Operation::Read(vec![0, 0]),
    ];
    assert_eq!(bus.transaction(&mut ops), Ok(()));
    assert_eq!(ops[2], Operation::Read(vec![0x10, 0x20]));
    assert_eq!(
        bus.trace(),
        &vec![
            BusEvent::Address(ROM),
            BusEvent::WriteByte(0xbe),
            BusEvent::ReadByte(0x10),
            BusEvent::ReadByte(0x20),
        ]
    );
}

#[test]
fn transaction_aborts_on_first_failure() {
    let wrong: u64 = 0x0102030405060708;
    let mut bus = SimBus::new(vec![ROM], vec![0x10]);
    let mut ops = vec![Operation::Search(wrong), Operation::Read(vec![0])];
    assert_eq!(bus.transaction(&mut ops), Err(ErrorKind::RomNotFound(wrong)));
    // The failing step aborts the rest: the read buffer is untouched.
    assert_eq!(ops[1], Operation::Read(vec![0]));
    assert!(bus.trace().is_empty());
}

#[test]
fn transaction_iter_hands_executed_operations_back() {
    let mut bus = SimBus::new(vec![ROM], vec![0x5a]);
    let ops = vec![Operation::Search(ROM), Operation::Read(vec![0])];
    let executed = bus.transaction_iter(ops).unwrap();
    assert_eq!(executed[1], Operation::Read(vec![0x5a]));
}

#[test]
fn poll_completes_after_would_blocks() {
    let mut bus = SimPollBus::new(vec![ROM], vec![0x77], 3);
    let mut buffer = vec![0u8];
    // The operation reports "would block" three times, untouched state...
    for _ in 0..3 {
        assert_eq!(OneMaster::read(&mut bus, ROM, &mut buffer), Err(NbError::WouldBlock));
        assert_eq!(buffer, vec![0u8]);
        assert!(bus.trace().is_empty());
    }
    // ...then completes with the immediate discipline's exact result.
    assert_eq!(OneMaster::read(&mut bus, ROM, &mut buffer), Ok(()));
    assert_eq!(buffer, vec![0x77]);
}

#[test]
fn poll_trace_equals_blocking_trace() {
    let mut immediate = SimBus::new(vec![ROM], vec![0x42, 0x43]);
    let mut polled = SimPollBus::new(vec![ROM], vec![0x42, 0x43], 2);

    assert_eq!(immediate.bus_reset(), Ok(()));
    let mut r = onewire_nb::OneWire::bus_reset(&mut polled);
    while r == Err(NbError::WouldBlock) {
        r = onewire_nb::OneWire::bus_reset(&mut polled);
    }
    assert_eq!(r, Ok(()));

    let mut buf_immediate = vec![0u8; 2];
    let mut buf_polled = vec![0u8; 2];
    assert_eq!(immediate.write_read(ROM, &[0xbe], &mut buf_immediate), Ok(()));
    let mut r = onewire_nb::OneWire::write_read(&mut polled, ROM, &[0xbe], &mut buf_polled);
    while r == Err(NbError::WouldBlock) {
        r = onewire_nb::OneWire::write_read(&mut polled, ROM, &[0xbe], &mut buf_polled);
    }
    assert_eq!(r, Ok(()));

    // Byte for byte the same buffers and the same wire activity.
    assert_eq!(buf_polled, buf_immediate);
    assert_eq!(polled.trace(), immediate.trace());
}

#[test]
fn blocking_flavors_from_poll_master() {
    let mut bus = SimPollBus::new(vec![ROM], vec![0x99], 5);
    assert_eq!(blocking::Write::write(&mut bus, ROM, Command::ReadScratchPad), Ok(()));
    let mut buffer = vec![0u8];
    assert_eq!(blocking::Read::read(&mut bus, ROM, &mut buffer), Ok(()));
    assert_eq!(buffer, vec![0x99]);
    assert_eq!(
        bus.trace(),
        &vec![
            BusEvent::Address(ROM),
            BusEvent::WriteByte(0xbe),
            BusEvent::Address(ROM),
            BusEvent::ReadByte(0x99),
        ]
    );
}

#[test]
fn exclusive_borrow_forwards_the_contract() {
    let mut owned = SimBus::new(vec![ROM], vec![0x33]);
    let mut via_borrow = SimBus::new(vec![ROM], vec![0x33]);

    assert_eq!(owned.bus_reset(), Ok(()));
    let mut buf_owned = vec![0u8];
    assert_eq!(owned.read(ROM, &mut buf_owned), Ok(()));

    {
        let mut handle = &mut via_borrow;
        assert_eq!(OneWire::bus_reset(&mut handle), Ok(()));
        let mut buf_handle = vec![0u8];
        assert_eq!(OneWire::read(&mut handle, ROM, &mut buf_handle), Ok(()));
        assert_eq!(buf_handle, buf_owned);
    }

    // Identical results and identical end state of the handle.
    assert_eq!(via_borrow.trace(), owned.trace());
    assert_eq!(via_borrow.remaining_emitted(), owned.remaining_emitted());
}

#[test]
fn write_iter_and_write_iter_read() {
    let mut bus = SimBus::new(vec![ROM], vec![0x01]);
    assert_eq!(bus.write_iter(ROM, &[0xcc, 0x44]), Ok(()));
    let mut buffer = vec![0u8];
    assert_eq!(bus.write_iter_read(ROM, vec![0xbe], &mut buffer), Ok(()));
    assert_eq!(buffer, vec![0x01]);
    assert_eq!(
        bus.trace(),
        &vec![
            BusEvent::Address(ROM),
            BusEvent::WriteByte(0xcc),
            BusEvent::WriteByte(0x44),
            BusEvent::Address(ROM),
            BusEvent::WriteByte(0xbe),
            BusEvent::ReadByte(0x01),
        ]
    );
}
