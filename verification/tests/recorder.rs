use display_interface::recorder::{BusEvent, Fault, Recorder};
use display_interface::{DataFormat, DisplayError, FormatKind, Mode, WriteOnlyDataCommand};

fn recorder(formats: Vec<FormatKind>, fault: Option<Fault>) -> Recorder {
    Recorder { formats, fault, trace: Vec::new() }
}

fn in_memory(bytes: &[u8]) -> Vec<u16> {
    bytes.chunks(2).map(|pair| u16::from_ne_bytes([pair[0], pair[1]])).collect()
}

fn machine_is_little_endian() -> bool {
    u16::from_ne_bytes([1, 0]) == 1
}

fn send<I: WriteOnlyDataCommand>(
    bus: &mut I,
    mode: Mode,
    data: DataFormat<'_>,
) -> Result<(), DisplayError> {
    match mode {
        Mode::Command => bus.send_commands(data),
        Mode::Data => bus.send_data(data),
    }
}

#[test]
fn new_recorder_transmits_everything_and_has_seen_nothing() {
    let bus = Recorder::new();
    assert_eq!(
        bus.formats,
        vec![FormatKind::U8, FormatKind::U16, FormatKind::U16BE, FormatKind::U16LE]
    );
    assert_eq!(bus.fault, None);
    assert!(bus.trace.is_empty());
}

#[test]
fn chip_select_fault_fails_commands_before_any_write() {
    let mut bus = Recorder::new();
    bus.fault = Some(Fault::ChipSelect);
    let result = bus.send_commands(DataFormat::U8(&[0x01, 0x02]));
    assert!(matches!(result, Err(DisplayError::CSError)));
    assert!(!bus.trace.iter().any(|event| matches!(event, BusEvent::Write(_))));
    assert!(bus.trace.is_empty());
}

#[test]
fn one_data_byte_is_written_once_in_data_mode() {
    let mut bus = Recorder::new();
    let result = bus.send_data(DataFormat::U8(&[0xFF]));
    assert!(result.is_ok());
    assert_eq!(
        bus.trace,
        vec![
            BusEvent::Select,
            BusEvent::SetMode(Mode::Data),
            BusEvent::Write(vec![0xFF]),
            BusEvent::Release,
        ]
    );
}

#[test]
fn native_words_are_refused_where_only_bytes_and_big_endian_go() {
    let mut bus = recorder(vec![FormatKind::U8, FormatKind::U16BE], None);
    let words = [0x1234u16, 0x5678];
    let result = bus.send_commands(DataFormat::U16(&words));
    assert!(matches!(result, Err(DisplayError::DataFormatNotImplemented)));
    assert!(bus.trace.is_empty());
}

#[test]
fn commands_are_written_in_command_mode() {
    let mut bus = Recorder::new();
    let result = bus.send_commands(DataFormat::U8(&[0xAE, 0xA4, 0x20]));
    assert!(result.is_ok());
    assert_eq!(
        bus.trace,
        vec![
            BusEvent::Select,
            BusEvent::SetMode(Mode::Command),
            BusEvent::Write(vec![0xAE, 0xA4, 0x20]),
            BusEvent::Release,
        ]
    );
}

#[test]
fn mode_is_set_before_the_write_and_the_bus_released_after_it() {
    for mode in [Mode::Command, Mode::Data] {
        let mut bus = Recorder::new();
        assert!(send(&mut bus, mode, DataFormat::U8(&[1, 2, 3])).is_ok());
        let write = bus
            .trace
            .iter()
            .position(|event| matches!(event, BusEvent::Write(_)))
            .unwrap();
        assert_eq!(bus.trace[write - 1], BusEvent::SetMode(mode));
        assert_eq!(bus.trace[write + 1], BusEvent::Release);
        assert_eq!(bus.trace.first(), Some(&BusEvent::Select));
        assert_eq!(bus.trace.last(), Some(&BusEvent::Release));
        assert_eq!(bus.trace.len(), 4);
    }
}

#[test]
fn each_fault_gives_its_own_error() {
    let mut bus = recorder(vec![FormatKind::U8], Some(Fault::ChipSelect));
    assert!(matches!(bus.send_data(DataFormat::U8(&[1])), Err(DisplayError::CSError)));
    assert_eq!(bus.trace, vec![]);

    let mut bus = recorder(vec![FormatKind::U8], Some(Fault::DataCommand));
    assert!(matches!(bus.send_data(DataFormat::U8(&[1])), Err(DisplayError::DCError)));
    assert_eq!(bus.trace, vec![BusEvent::Select, BusEvent::Release]);

    let mut bus = recorder(vec![FormatKind::U8], Some(Fault::BusWrite));
    assert!(matches!(bus.send_data(DataFormat::U8(&[1])), Err(DisplayError::BusWriteError)));
    assert_eq!(
        bus.trace,
        vec![BusEvent::Select, BusEvent::SetMode(Mode::Data), BusEvent::Release]
    );
}

#[test]
fn fault_names_its_error() {
    assert!(matches!(Fault::ChipSelect.error(), DisplayError::CSError));
    assert!(matches!(Fault::DataCommand.error(), DisplayError::DCError));
    assert!(matches!(Fault::BusWrite.error(), DisplayError::BusWriteError));
}

#[test]
fn a_faulty_bus_never_writes() {
    for fault in [Fault::ChipSelect, Fault::DataCommand, Fault::BusWrite] {
        for mode in [Mode::Command, Mode::Data] {
            let mut bus = Recorder::new();
            bus.fault = Some(fault);
            assert!(send(&mut bus, mode, DataFormat::U8(&[1, 2, 3])).is_err());
            assert!(!bus.trace.iter().any(|event| matches!(event, BusEvent::Write(_))));
            assert!(bus.trace.is_empty() || bus.trace.last() == Some(&BusEvent::Release));
        }
    }
}

#[test]
fn unsupported_format_is_refused_without_touching_bus_or_buffer() {
    let mut bus = recorder(vec![FormatKind::U8, FormatKind::U16], None);
    let mut words = [0x1234u16, 0xABCD];
    let result = bus.send_data(DataFormat::U16BE(&mut words));
    assert!(matches!(result, Err(DisplayError::DataFormatNotImplemented)));
    assert!(bus.trace.is_empty());
    assert_eq!(words, [0x1234, 0xABCD]);

    let result = bus.send_data(DataFormat::U16LE(&mut words));
    assert!(matches!(result, Err(DisplayError::DataFormatNotImplemented)));
    assert!(bus.trace.is_empty());
    assert_eq!(words, [0x1234, 0xABCD]);
}

#[test]
fn unsupported_format_is_refused_before_a_fault_can_strike() {
    for fault in [Fault::ChipSelect, Fault::DataCommand, Fault::BusWrite] {
        let mut bus = recorder(vec![FormatKind::U16LE], Some(fault));
        let result = bus.send_commands(DataFormat::U8(&[1]));
        assert!(matches!(result, Err(DisplayError::DataFormatNotImplemented)));
        assert!(bus.trace.is_empty());
    }
}

#[test]
fn a_recorder_without_formats_refuses_everything() {
    let mut bus = recorder(vec![], None);
    let words = [1u16];
    let mut big = [1u16];
    let mut little = [1u16];
    assert!(matches!(
        bus.send_data(DataFormat::U8(&[1])),
        Err(DisplayError::DataFormatNotImplemented)
    ));
    assert!(matches!(
        bus.send_data(DataFormat::U16(&words)),
        Err(DisplayError::DataFormatNotImplemented)
    ));
    assert!(matches!(
        bus.send_data(DataFormat::U16BE(&mut big)),
        Err(DisplayError::DataFormatNotImplemented)
    ));
    assert!(matches!(
        bus.send_data(DataFormat::U16LE(&mut little)),
        Err(DisplayError::DataFormatNotImplemented)
    ));
    assert!(bus.trace.is_empty());
}

#[test]
fn big_endian_words_go_out_high_byte_first() {
    let mut bus = Recorder::new();
    let mut words = [0x1234u16, 0xABCD, 0x00FF];
    assert!(bus.send_data(DataFormat::U16BE(&mut words)).is_ok());
    assert_eq!(bus.trace[2], BusEvent::Write(vec![0x12, 0x34, 0xAB, 0xCD, 0x00, 0xFF]));
}

#[test]
fn little_endian_words_go_out_low_byte_first() {
    let mut bus = Recorder::new();
    let mut words = [0x1234u16, 0xABCD, 0x00FF];
    assert!(bus.send_data(DataFormat::U16LE(&mut words)).is_ok());
    assert_eq!(bus.trace[2], BusEvent::Write(vec![0x34, 0x12, 0xCD, 0xAB, 0xFF, 0x00]));
}

#[test]
fn native_words_go_out_as_they_lie_in_memory() {
    let mut bus = Recorder::new();
    let words = [0x1234u16, 0xABCD];
    assert!(bus.send_data(DataFormat::U16(&words)).is_ok());
    let expected: Vec<u8> = if machine_is_little_endian() {
        vec![0x34, 0x12, 0xCD, 0xAB]
    } else {
        vec![0x12, 0x34, 0xAB, 0xCD]
    };
    assert_eq!(bus.trace[2], BusEvent::Write(expected));
    assert_eq!(words, [0x1234, 0xABCD]);
}

#[test]
fn buffer_holds_what_went_out_after_a_big_endian_call() {
    let mut bus = Recorder::new();
    let mut words = [0x1234u16, 0xABCD];
    assert!(bus.send_commands(DataFormat::U16BE(&mut words)).is_ok());
    assert_eq!(words.to_vec(), in_memory(&[0x12, 0x34, 0xAB, 0xCD]));
    if machine_is_little_endian() {
        assert_eq!(words, [0x3412, 0xCDAB]);
    } else {
        assert_eq!(words, [0x1234, 0xABCD]);
    }
}

#[test]
fn buffer_holds_what_went_out_after_a_little_endian_call() {
    let mut bus = Recorder::new();
    let mut words = [0x1234u16, 0xABCD];
    assert!(bus.send_commands(DataFormat::U16LE(&mut words)).is_ok());
    assert_eq!(words.to_vec(), in_memory(&[0x34, 0x12, 0xCD, 0xAB]));
    if machine_is_little_endian() {
        assert_eq!(words, [0x1234, 0xABCD]);
    } else {
        assert_eq!(words, [0x3412, 0xCDAB]);
    }
}

#[test]
fn one_of_the_two_orders_exchanges_the_bytes() {
    let mut bus = Recorder::new();
    let mut big = [0x1234u16];
    let mut little = [0x1234u16];
    assert!(bus.send_data(DataFormat::U16BE(&mut big)).is_ok());
    assert!(bus.send_data(DataFormat::U16LE(&mut little)).is_ok());
    assert_ne!(big, little);
    assert!(big == [0x3412] || little == [0x3412]);
}

#[test]
fn buffer_is_converted_once_the_call_reaches_the_write() {
    let mut bus = Recorder::new();
    bus.fault = Some(Fault::BusWrite);
    let mut words = [0x1234u16];
    assert!(matches!(
        bus.send_data(DataFormat::U16BE(&mut words)),
        Err(DisplayError::BusWriteError)
    ));
    assert_eq!(words.to_vec(), in_memory(&[0x12, 0x34]));
}

#[test]
fn buffer_is_left_alone_when_signalling_fails() {
    for fault in [Fault::ChipSelect, Fault::DataCommand] {
        let mut bus = Recorder::new();
        bus.fault = Some(fault);
        let mut big = [0x1234u16];
        let mut little = [0x1234u16];
        assert!(bus.send_data(DataFormat::U16BE(&mut big)).is_err());
        assert!(bus.send_data(DataFormat::U16LE(&mut little)).is_err());
        assert_eq!(big, [0x1234]);
        assert_eq!(little, [0x1234]);
    }
}

#[test]
fn empty_carrier_is_an_empty_write() {
    let mut bus = Recorder::new();
    let mut none: [u16; 0] = [];
    assert!(bus.send_data(DataFormat::U8(&[])).is_ok());
    assert!(bus.send_commands(DataFormat::U16BE(&mut none)).is_ok());
    assert_eq!(
        bus.trace,
        vec![
            BusEvent::Select,
            BusEvent::SetMode(Mode::Data),
            BusEvent::Write(vec![]),
            BusEvent::Release,
            BusEvent::Select,
            BusEvent::SetMode(Mode::Command),
            BusEvent::Write(vec![]),
            BusEvent::Release,
        ]
    );
}

#[test]
fn calls_add_to_the_trace_in_order() {
    let mut bus = Recorder::new();
    assert!(bus.send_commands(DataFormat::U8(&[0x2C])).is_ok());
    assert!(bus.send_data(DataFormat::U8(&[0xF8, 0x00])).is_ok());
    bus.fault = Some(Fault::DataCommand);
    assert!(bus.send_data(DataFormat::U8(&[0x07])).is_err());
    assert_eq!(
        bus.trace,
        vec![
            BusEvent::Select,
            BusEvent::SetMode(Mode::Command),
            BusEvent::Write(vec![0x2C]),
            BusEvent::Release,
            BusEvent::Select,
            BusEvent::SetMode(Mode::Data),
            BusEvent::Write(vec![0xF8, 0x00]),
            BusEvent::Release,
            BusEvent::Select,
            BusEvent::Release,
        ]
    );
}

#[test]
fn a_call_changes_neither_formats_nor_fault() {
    let mut bus = recorder(vec![FormatKind::U16BE, FormatKind::U8], Some(Fault::BusWrite));
    assert!(bus.send_data(DataFormat::U8(&[1])).is_err());
    assert_eq!(bus.formats, vec![FormatKind::U16BE, FormatKind::U8]);
    assert_eq!(bus.fault, Some(Fault::BusWrite));
}

#[test]
fn a_driver_can_fall_back_to_a_format_that_is_transmitted() {
    let mut bus = recorder(vec![FormatKind::U8], None);
    let mut words = [0x1234u16];
    let first = send(&mut bus, Mode::Data, DataFormat::U16BE(&mut words));
    assert!(matches!(first, Err(DisplayError::DataFormatNotImplemented)));
    let bytes = words[0].to_be_bytes();
    assert!(send(&mut bus, Mode::Data, DataFormat::U8(&bytes)).is_ok());
    assert_eq!(bus.trace[2], BusEvent::Write(vec![0x12, 0x34]));
}
