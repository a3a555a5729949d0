use ezo_common::command::{
    Baud, CalibrationClear, DeviceAddress, Import, LedState, ProtocolLockState, ResponseShape,
    Sleep, Status, MAX_DATA,
};
use ezo_common::engine::{Action, Event, Execution, Phase, Reply, WRITE_RETRY_DELAY};
use ezo_common::errors::ErrorKind;
use ezo_common::response::{
    DeviceInfo, Exported, ExportedInfo, LedStatus, ProtocolLockStatus, RawDeviceStatus,
    ResponseStatus, RestartReason,
};
use ezo_common::text::{parse_digits_u16, parse_u16, render_decimal, split_fields};
use ezo_common::{
    command_bytes, response_code, response_payload, string_from_response_data,
    turn_off_high_bits, BpsRate, ResponseCode,
};

/// Drives one execution against a simulated bus: `writes` holds the outcome
/// of each write attempt in turn, `reply` what a read returns.
fn simulate(exec: &mut Execution, writes: &[bool], reply: Option<Vec<u8>>) -> (usize, Vec<u64>, Action) {
    let mut attempts: usize = 0;
    let mut sleeps = Vec::new();
    let mut action = exec.step(Event::Start);
    loop {
        let event = match action {
            Action::Write => {
                let ok = writes[attempts];
                attempts += 1;
                if ok {
                    Event::WriteOk
                } else {
                    Event::WriteFailed
                }
            }
            Action::Sleep(ms) => {
                sleeps.push(ms);
                Event::Slept
            }
            Action::Read(_) => match &reply {
                Some(buf) => Event::ReadOk(buf.clone()),
                None => Event::ReadFailed,
            },
            Action::Finish(_) => return (attempts, sleeps, action),
        };
        assert!(exec.accepts(&event));
        action = exec.step(event);
    }
}

#[test]
fn command_text_round_trips() {
    for rate in [
        BpsRate::Bps300,
        BpsRate::Bps1200,
        BpsRate::Bps2400,
        BpsRate::Bps9600,
        BpsRate::Bps19200,
        BpsRate::Bps38400,
        BpsRate::Bps57600,
        BpsRate::Bps115200,
    ] {
        let cmd = Baud(rate);
        assert_eq!(cmd.get_command_string().parse::<Baud>().unwrap(), cmd);
    }
    for n in [0u16, 7, 88, 1000, 65535] {
        let cmd = DeviceAddress(n);
        assert_eq!(cmd.get_command_string().parse::<DeviceAddress>().unwrap(), cmd);
    }
    let cmd = Import("AB12CD34EF56".to_string());
    assert_eq!(cmd.get_command_string().parse::<Import>().unwrap(), cmd);
    assert_eq!(CalibrationClear.get_command_string().parse::<CalibrationClear>().unwrap(), CalibrationClear);
    assert_eq!(ProtocolLockState.get_command_string().parse::<ProtocolLockState>().unwrap(), ProtocolLockState);
}

#[test]
fn command_parsing_ignores_letter_case() {
    assert_eq!("bAuD,9600".parse::<Baud>().unwrap(), Baud(BpsRate::Bps9600));
    assert_eq!("i2C,42".parse::<DeviceAddress>().unwrap(), DeviceAddress(42));
    assert_eq!("Import,aBc".parse::<Import>().unwrap(), Import("ABC".to_string()));
    assert_eq!("sLeEp".parse::<Sleep>().unwrap(), Sleep);
    assert_eq!("l,?".parse::<LedState>().unwrap(), LedState);
}

#[test]
fn command_parsing_folds_unicode_case() {
    assert_eq!("\u{131}2c,1".parse::<DeviceAddress>().unwrap(), DeviceAddress(1));
    assert_eq!("\u{131}mport,x".parse::<Import>().unwrap(), Import("X".to_string()));
    assert_eq!("\u{17f}tatus".parse::<Status>().unwrap(), Status);
    let cmd = "import,\u{e9}".parse::<Import>().unwrap();
    assert_eq!(cmd, Import("\u{c9}".to_string()));
    assert_eq!(cmd.get_command_string(), "IMPORT,\u{c9}");
    assert_eq!(Status::parse_upper("STATUS").unwrap(), Status);
    assert!(Status::parse_upper("status").is_err());
}

#[test]
fn response_wire_forms() {
    let info = DeviceInfo { device: "RTD".to_string(), firmware: "2.01".to_string() };
    assert_eq!(info.wire_string(), "?I,RTD,2.01");
    assert_eq!(RestartReason::PoweredOff.letter(), "P");
    assert_eq!(RestartReason::SoftwareReset.letter(), "S");
    assert_eq!(RestartReason::BrownOut.letter(), "B");
    assert_eq!(RestartReason::Watchdog.letter(), "W");
    assert_eq!(RestartReason::Unknown.letter(), "U");
    let st = RawDeviceStatus::parse("?STATUS,B,3.30").unwrap();
    assert_eq!(st.wire_string(), "?STATUS,B,3.30");
    assert_eq!(Exported::Done.wire_string(), "*DONE");
    assert_eq!(Exported::ExportString("ab".to_string()).wire_string(), "ab");
    assert_eq!(ExportedInfo { lines: 10, total_bytes: 120 }.wire_string(), "?EXPORT,10,120");
    assert_eq!(LedStatus::On.wire_string(), "?L,1");
    assert_eq!(ProtocolLockStatus::Off.wire_string(), "?PLOCK,0");
}

#[test]
fn command_parse_errors() {
    assert_eq!("BAUD,301".parse::<Baud>().unwrap_err().kind(), ErrorKind::BpsRateParse);
    assert_eq!("BAUD,".parse::<Baud>().unwrap_err().kind(), ErrorKind::BpsRateParse);
    assert_eq!("BAUD,300,1".parse::<Baud>().unwrap_err().kind(), ErrorKind::BaudParse);
    assert_eq!("BAUT,300".parse::<Baud>().unwrap_err().kind(), ErrorKind::BaudParse);
    assert_eq!("I2C,65536".parse::<DeviceAddress>().unwrap_err().kind(), ErrorKind::CommandParse);
    assert_eq!("I2C,1,2".parse::<DeviceAddress>().unwrap_err().kind(), ErrorKind::CommandParse);
    assert_eq!("I2C,+12".parse::<DeviceAddress>().unwrap_err().kind(), ErrorKind::CommandParse);
    assert_eq!("I2C,".parse::<DeviceAddress>().unwrap_err().kind(), ErrorKind::CommandParse);
    assert_eq!("IMPORT,".parse::<Import>().unwrap_err().kind(), ErrorKind::CommandParse);
    assert_eq!("IMPORT,ABCDEFGHIJKLM".parse::<Import>().unwrap_err().kind(), ErrorKind::CommandParse);
    assert_eq!("IMPORT,ABCDEFGHIJKL".parse::<Import>().unwrap(), Import("ABCDEFGHIJKL".to_string()));
    assert_eq!("IMPORT,A,B".parse::<Import>().unwrap_err().kind(), ErrorKind::CommandParse);
    assert_eq!("STATUS ".parse::<Status>().unwrap_err().kind(), ErrorKind::CommandParse);
    assert_eq!("CAL,CLEAR,".parse::<CalibrationClear>().unwrap_err().kind(), ErrorKind::CommandParse);
}

#[test]
fn command_shapes() {
    assert_eq!(Baud(BpsRate::Bps300).response_shape(), ResponseShape::NoAck);
    assert_eq!(CalibrationClear.response_shape(), ResponseShape::Ack);
    assert_eq!(Status.response_shape(), ResponseShape::Payload);
    assert_eq!(Sleep.get_delay(), 0);
}

#[test]
fn every_status_byte_has_one_code() {
    let mut named = 0;
    for b in 0..=255u8 {
        let code = response_code(b);
        match b {
            0x01 => assert_eq!(code, ResponseCode::Success),
            0x02 => assert_eq!(code, ResponseCode::DeviceError),
            0xFE => assert_eq!(code, ResponseCode::Pending),
            0xFF => assert_eq!(code, ResponseCode::NoDataExpected),
            _ => assert_eq!(code, ResponseCode::UnknownError),
        }
        if code != ResponseCode::UnknownError {
            named += 1;
        }
    }
    assert_eq!(named, 4);
}

#[test]
fn clearing_high_bits_is_idempotent() {
    let mut all: Vec<u8> = (0..=255u8).collect();
    turn_off_high_bits(&mut all);
    let once = all.clone();
    turn_off_high_bits(&mut all);
    assert_eq!(all, once);
    assert!(once.iter().all(|b| *b < 0x80));

    let clean = b"?I,RTD,2.01".to_vec();
    let mut copy = clean.clone();
    turn_off_high_bits(&mut copy);
    assert_eq!(copy, clean);
}

#[test]
fn high_bit_letter_decodes_to_ascii() {
    assert_eq!(string_from_response_data(&[0xC1, 0]).unwrap(), "A");
    assert_eq!(response_payload(&[1, 0xC1, 0, 0xC1, 0xFF]).unwrap(), "A");
    // 0x80 becomes a nul inside the string
    assert_eq!(string_from_response_data(&[0x41, 0x80, 0]).unwrap_err().kind(), ErrorKind::MalformedResponse);
}

#[test]
fn reply_buffer_codes() {
    assert_eq!(response_payload(&[1, b'?', b'L', b',', b'1', 0, 7, 7]).unwrap(), "?L,1");
    assert_eq!(response_payload(&[1, b'x', b'y']).unwrap_err().kind(), ErrorKind::MalformedResponse);
    assert_eq!(response_payload(&[2, 0]).unwrap_err().kind(), ErrorKind::DeviceErrorResponse);
    assert_eq!(response_payload(&[254, 0]).unwrap_err().kind(), ErrorKind::PendingResponse);
    assert_eq!(response_payload(&[255, 0]).unwrap_err().kind(), ErrorKind::NoDataExpectedResponse);
    assert_eq!(response_payload(&[0, 0]).unwrap_err().kind(), ErrorKind::MalformedResponse);
    assert_eq!(response_payload(&[]).unwrap_err().kind(), ErrorKind::MalformedResponse);
}

#[test]
fn device_info_scenarios() {
    let info = DeviceInfo::parse("?I,RTD,2.01").unwrap();
    assert_eq!(info.device, "RTD");
    assert_eq!(info.firmware, "2.01");
    assert_eq!(DeviceInfo::parse("?I,RTD,").unwrap_err().kind(), ErrorKind::ResponseParse);
}

#[test]
fn device_status_scenarios() {
    let st = RawDeviceStatus::parse("?STATUS,P,1.5").unwrap();
    assert_eq!(st.restart_reason, RestartReason::PoweredOff);
    assert_eq!(st.vcc_voltage, "1.5");
    assert_eq!(RawDeviceStatus::parse("?STATUS,W,3.3").unwrap().restart_reason, RestartReason::Watchdog);
    assert_eq!(RawDeviceStatus::parse("?STATUS,X,1.5").unwrap_err().kind(), ErrorKind::ResponseParse);
    assert_eq!(RawDeviceStatus::parse("?STATUS,P,1.5,2").unwrap_err().kind(), ErrorKind::ResponseParse);
    assert_eq!(RestartReason::Unknown.to_string(), "unknown");
}

#[test]
fn exported_scenarios() {
    assert_eq!(Exported::parse("*DONE").unwrap(), Exported::Done);
    assert!(Exported::parse("*DONEX").is_err());
    assert_eq!(Exported::parse("123456abcdef").unwrap(), Exported::ExportString("123456abcdef".to_string()));
    assert_eq!(Exported::parse("123456abcdefg").unwrap_err().kind(), ErrorKind::ResponseParse);
    assert!(Exported::parse("").is_err());
    assert_eq!(Exported::Done.to_string(), "DONE");
}

#[test]
fn exported_info_scenarios() {
    assert_eq!(ExportedInfo::parse("?EXPORT,10,120").unwrap(), ExportedInfo { lines: 10, total_bytes: 120 });
    assert_eq!(ExportedInfo::parse("?EXPORT,10,120,5").unwrap_err().kind(), ErrorKind::ResponseParse);
    assert_eq!(ExportedInfo::parse("?EXPORT,65535,0").unwrap(), ExportedInfo { lines: 65535, total_bytes: 0 });
    assert!(ExportedInfo::parse("?EXPORT,65536,0").is_err());
    assert!(ExportedInfo::parse("?EXPORT,-1,0").is_err());
}

#[test]
fn status_text() {
    assert_eq!(LedStatus::parse("?L,0").unwrap().to_string(), "off");
    assert_eq!(ResponseStatus::Ack.to_string(), "Ack");
}

#[test]
fn numbers_and_fields() {
    assert_eq!(parse_u16("+5"), Some(5));
    assert_eq!(parse_u16("007"), Some(7));
    assert_eq!(parse_u16(""), None);
    assert_eq!(parse_u16("+"), None);
    assert_eq!(parse_u16("65536"), None);
    assert_eq!(parse_u16("12a"), None);
    assert_eq!(parse_digits_u16("+5"), None);
    assert_eq!(parse_digits_u16("65535"), Some(65535));
    assert_eq!(parse_digits_u16(""), None);
    assert_eq!(render_decimal(0), "0");
    assert_eq!(render_decimal(115200), "115200");
    assert_eq!(split_fields("a,,b"), vec!["a".to_string(), String::new(), "b".to_string()]);
    assert_eq!(split_fields(""), vec![String::new()]);
}

#[test]
fn command_bytes_end_with_nul() {
    assert_eq!(command_bytes("L,1").unwrap(), vec![b'L', b',', b'1', 0]);
    assert_eq!(command_bytes("L\0,1").unwrap_err().kind(), ErrorKind::UnwritableCommand);
}

#[test]
fn second_write_succeeds_after_one_retry() {
    let cmd = LedState;
    let mut exec = Execution::new(cmd.get_delay(), cmd.response_shape(), MAX_DATA);
    let (attempts, sleeps, action) = simulate(&mut exec, &[false, true], Some(b"\x01?L,1\0".to_vec()));
    assert_eq!(attempts, 2);
    assert_eq!(sleeps, vec![WRITE_RETRY_DELAY, 300]);
    match action {
        Action::Finish(Ok(Reply::Payload(s))) => assert_eq!(LedStatus::parse(&s).unwrap(), LedStatus::On),
        _ => panic!("expected a payload"),
    }
    assert_eq!(exec.phase, Phase::Finished);
}

#[test]
fn two_failed_writes_end_the_execution() {
    let mut exec = Execution::new(300, ResponseShape::Ack, MAX_DATA);
    let (attempts, sleeps, action) = simulate(&mut exec, &[false, false, true], None);
    assert_eq!(attempts, 2);
    assert_eq!(sleeps, vec![WRITE_RETRY_DELAY]);
    match action {
        Action::Finish(Err(e)) => assert_eq!(e.kind(), ErrorKind::UnwritableCommand),
        _ => panic!("expected a write error"),
    }
    assert!(!exec.accepts(&Event::WriteOk));
}

#[test]
fn execution_outcomes() {
    let mut exec = Execution::new(0, ResponseShape::NoAck, MAX_DATA);
    let (attempts, sleeps, action) = simulate(&mut exec, &[true], None);
    assert_eq!((attempts, sleeps.len()), (1, 0));
    assert!(matches!(action, Action::Finish(Ok(Reply::Status(ResponseStatus::NoAck)))));

    let mut exec = Execution::new(300, ResponseShape::Ack, MAX_DATA);
    let (_, _, action) = simulate(&mut exec, &[true], Some(vec![1, 0]));
    assert!(matches!(action, Action::Finish(Ok(Reply::Status(ResponseStatus::Ack)))));

    let mut exec = Execution::new(300, ResponseShape::Ack, MAX_DATA);
    let (_, _, action) = simulate(&mut exec, &[true], Some(vec![254, 0]));
    match action {
        Action::Finish(Err(e)) => assert_eq!(e.kind(), ErrorKind::PendingResponse),
        _ => panic!("expected a pending reply"),
    }

    let mut exec = Execution::new(300, ResponseShape::Payload, MAX_DATA);
    let (_, _, action) = simulate(&mut exec, &[true], None);
    match action {
        Action::Finish(Err(e)) => assert_eq!(e.kind(), ErrorKind::I2CRead),
        _ => panic!("expected a read error"),
    }
}
