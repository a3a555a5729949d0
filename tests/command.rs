use ezo_common::command::{
    Baud, CalibrationClear, DeviceAddress, DeviceInformation, Export, ExportInfo, Factory, Find,
    Import, LedOff, LedOn, LedState, ProtocolLockDisable, ProtocolLockEnable, ProtocolLockState,
    Sleep, Status,
};
use ezo_common::BpsRate;

#[test]
fn build_command_baud_300() {
    let cmd = Baud(BpsRate::Bps300);
    assert_eq!(cmd.get_command_string(), "BAUD,300");
    assert_eq!(cmd.get_delay(), 0);
}

#[test]
fn parse_case_insensitive_command_baud_300() {
    let cmd = "baud,300".parse::<Baud>().unwrap();
    assert_eq!(cmd, Baud(BpsRate::Bps300));

    let cmd = "BAUD,300".parse::<Baud>().unwrap();
    assert_eq!(cmd, Baud(BpsRate::Bps300));
}

#[test]
fn build_command_baud_1200() {
    let cmd = Baud(BpsRate::Bps1200);
    assert_eq!(cmd.get_command_string(), "BAUD,1200");
    assert_eq!(cmd.get_delay(), 0);
}

#[test]
fn parse_case_insensitive_command_baud_1200() {
    let cmd = "baud,1200".parse::<Baud>().unwrap();
    assert_eq!(cmd, Baud(BpsRate::Bps1200));

    let cmd = "BAUD,1200".parse::<Baud>().unwrap();
    assert_eq!(cmd, Baud(BpsRate::Bps1200));
}

#[test]
fn build_command_baud_2400() {
    let cmd = Baud(BpsRate::Bps2400);
    assert_eq!(cmd.get_command_string(), "BAUD,2400");
    assert_eq!(cmd.get_delay(), 0);
}

#[test]
fn parse_case_insensitive_command_baud_2400() {
    let cmd = "baud,2400".parse::<Baud>().unwrap();
    assert_eq!(cmd, Baud(BpsRate::Bps2400));

    let cmd = "BAUD,2400".parse::<Baud>().unwrap();
    assert_eq!(cmd, Baud(BpsRate::Bps2400));
}

#[test]
fn build_command_baud_9600() {
    let cmd = Baud(BpsRate::Bps9600);
    assert_eq!(cmd.get_command_string(), "BAUD,9600");
    assert_eq!(cmd.get_delay(), 0);
}

#[test]
fn parse_case_insensitive_command_baud_9600() {
    let cmd = "baud,9600".parse::<Baud>().unwrap();
    assert_eq!(cmd, Baud(BpsRate::Bps9600));

    let cmd = "BAUD,9600".parse::<Baud>().unwrap();
    assert_eq!(cmd, Baud(BpsRate::Bps9600));
}

#[test]
fn build_command_baud_19200() {
    let cmd = Baud(BpsRate::Bps19200);
    assert_eq!(cmd.get_command_string(), "BAUD,19200");
    assert_eq!(cmd.get_delay(), 0);
}

#[test]
fn parse_case_insensitive_command_baud_19200() {
    let cmd = "baud,19200".parse::<Baud>().unwrap();
    assert_eq!(cmd, Baud(BpsRate::Bps19200));

    let cmd = "BAUD,19200".parse::<Baud>().unwrap();
    assert_eq!(cmd, Baud(BpsRate::Bps19200));
}

#[test]
fn build_command_baud_38400() {
    let cmd = Baud(BpsRate::Bps38400);
    assert_eq!(cmd.get_command_string(), "BAUD,38400");
    assert_eq!(cmd.get_delay(), 0);
}

#[test]
fn parse_case_insensitive_command_baud_38400() {
    let cmd = "baud,38400".parse::<Baud>().unwrap();
    assert_eq!(cmd, Baud(BpsRate::Bps38400));

    let cmd = "BAUD,38400".parse::<Baud>().unwrap();
    assert_eq!(cmd, Baud(BpsRate::Bps38400));
}

#[test]
fn build_command_baud_57600() {
    let cmd = Baud(BpsRate::Bps57600);
    assert_eq!(cmd.get_command_string(), "BAUD,57600");
    assert_eq!(cmd.get_delay(), 0);
}

#[test]
fn parse_case_insensitive_command_baud_57600() {
    let cmd = "baud,57600".parse::<Baud>().unwrap();
    assert_eq!(cmd, Baud(BpsRate::Bps57600));

    let cmd = "BAUD,57600".parse::<Baud>().unwrap();
    assert_eq!(cmd, Baud(BpsRate::Bps57600));
}

#[test]
fn build_command_baud_115200() {
    let cmd = Baud(BpsRate::Bps115200);
    assert_eq!(cmd.get_command_string(), "BAUD,115200");
    assert_eq!(cmd.get_delay(), 0);
}

#[test]
fn parse_case_insensitive_command_baud_115200() {
    let cmd = "baud,115200".parse::<Baud>().unwrap();
    assert_eq!(cmd, Baud(BpsRate::Bps115200));

    let cmd = "BAUD,115200".parse::<Baud>().unwrap();
    assert_eq!(cmd, Baud(BpsRate::Bps115200));
}

#[test]
fn build_command_calibration_clear() {
    let cmd = CalibrationClear;
    assert_eq!(cmd.get_command_string(), "CAL,CLEAR");
    assert_eq!(cmd.get_delay(), 300);
}

#[test]
fn parse_case_insensitive_command_calibration_clear() {
    let cmd = "cal,clear".parse::<CalibrationClear>().unwrap();
    assert_eq!(cmd, CalibrationClear);

    let cmd = "Cal,CLEAR".parse::<CalibrationClear>().unwrap();
    assert_eq!(cmd, CalibrationClear);
}

#[test]
fn build_command_change_device_address() {
    let cmd = DeviceAddress(88);
    assert_eq!(cmd.get_command_string(), "I2C,88");
    assert_eq!(cmd.get_delay(), 300);
}

#[test]
fn parse_case_insensitive_device_address() {
    let cmd = "i2c,1".parse::<DeviceAddress>().unwrap();
    assert_eq!(cmd, DeviceAddress(1));

    let cmd = "I2C,123".parse::<DeviceAddress>().unwrap();
    assert_eq!(cmd, DeviceAddress(123));
}

#[test]
fn parse_invalid_command_device_address_yields_err() {
    let cmd = "I2C,".parse::<DeviceAddress>();
    assert!(cmd.is_err());

    let cmd = "I2C,1a21.43".parse::<DeviceAddress>();
    assert!(cmd.is_err());
}

#[test]
fn build_command_device_information() {
    let cmd = DeviceInformation;
    assert_eq!(cmd.get_command_string(), "I");
    assert_eq!(cmd.get_delay(), 300);
}

#[test]
fn parse_case_insensitive_command_device_information() {
    let cmd = "i".parse::<DeviceInformation>().unwrap();
    assert_eq!(cmd, DeviceInformation);

    let cmd = "I".parse::<DeviceInformation>().unwrap();
    assert_eq!(cmd, DeviceInformation);
}

#[test]
fn build_command_export() {
    let cmd = Export;
    assert_eq!(cmd.get_command_string(), "EXPORT");
    assert_eq!(cmd.get_delay(), 300);
}

#[test]
fn parse_case_insensitive_command_export() {
    let cmd = "export".parse::<Export>().unwrap();
    assert_eq!(cmd, Export);

    let cmd = "EXPORT".parse::<Export>().unwrap();
    assert_eq!(cmd, Export);
}

#[test]
fn build_command_export_info() {
    let cmd = ExportInfo;
    assert_eq!(cmd.get_command_string(), "EXPORT,?");
    assert_eq!(cmd.get_delay(), 300);
}

#[test]
fn parse_case_insensitive_command_export_info() {
    let cmd = "export,?".parse::<ExportInfo>().unwrap();
    assert_eq!(cmd, ExportInfo);

    let cmd = "EXPORT,?".parse::<ExportInfo>().unwrap();
    assert_eq!(cmd, ExportInfo);
}

#[test]
fn build_command_factory() {
    let cmd = Factory;
    assert_eq!(cmd.get_command_string(), "FACTORY");
    assert_eq!(cmd.get_delay(), 0);
}

#[test]
fn parse_case_insensitive_command_factory() {
    let cmd = "factory".parse::<Factory>().unwrap();
    assert_eq!(cmd, Factory);

    let cmd = "FACTORY".parse::<Factory>().unwrap();
    assert_eq!(cmd, Factory);
}

#[test]
fn build_command_find() {
    let cmd = Find;
    assert_eq!(cmd.get_command_string(), "F");
    assert_eq!(cmd.get_delay(), 300);
}

#[test]
fn parse_case_insensitive_command_find() {
    let cmd = "f".parse::<Find>().unwrap();
    assert_eq!(cmd, Find);

    let cmd = "F".parse::<Find>().unwrap();
    assert_eq!(cmd, Find);
}

#[test]
fn build_command_import() {
    let calibration_string = "ABCDEFGHIJKLMNO".to_string();
    let cmd = Import(calibration_string);
    assert_eq!(cmd.get_command_string(), "IMPORT,ABCDEFGHIJKLMNO");
    assert_eq!(cmd.get_delay(), 300);
}

#[test]
fn parse_case_insensitive_command_import() {
    let cmd = "import,1".parse::<Import>().unwrap();
    assert_eq!(cmd, Import("1".to_string()));

    let cmd = "IMPORT,abcdef".parse::<Import>().unwrap();
    assert_eq!(cmd, Import("ABCDEF".to_string()));
}

#[test]
fn build_command_led_off() {
    let cmd = LedOff;
    assert_eq!(cmd.get_command_string(), "L,0");
    assert_eq!(cmd.get_delay(), 300);
}

#[test]
fn parse_case_insensitive_command_led_off() {
    let cmd = "l,0".parse::<LedOff>().unwrap();
    assert_eq!(cmd, LedOff);

    let cmd = "L,0".parse::<LedOff>().unwrap();
    assert_eq!(cmd, LedOff);
}

#[test]
fn build_command_led_on() {
    let cmd = LedOn;
    assert_eq!(cmd.get_command_string(), "L,1");
    assert_eq!(cmd.get_delay(), 300);
}

#[test]
fn parse_case_insensitive_command_led_on() {
    let cmd = "l,1".parse::<LedOn>().unwrap();
    assert_eq!(cmd, LedOn);

    let cmd = "L,1".parse::<LedOn>().unwrap();
    assert_eq!(cmd, LedOn);
}

#[test]
fn build_command_led_state() {
    let cmd = LedState;
    assert_eq!(cmd.get_command_string(), "L,?");
    assert_eq!(cmd.get_delay(), 300);
}

#[test]
fn parse_case_insensitive_command_led_state() {
    let cmd = "l,?".parse::<LedState>().unwrap();
    assert_eq!(cmd, LedState);

    let cmd = "L,?".parse::<LedState>().unwrap();
    assert_eq!(cmd, LedState);
}

#[test]
fn build_command_plock_disable() {
    let cmd = ProtocolLockDisable;
    assert_eq!(cmd.get_command_string(), "PLOCK,0");
    assert_eq!(cmd.get_delay(), 300);
}

#[test]
fn parse_case_insensitive_command_plock_disable() {
    let cmd = "plock,0".parse::<ProtocolLockDisable>().unwrap();
    assert_eq!(cmd, ProtocolLockDisable);

    let cmd = "PLOCK,0".parse::<ProtocolLockDisable>().unwrap();
    assert_eq!(cmd, ProtocolLockDisable);
}

#[test]
fn build_command_plock_enable() {
    let cmd = ProtocolLockEnable;
    assert_eq!(cmd.get_command_string(), "PLOCK,1");
    assert_eq!(cmd.get_delay(), 300);
}

#[test]
fn parse_case_insensitive_command_plock_enable() {
    let cmd = "plock,1".parse::<ProtocolLockEnable>().unwrap();
    assert_eq!(cmd, ProtocolLockEnable);

    let cmd = "PLOCK,1".parse::<ProtocolLockEnable>().unwrap();
    assert_eq!(cmd, ProtocolLockEnable);
}

#[test]
fn build_command_plock_status() {
    let cmd = ProtocolLockState;
    assert_eq!(cmd.get_command_string(), "PLOCK,?");
    assert_eq!(cmd.get_delay(), 300);
}

#[test]
fn parse_case_insensitive_command_plock_status() {
    let cmd = "plock,?".parse::<ProtocolLockState>().unwrap();
    assert_eq!(cmd, ProtocolLockState);

    let cmd = "PLOCK,?".parse::<ProtocolLockState>().unwrap();
    assert_eq!(cmd, ProtocolLockState);
}

#[test]
fn build_command_sleep_mode() {
    let cmd = Sleep;
    assert_eq!(cmd.get_command_string(), "SLEEP");
    assert_eq!(cmd.get_delay(), 0);
}

#[test]
fn parse_case_insensitive_command_sleep() {
    let cmd = "Sleep".parse::<Sleep>().unwrap();
    assert_eq!(cmd, Sleep);

    let cmd = "SLEEP".parse::<Sleep>().unwrap();
    assert_eq!(cmd, Sleep);
}

#[test]
fn build_command_device_status() {
    let cmd = Status;
    assert_eq!(cmd.get_command_string(), "STATUS");
    assert_eq!(cmd.get_delay(), 300);
}

#[test]
fn parse_case_insensitive_command_device_status() {
    let cmd = "status".parse::<Status>().unwrap();
    assert_eq!(cmd, Status);

    let cmd = "STATUS".parse::<Status>().unwrap();
    assert_eq!(cmd, Status);
}
