//! Parses the payloads of the replies of EZO chips into typed responses.
use vstd::prelude::*;
use vstd::string::*;

use crate::errors::{err_of, ErrorKind, EzoError, Result};
use crate::text::{
    decimal, fields, has_prefix, parse_u16, render_decimal, same_text, spec_parse_u16,
    split_fields, strip_prefix, views,
};

verus! {

/// Response for commands that may or may not expect ACK.
#[derive(Copy, Clone, Debug, PartialEq, Eq, Structural)]
pub enum ResponseStatus {
    Ack,
    NoAck,
}

impl ResponseStatus {
    /// The name of the status.
    pub fn to_string(&self) -> (r: String)
        ensures
            r@ == (match self {
                ResponseStatus::Ack => "Ack"@,
                ResponseStatus::NoAck => "NoAck"@,
            }),
    {
        match self {
            ResponseStatus::Ack => String::from_str("Ack"),
            ResponseStatus::NoAck => String::from_str("NoAck"),
        }
    }
}

/// Current firmware settings of the EZO chip.
#[derive(Clone, Debug, PartialEq, Eq)]
pub struct DeviceInfo {
    pub device: String,
    pub firmware: String,
}

/// The device and firmware that a `?I,<device>,<firmware>` payload names:
/// exactly two fields after the tag, neither of them empty.
pub open spec fn device_info_fields(s: Seq<char>) -> Option<(Seq<char>, Seq<char>)> {
    if has_prefix(s, "?I,"@) {
        let f = fields(s.subrange("?I,"@.len() as int, s.len() as int));
        if f.len() == 2 && f[0].len() > 0 && f[1].len() > 0 {
            Some((f[0], f[1]))
        } else {
            None
        }
    } else {
        None
    }
}

impl DeviceInfo {
    /// Parses the reply to the `I` command.
    pub fn parse(response: &str) -> (r: Result<DeviceInfo>)
        ensures
            r matches Ok(info) ==> device_info_fields(response@) == Some((info.device@, info.firmware@)),
            r matches Err(e) ==> device_info_fields(response@) is None && e.kind
                == ErrorKind::ResponseParse,
    {
        let rest = match strip_prefix(response, "?I,") {
            Some(rest) => rest,
            None => return Err(EzoError { kind: ErrorKind::ResponseParse }),
        };
        let f = split_fields(rest);
        assert(views(f@).len() == f@.len());
        if f.len() != 2 {
            return Err(EzoError { kind: ErrorKind::ResponseParse });
        }
        let device = f[0].clone();
        let firmware = f[1].clone();
        assert(views(f@)[0] == f@[0]@);
        assert(views(f@)[1] == f@[1]@);
        if device.as_str().unicode_len() == 0 || firmware.as_str().unicode_len() == 0 {
            return Err(EzoError { kind: ErrorKind::ResponseParse });
        }
        Ok(DeviceInfo { device, firmware })
    }

    /// The reply the chip sends for this information: `?I,<device>,<firmware>`.
    pub fn wire_string(&self) -> (r: String)
        ensures
            r@ == "?I,"@ + self.device@ + ","@ + self.firmware@,
    {
        let mut r = String::from_str("?I,");
        r.append(self.device.as_str());
        r.append(",");
        r.append(self.firmware.as_str());
        r
    }

    /// The device and firmware, separated by a comma.
    pub fn to_string(&self) -> (r: String)
        ensures
            r@ == self.device@ + ","@ + self.firmware@,
    {
        let mut r = self.device.clone();
        r.append(",");
        r.append(self.firmware.as_str());
        r
    }
}


/// Reason for which the device restarted.
#[derive(Copy, Clone, Debug, PartialEq, Eq, Structural)]
pub enum RestartReason {
    PoweredOff,
    SoftwareReset,
    BrownOut,
    Watchdog,
    Unknown,
}

impl RestartReason {
    /// The restart reason that a one-letter field of a status reply names.
    pub open spec fn of_letter(f: Seq<char>) -> Option<RestartReason> {
        if f == seq!['P'] {
            Some(RestartReason::PoweredOff)
        } else if f == seq!['S'] {
            Some(RestartReason::SoftwareReset)
        } else if f == seq!['B'] {
            Some(RestartReason::BrownOut)
        } else if f == seq!['W'] {
            Some(RestartReason::Watchdog)
        } else if f == seq!['U'] {
            Some(RestartReason::Unknown)
        } else {
            None
        }
    }

    /// The restart reason that a one-letter field `P`, `S`, `B`, `W` or `U` names.
    pub fn from_letter(f: &str) -> (r: Option<RestartReason>)
        ensures
            r == RestartReason::of_letter(f@),
    {
        if f.unicode_len() != 1 {
            return None;
        }
        let c = f.get_char(0);
        assert(f@ =~= seq![c]);
        if c == 'P' {
            Some(RestartReason::PoweredOff)
        } else if c == 'S' {
            Some(RestartReason::SoftwareReset)
        } else if c == 'B' {
            Some(RestartReason::BrownOut)
        } else if c == 'W' {
            Some(RestartReason::Watchdog)
        } else if c == 'U' {
            Some(RestartReason::Unknown)
        } else {
            None
        }
    }

    /// The one-letter code of the reason in a status reply.
    pub fn letter(&self) -> (r: String)
        ensures
            r@ == restart_letter(*self),
            RestartReason::of_letter(r@) == Some(*self),
    {
        proof {
            reveal_strlit("P");
            reveal_strlit("S");
            reveal_strlit("B");
            reveal_strlit("W");
            reveal_strlit("U");
        }
        let r = match self {
            RestartReason::PoweredOff => String::from_str("P"),
            RestartReason::SoftwareReset => String::from_str("S"),
            RestartReason::BrownOut => String::from_str("B"),
            RestartReason::Watchdog => String::from_str("W"),
            RestartReason::Unknown => String::from_str("U"),
        };
        assert(r@ =~= restart_letter(*self));
        assert(seq!['P'][0] == 'P' && seq!['S'][0] == 'S' && seq!['B'][0] == 'B');
        assert(seq!['W'][0] == 'W' && seq!['U'][0] == 'U');
        assert(r@[0] == restart_letter(*self)[0]);
        r
    }

    /// The human-readable name of the reason.
    pub fn to_string(&self) -> (r: String)
        ensures
            r@ == (match self {
                RestartReason::PoweredOff => "powered-off"@,
                RestartReason::SoftwareReset => "software-reset"@,
                RestartReason::BrownOut => "brown-out"@,
                RestartReason::Watchdog => "watchdog"@,
                RestartReason::Unknown => "unknown"@,
            }),
    {
        match self {
            RestartReason::PoweredOff => String::from_str("powered-off"),
            RestartReason::SoftwareReset => String::from_str("software-reset"),
            RestartReason::BrownOut => String::from_str("brown-out"),
            RestartReason::Watchdog => String::from_str("watchdog"),
            RestartReason::Unknown => String::from_str("unknown"),
        }
    }
}

/// The one-letter code of a restart reason.
pub open spec fn restart_letter(r: RestartReason) -> Seq<char> {
    match r {
        RestartReason::PoweredOff => seq!['P'],
        RestartReason::SoftwareReset => seq!['S'],
        RestartReason::BrownOut => seq!['B'],
        RestartReason::Watchdog => seq!['W'],
        RestartReason::Unknown => seq!['U'],
    }
}

/// The reply to the `STATUS` command, with the supply voltage still in the
/// text form the chip sent.
#[derive(Clone, Debug, PartialEq, Eq)]
pub struct RawDeviceStatus {
    pub restart_reason: RestartReason,
    pub vcc_voltage: String,
}

/// The restart reason and voltage text of a `?STATUS,<reason>,<voltage>`
/// payload: exactly two fields after the tag, the first a reason letter.
pub open spec fn device_status_fields(s: Seq<char>) -> Option<(RestartReason, Seq<char>)> {
    if has_prefix(s, "?STATUS,"@) {
        let f = fields(s.subrange("?STATUS,"@.len() as int, s.len() as int));
        if f.len() == 2 && RestartReason::of_letter(f[0]) is Some {
            Some((RestartReason::of_letter(f[0])->Some_0, f[1]))
        } else {
            None
        }
    } else {
        None
    }
}

impl RawDeviceStatus {
    /// Parses the reply to the `STATUS` command, up to the reading of the voltage.
    pub fn parse(response: &str) -> (r: Result<RawDeviceStatus>)
        ensures
            r matches Ok(st) ==> device_status_fields(response@) == Some((st.restart_reason, st.vcc_voltage@)),
            r matches Err(e) ==> device_status_fields(response@) is None && e.kind
                == ErrorKind::ResponseParse,
    {
        let rest = match strip_prefix(response, "?STATUS,") {
            Some(rest) => rest,
            None => return Err(EzoError { kind: ErrorKind::ResponseParse }),
        };
        let f = split_fields(rest);
        assert(views(f@).len() == f@.len());
        if f.len() != 2 {
            return Err(EzoError { kind: ErrorKind::ResponseParse });
        }
        assert(views(f@)[0] == f@[0]@);
        assert(views(f@)[1] == f@[1]@);
        let restart_reason = match RestartReason::from_letter(f[0].as_str()) {
            Some(reason) => reason,
            None => return Err(EzoError { kind: ErrorKind::ResponseParse }),
        };
        Ok(RawDeviceStatus { restart_reason, vcc_voltage: f[1].clone() })
    }

    /// The reply the chip sends for this status: `?STATUS,<reason>,<voltage>`.
    pub fn wire_string(&self) -> (r: String)
        ensures
            r@ == "?STATUS,"@ + restart_letter(self.restart_reason) + ","@ + self.vcc_voltage@,
    {
        let mut r = String::from_str("?STATUS,");
        let l = self.restart_reason.letter();
        r.append(l.as_str());
        r.append(",");
        r.append(self.vcc_voltage.as_str());
        r
    }
}

/// Exported calibration string of the EZO chip.
#[derive(Clone, Debug, PartialEq, Eq)]
pub enum Exported {
    ExportString(String),
    Done,
}

/// The payload is the marker that ends an export.
pub open spec fn is_done_marker(s: Seq<char>) -> bool {
    s == "*DONE"@
}

/// The payload is a line of export data: 1 to 12 characters, not starting with `*`.
pub open spec fn is_export_data(s: Seq<char>) -> bool {
    1 <= s.len() <= 12 && s[0] != '*'
}

impl Exported {
    /// Parses one reply to the `EXPORT` command.
    pub fn parse(response: &str) -> (r: Result<Exported>)
        ensures
            r is Ok <==> is_done_marker(response@) || is_export_data(response@),
            r matches Ok(Exported::Done) ==> is_done_marker(response@),
            r matches Ok(Exported::ExportString(t)) ==> is_export_data(response@) && t@
                == response@,
            r matches Err(e) ==> e.kind == ErrorKind::ResponseParse,
    {
        proof {
            reveal_strlit("*DONE");
        }
        let n = response.unicode_len();
        if n > 0 && response.get_char(0) == '*' {
            if same_text(response, "*DONE") {
                Ok(Exported::Done)
            } else {
                Err(EzoError { kind: ErrorKind::ResponseParse })
            }
        } else if 1 <= n && n <= 12 {
            Ok(Exported::ExportString(response.to_owned()))
        } else {
            Err(EzoError { kind: ErrorKind::ResponseParse })
        }
    }

    /// The reply the chip sends for this line: the data, or `*DONE`.
    pub fn wire_string(&self) -> (r: String)
        ensures
            r@ == (match self {
                Exported::ExportString(t) => t@,
                Exported::Done => "*DONE"@,
            }),
    {
        match self {
            Exported::ExportString(t) => t.clone(),
            Exported::Done => String::from_str("*DONE"),
        }
    }

    /// The export data, or `DONE` for the end marker.
    pub fn to_string(&self) -> (r: String)
        ensures
            r@ == (match self {
                Exported::ExportString(t) => t@,
                Exported::Done => "DONE"@,
            }),
    {
        match self {
            Exported::ExportString(t) => t.clone(),
            Exported::Done => String::from_str("DONE"),
        }
    }
}

/// Size of the calibration data that the `EXPORT` command will send.
#[derive(Copy, Clone, Debug, PartialEq, Eq, Structural)]
pub struct ExportedInfo {
    pub lines: u16,
    pub total_bytes: u16,
}

/// The two numbers of a `?EXPORT,<lines>,<total_bytes>` payload: exactly two
/// fields after the tag, each an unsigned 16-bit number.
pub open spec fn exported_info_fields(s: Seq<char>) -> Option<(u16, u16)> {
    if has_prefix(s, "?EXPORT,"@) {
        let f = fields(s.subrange("?EXPORT,"@.len() as int, s.len() as int));
        if f.len() == 2 && spec_parse_u16(f[0]) is Some && spec_parse_u16(f[1]) is Some {
            Some((spec_parse_u16(f[0])->Some_0, spec_parse_u16(f[1])->Some_0))
        } else {
            None
        }
    } else {
        None
    }
}

impl ExportedInfo {
    /// Parses the reply to the `EXPORT,?` command.
    pub fn parse(response: &str) -> (r: Result<ExportedInfo>)
        ensures
            r matches Ok(info) ==> exported_info_fields(response@) == Some((info.lines, info.total_bytes)),
            r matches Err(e) ==> exported_info_fields(response@) is None && e.kind
                == ErrorKind::ResponseParse,
    {
        let rest = match strip_prefix(response, "?EXPORT,") {
            Some(rest) => rest,
            None => return Err(EzoError { kind: ErrorKind::ResponseParse }),
        };
        let f = split_fields(rest);
        assert(views(f@).len() == f@.len());
        if f.len() != 2 {
            return Err(EzoError { kind: ErrorKind::ResponseParse });
        }
        assert(views(f@)[0] == f@[0]@);
        assert(views(f@)[1] == f@[1]@);
        let lines = match parse_u16(f[0].as_str()) {
            Some(v) => v,
            None => return Err(EzoError { kind: ErrorKind::ResponseParse }),
        };
        let total_bytes = match parse_u16(f[1].as_str()) {
            Some(v) => v,
            None => return Err(EzoError { kind: ErrorKind::ResponseParse }),
        };
        Ok(ExportedInfo { lines, total_bytes })
    }

    /// The reply the chip sends for this size: `?EXPORT,<lines>,<total_bytes>`.
    pub fn wire_string(&self) -> (r: String)
        ensures
            r@ == "?EXPORT,"@ + decimal(self.lines as nat) + ","@ + decimal(self.total_bytes as nat),
    {
        let mut r = String::from_str("?EXPORT,");
        let l = render_decimal(self.lines as u32);
        r.append(l.as_str());
        r.append(",");
        let t = render_decimal(self.total_bytes as u32);
        r.append(t.as_str());
        r
    }

    /// The two numbers in decimal, separated by a comma.
    pub fn to_string(&self) -> (r: String)
        ensures
            r@ == decimal(self.lines as nat) + ","@ + decimal(self.total_bytes as nat),
    {
        let mut r = render_decimal(self.lines as u32);
        r.append(",");
        let t = render_decimal(self.total_bytes as u32);
        r.append(t.as_str());
        r
    }
}

/// Status of I2C protocol lock.
#[derive(Copy, Clone, Debug, PartialEq, Eq, Structural)]
pub enum ProtocolLockStatus {
    Off,
    On,
}

impl ProtocolLockStatus {
    /// The reply the chip sends for this status: `?PLOCK,1` or `?PLOCK,0`.
    pub fn wire_string(&self) -> (r: String)
        ensures
            r@ == (match self {
                ProtocolLockStatus::On => "?PLOCK,1"@,
                ProtocolLockStatus::Off => "?PLOCK,0"@,
            }),
    {
        match self {
            ProtocolLockStatus::On => String::from_str("?PLOCK,1"),
            ProtocolLockStatus::Off => String::from_str("?PLOCK,0"),
        }
    }

    /// Parses the reply to the `PLOCK,?` command: `?PLOCK,1` or `?PLOCK,0`.
    pub fn parse(response: &str) -> (r: Result<ProtocolLockStatus>)
        ensures
            r == (if response@ == "?PLOCK,1"@ {
                Ok(ProtocolLockStatus::On)
            } else if response@ == "?PLOCK,0"@ {
                Ok(ProtocolLockStatus::Off)
            } else {
                err_of::<ProtocolLockStatus>(ErrorKind::ResponseParse)
            }),
    {
        if same_text(response, "?PLOCK,1") {
            Ok(ProtocolLockStatus::On)
        } else if same_text(response, "?PLOCK,0") {
            Ok(ProtocolLockStatus::Off)
        } else {
            Err(EzoError { kind: ErrorKind::ResponseParse })
        }
    }

    /// `on` or `off`.
    pub fn to_string(&self) -> (r: String)
        ensures
            r@ == (match self {
                ProtocolLockStatus::On => "on"@,
                ProtocolLockStatus::Off => "off"@,
            }),
    {
        match self {
            ProtocolLockStatus::On => String::from_str("on"),
            ProtocolLockStatus::Off => String::from_str("off"),
        }
    }
}

/// Status of EZO's LED.
#[derive(Copy, Clone, Debug, PartialEq, Eq, Structural)]
pub enum LedStatus {
    Off,
    On,
}

impl LedStatus {
    /// The reply the chip sends for this status: `?L,1` or `?L,0`.
    pub fn wire_string(&self) -> (r: String)
        ensures
            r@ == (match self {
                LedStatus::On => "?L,1"@,
                LedStatus::Off => "?L,0"@,
            }),
    {
        match self {
            LedStatus::On => String::from_str("?L,1"),
            LedStatus::Off => String::from_str("?L,0"),
        }
    }

    /// Parses the reply to the `L,?` command: `?L,1` or `?L,0`.
    pub fn parse(response: &str) -> (r: Result<LedStatus>)
        ensures
            r == (if response@ == "?L,1"@ {
                Ok(LedStatus::On)
            } else if response@ == "?L,0"@ {
                Ok(LedStatus::Off)
            } else {
                err_of::<LedStatus>(ErrorKind::ResponseParse)
            }),
    {
        if same_text(response, "?L,1") {
            Ok(LedStatus::On)
        } else if same_text(response, "?L,0") {
            Ok(LedStatus::Off)
        } else {
            Err(EzoError { kind: ErrorKind::ResponseParse })
        }
    }

    /// `on` or `off`.
    pub fn to_string(&self) -> (r: String)
        ensures
            r@ == (match self {
                LedStatus::On => "on"@,
                LedStatus::Off => "off"@,
            }),
    {
        match self {
            LedStatus::On => String::from_str("on"),
            LedStatus::Off => String::from_str("off"),
        }
    }
}

} // verus!
