//! Commands common to EZO chips.
//!
//! Each command renders to the upper-case ASCII text that is written to the
//! chip, and parses back from that text in any letter case. Parsing first
//! upper-cases the text as `str::to_uppercase` does; `parse_upper` takes over
//! from there.
use vstd::prelude::*;
use vstd::string::*;

use crate::errors::{err_of, ErrorKind, EzoError, Result};
use crate::text::{
    ascii_upper, decimal, fields, has_prefix, lemma_ascii_concat, lemma_decimal,
    lemma_decimal_no_comma, lemma_fields_no_comma, lemma_parse_decimal, lemma_prefix_concat,
    lemma_upper_concat, parse_digits_u16, render_decimal, same_text, spec_parse_digits_u16,
    split_fields, strip_prefix, to_upper, upper_of, views,
};
use vstd::utf8::is_ascii_chars;
use crate::BpsRate;

verus! {

/// Size of the reply buffer read for these commands: the longest ASCII
/// response plus the status byte and the nul.
pub const MAX_DATA: usize = 401;

/// What the chip answers to a command.
#[derive(Copy, Clone, Debug, PartialEq, Eq, Structural)]
pub enum ResponseShape {
    /// Nothing is read back.
    NoAck,
    /// Only the response code is read back.
    Ack,
    /// A text payload is read back and parsed.
    Payload,
}

/// The allowable rate that a text names, in decimal with no sign or leading zero.
pub open spec fn rate_of_text(t: Seq<char>) -> Option<BpsRate> {
    if t == "300"@ {
        Some(BpsRate::Bps300)
    } else if t == "1200"@ {
        Some(BpsRate::Bps1200)
    } else if t == "2400"@ {
        Some(BpsRate::Bps2400)
    } else if t == "9600"@ {
        Some(BpsRate::Bps9600)
    } else if t == "19200"@ {
        Some(BpsRate::Bps19200)
    } else if t == "38400"@ {
        Some(BpsRate::Bps38400)
    } else if t == "57600"@ {
        Some(BpsRate::Bps57600)
    } else if t == "115200"@ {
        Some(BpsRate::Bps115200)
    } else {
        None
    }
}

/// The allowable rate that a text names.
fn bps_rate_of_text(t: &str) -> (r: Option<BpsRate>)
    ensures
        r == rate_of_text(t@),
{
    if same_text(t, "300") {
        Some(BpsRate::Bps300)
    } else if same_text(t, "1200") {
        Some(BpsRate::Bps1200)
    } else if same_text(t, "2400") {
        Some(BpsRate::Bps2400)
    } else if same_text(t, "9600") {
        Some(BpsRate::Bps9600)
    } else if same_text(t, "19200") {
        Some(BpsRate::Bps19200)
    } else if same_text(t, "38400") {
        Some(BpsRate::Bps38400)
    } else if same_text(t, "57600") {
        Some(BpsRate::Bps57600)
    } else if same_text(t, "115200") {
        Some(BpsRate::Bps115200)
    } else {
        None
    }
}

/// `BAUD,n` command, where `n` is a `BpsRate`. Switches the chip to UART mode.
#[derive(Copy, Clone, Debug, PartialEq, Eq, Structural)]
pub struct Baud(pub BpsRate);

impl Baud {
    /// The wire text of the command.
    pub open spec fn spec_command_string(self) -> Seq<char> {
        "BAUD,"@ + decimal(self.0.rate() as nat)
    }

    /// The command parsed from an upper-case text: `BAUD,` and one of the
    /// allowable rates. An unknown rate is a `BpsRateParse` error, any other
    /// fault a `BaudParse` error.
    pub open spec fn spec_parse_upper(u: Seq<char>) -> Result<Baud> {
        if has_prefix(u, "BAUD,"@) {
            let f = fields(u.subrange("BAUD,"@.len() as int, u.len() as int));
            match rate_of_text(f[0]) {
                Some(b) => if f.len() == 1 {
                    Ok(Baud(b))
                } else {
                    err_of::<Baud>(ErrorKind::BaudParse)
                },
                None => err_of::<Baud>(ErrorKind::BpsRateParse),
            }
        } else {
            err_of::<Baud>(ErrorKind::BaudParse)
        }
    }

    /// The command parsed from a text in any letter case.
    pub open spec fn spec_parse(s: Seq<char>) -> Result<Baud> {
        Baud::spec_parse_upper(upper_of(s))
    }

    /// The text sent to the chip.
    pub fn get_command_string(&self) -> (r: String)
        ensures
            r@ == self.spec_command_string(),
    {
        let mut r = String::from_str("BAUD,");
        let rate = render_decimal(self.0.parse());
        r.append(rate.as_str());
        r
    }

    /// Milliseconds to wait after writing the command.
    pub fn get_delay(&self) -> (r: u64)
        ensures
            r == 0,
    {
        0
    }

    /// What the chip answers to the command.
    pub fn response_shape(&self) -> (r: ResponseShape)
        ensures
            r == ResponseShape::NoAck,
    {
        ResponseShape::NoAck
    }

    /// Parses the command from its upper-case text.
    pub fn parse_upper(u: &str) -> (r: Result<Baud>)
        ensures
            r == Baud::spec_parse_upper(u@),
    {
        let rest = match strip_prefix(u, "BAUD,") {
            Some(rest) => rest,
            None => return Err(EzoError { kind: ErrorKind::BaudParse }),
        };
        let f = split_fields(rest);
        proof {
            crate::text::lemma_fields_nonempty(rest@);
        }
        assert(views(f@)[0] == f@[0]@);
        match bps_rate_of_text(f[0].as_str()) {
            Some(b) => if f.len() == 1 {
                Ok(Baud(b))
            } else {
                Err(EzoError { kind: ErrorKind::BaudParse })
            },
            None => Err(EzoError { kind: ErrorKind::BpsRateParse }),
        }
    }

    /// Parses the command from its text, in any letter case.
    pub fn parse_command(s: &str) -> (r: Result<Baud>)
        ensures
            r == Baud::spec_parse(s@),
            is_ascii_chars(s@) ==> r == Baud::spec_parse_upper(ascii_upper(s@)),
    {
        let u = to_upper(s);
        Baud::parse_upper(u.as_str())
    }
}

impl std::str::FromStr for Baud {
    type Err = EzoError;

    fn from_str(s: &str) -> Result<Baud> {
        Baud::parse_command(s)
    }
}

/// `I2C,n` command, where `n` is the new I2C address of the chip.
#[derive(Copy, Clone, Debug, PartialEq, Eq, Structural)]
pub struct DeviceAddress(pub u16);

impl DeviceAddress {
    /// The wire text of the command.
    pub open spec fn spec_command_string(self) -> Seq<char> {
        "I2C,"@ + decimal(self.0 as nat)
    }

    /// The command parsed from an upper-case text: `I2C,` and one unsigned
    /// 16-bit number in decimal digits alone; any fault is a `CommandParse`
    /// error.
    pub open spec fn spec_parse_upper(u: Seq<char>) -> Result<DeviceAddress> {
        if has_prefix(u, "I2C,"@) {
            let f = fields(u.subrange("I2C,"@.len() as int, u.len() as int));
            if f.len() == 1 && spec_parse_digits_u16(f[0]) is Some {
                Ok(DeviceAddress(spec_parse_digits_u16(f[0])->Some_0))
            } else {
                err_of::<DeviceAddress>(ErrorKind::CommandParse)
            }
        } else {
            err_of::<DeviceAddress>(ErrorKind::CommandParse)
        }
    }

    /// The command parsed from a text in any letter case.
    pub open spec fn spec_parse(s: Seq<char>) -> Result<DeviceAddress> {
        DeviceAddress::spec_parse_upper(upper_of(s))
    }

    /// The text sent to the chip.
    pub fn get_command_string(&self) -> (r: String)
        ensures
            r@ == self.spec_command_string(),
    {
        let mut r = String::from_str("I2C,");
        let n = render_decimal(self.0 as u32);
        r.append(n.as_str());
        r
    }

    /// Milliseconds to wait after writing the command.
    pub fn get_delay(&self) -> (r: u64)
        ensures
            r == 300,
    {
        300
    }

    /// What the chip answers to the command.
    pub fn response_shape(&self) -> (r: ResponseShape)
        ensures
            r == ResponseShape::NoAck,
    {
        ResponseShape::NoAck
    }

    /// Parses the command from its upper-case text.
    pub fn parse_upper(u: &str) -> (r: Result<DeviceAddress>)
        ensures
            r == DeviceAddress::spec_parse_upper(u@),
    {
        let rest = match strip_prefix(u, "I2C,") {
            Some(rest) => rest,
            None => return Err(EzoError { kind: ErrorKind::CommandParse }),
        };
        let f = split_fields(rest);
        proof {
            crate::text::lemma_fields_nonempty(rest@);
        }
        assert(views(f@)[0] == f@[0]@);
        if f.len() != 1 {
            return Err(EzoError { kind: ErrorKind::CommandParse });
        }
        match parse_digits_u16(f[0].as_str()) {
            Some(n) => Ok(DeviceAddress(n)),
            None => Err(EzoError { kind: ErrorKind::CommandParse }),
        }
    }

    /// Parses the command from its text, in any letter case.
    pub fn parse_command(s: &str) -> (r: Result<DeviceAddress>)
        ensures
            r == DeviceAddress::spec_parse(s@),
            is_ascii_chars(s@) ==> r == DeviceAddress::spec_parse_upper(ascii_upper(s@)),
    {
        let u = to_upper(s);
        DeviceAddress::parse_upper(u.as_str())
    }
}

impl std::str::FromStr for DeviceAddress {
    type Err = EzoError;

    fn from_str(s: &str) -> Result<DeviceAddress> {
        DeviceAddress::parse_command(s)
    }
}

/// `IMPORT,n` command, where `n` is one line of exported calibration data.
#[derive(Clone, Debug, PartialEq, Eq)]
pub struct Import(pub String);

/// The calibration data that an upper-case import command text carries:
/// `IMPORT,` and one field of 1 to 12 characters.
pub open spec fn import_data_upper(u: Seq<char>) -> Option<Seq<char>> {
    if has_prefix(u, "IMPORT,"@) {
        let f = fields(u.subrange("IMPORT,"@.len() as int, u.len() as int));
        if f.len() == 1 && 1 <= f[0].len() <= 12 {
            Some(f[0])
        } else {
            None
        }
    } else {
        None
    }
}

/// The calibration data that an import command text in any letter case
/// carries, in upper case.
pub open spec fn import_data(s: Seq<char>) -> Option<Seq<char>> {
    import_data_upper(upper_of(s))
}

impl Import {
    /// The wire text of the command.
    pub open spec fn spec_command_string(self) -> Seq<char> {
        "IMPORT,"@ + self.0@
    }

    /// The text sent to the chip.
    pub fn get_command_string(&self) -> (r: String)
        ensures
            r@ == self.spec_command_string(),
    {
        let mut r = String::from_str("IMPORT,");
        r.append(self.0.as_str());
        r
    }

    /// Milliseconds to wait after writing the command.
    pub fn get_delay(&self) -> (r: u64)
        ensures
            r == 300,
    {
        300
    }

    /// What the chip answers to the command.
    pub fn response_shape(&self) -> (r: ResponseShape)
        ensures
            r == ResponseShape::Ack,
    {
        ResponseShape::Ack
    }

    /// Parses the command from its upper-case text. Any fault is a
    /// `CommandParse` error.
    pub fn parse_upper(u: &str) -> (r: Result<Import>)
        ensures
            r matches Ok(c) ==> import_data_upper(u@) == Some(c.0@),
            r matches Err(e) ==> import_data_upper(u@) is None && e.kind == ErrorKind::CommandParse,
    {
        let rest = match strip_prefix(u, "IMPORT,") {
            Some(rest) => rest,
            None => return Err(EzoError { kind: ErrorKind::CommandParse }),
        };
        let f = split_fields(rest);
        proof {
            crate::text::lemma_fields_nonempty(rest@);
        }
        assert(views(f@)[0] == f@[0]@);
        if f.len() != 1 {
            return Err(EzoError { kind: ErrorKind::CommandParse });
        }
        let n = f[0].as_str().unicode_len();
        if n < 1 || n > 12 {
            return Err(EzoError { kind: ErrorKind::CommandParse });
        }
        Ok(Import(f[0].clone()))
    }

    /// Parses the command from its text, in any letter case; the data is kept
    /// in upper case. Any fault is a `CommandParse` error.
    pub fn parse_command(s: &str) -> (r: Result<Import>)
        ensures
            r matches Ok(c) ==> import_data(s@) == Some(c.0@),
            r matches Err(e) ==> import_data(s@) is None && e.kind == ErrorKind::CommandParse,
            is_ascii_chars(s@) ==> (r matches Ok(c) ==> import_data_upper(ascii_upper(s@)) == Some(
                c.0@,
            )),
            is_ascii_chars(s@) ==> (r is Err ==> import_data_upper(ascii_upper(s@)) is None),
    {
        let u = to_upper(s);
        Import::parse_upper(u.as_str())
    }
}

impl std::str::FromStr for Import {
    type Err = EzoError;

    fn from_str(s: &str) -> Result<Import> {
        Import::parse_command(s)
    }
}

/// `CAL,CLEAR` command. Clears current calibration.
#[derive(Copy, Clone, Debug, PartialEq, Eq, Structural)]
pub struct CalibrationClear;

impl CalibrationClear {
    /// The wire text of the command.
    pub open spec fn spec_command_string(self) -> Seq<char> {
        "CAL,CLEAR"@
    }

    /// The command parsed from an upper-case text, which must be `CAL,CLEAR`.
    pub open spec fn spec_parse_upper(u: Seq<char>) -> Result<CalibrationClear> {
        if u == "CAL,CLEAR"@ {
            Ok(CalibrationClear)
        } else {
            err_of::<CalibrationClear>(ErrorKind::CommandParse)
        }
    }

    /// The command parsed from a text in any letter case.
    pub open spec fn spec_parse(s: Seq<char>) -> Result<CalibrationClear> {
        CalibrationClear::spec_parse_upper(upper_of(s))
    }

    /// The text sent to the chip.
    pub fn get_command_string(&self) -> (r: String)
        ensures
            r@ == self.spec_command_string(),
    {
        String::from_str("CAL,CLEAR")
    }

    /// Milliseconds to wait after writing the command.
    pub fn get_delay(&self) -> (r: u64)
        ensures
            r == 300,
    {
        300
    }

    /// What the chip answers to the command.
    pub fn response_shape(&self) -> (r: ResponseShape)
        ensures
            r == ResponseShape::Ack,
    {
        ResponseShape::Ack
    }

    /// Parses the command from its upper-case text.
    pub fn parse_upper(u: &str) -> (r: Result<CalibrationClear>)
        ensures
            r == CalibrationClear::spec_parse_upper(u@),
    {
        if same_text(u, "CAL,CLEAR") {
            Ok(CalibrationClear)
        } else {
            Err(EzoError { kind: ErrorKind::CommandParse })
        }
    }

    /// Parses the command from its text, in any letter case.
    pub fn parse_command(s: &str) -> (r: Result<CalibrationClear>)
        ensures
            r == CalibrationClear::spec_parse(s@),
            is_ascii_chars(s@) ==> r == CalibrationClear::spec_parse_upper(ascii_upper(s@)),
    {
        let u = to_upper(s);
        CalibrationClear::parse_upper(u.as_str())
    }
}

impl std::str::FromStr for CalibrationClear {
    type Err = EzoError;

    fn from_str(s: &str) -> Result<CalibrationClear> {
        CalibrationClear::parse_command(s)
    }
}

/// `I` command. Returns a `DeviceInfo` response. Device information.
#[derive(Copy, Clone, Debug, PartialEq, Eq, Structural)]
pub struct DeviceInformation;

impl DeviceInformation {
    /// The wire text of the command.
    pub open spec fn spec_command_string(self) -> Seq<char> {
        "I"@
    }

    /// The command parsed from an upper-case text, which must be `I`.
    pub open spec fn spec_parse_upper(u: Seq<char>) -> Result<DeviceInformation> {
        if u == "I"@ {
            Ok(DeviceInformation)
        } else {
            err_of::<DeviceInformation>(ErrorKind::CommandParse)
        }
    }

    /// The command parsed from a text in any letter case.
    pub open spec fn spec_parse(s: Seq<char>) -> Result<DeviceInformation> {
        DeviceInformation::spec_parse_upper(upper_of(s))
    }

    /// The text sent to the chip.
    pub fn get_command_string(&self) -> (r: String)
        ensures
            r@ == self.spec_command_string(),
    {
        String::from_str("I")
    }

    /// Milliseconds to wait after writing the command.
    pub fn get_delay(&self) -> (r: u64)
        ensures
            r == 300,
    {
        300
    }

    /// What the chip answers to the command.
    pub fn response_shape(&self) -> (r: ResponseShape)
        ensures
            r == ResponseShape::Payload,
    {
        ResponseShape::Payload
    }

    /// Parses the command from its upper-case text.
    pub fn parse_upper(u: &str) -> (r: Result<DeviceInformation>)
        ensures
            r == DeviceInformation::spec_parse_upper(u@),
    {
        if same_text(u, "I") {
            Ok(DeviceInformation)
        } else {
            Err(EzoError { kind: ErrorKind::CommandParse })
        }
    }

    /// Parses the command from its text, in any letter case.
    pub fn parse_command(s: &str) -> (r: Result<DeviceInformation>)
        ensures
            r == DeviceInformation::spec_parse(s@),
            is_ascii_chars(s@) ==> r == DeviceInformation::spec_parse_upper(ascii_upper(s@)),
    {
        let u = to_upper(s);
        DeviceInformation::parse_upper(u.as_str())
    }
}

impl std::str::FromStr for DeviceInformation {
    type Err = EzoError;

    fn from_str(s: &str) -> Result<DeviceInformation> {
        DeviceInformation::parse_command(s)
    }
}

/// `EXPORT` command. Returns an `Exported` response. Exports current calibration.
#[derive(Copy, Clone, Debug, PartialEq, Eq, Structural)]
pub struct Export;

impl Export {
    /// The wire text of the command.
    pub open spec fn spec_command_string(self) -> Seq<char> {
        "EXPORT"@
    }

    /// The command parsed from an upper-case text, which must be `EXPORT`.
    pub open spec fn spec_parse_upper(u: Seq<char>) -> Result<Export> {
        if u == "EXPORT"@ {
            Ok(Export)
        } else {
            err_of::<Export>(ErrorKind::CommandParse)
        }
    }

    /// The command parsed from a text in any letter case.
    pub open spec fn spec_parse(s: Seq<char>) -> Result<Export> {
        Export::spec_parse_upper(upper_of(s))
    }

    /// The text sent to the chip.
    pub fn get_command_string(&self) -> (r: String)
        ensures
            r@ == self.spec_command_string(),
    {
        String::from_str("EXPORT")
    }

    /// Milliseconds to wait after writing the command.
    pub fn get_delay(&self) -> (r: u64)
        ensures
            r == 300,
    {
        300
    }

    /// What the chip answers to the command.
    pub fn response_shape(&self) -> (r: ResponseShape)
        ensures
            r == ResponseShape::Payload,
    {
        ResponseShape::Payload
    }

    /// Parses the command from its upper-case text.
    pub fn parse_upper(u: &str) -> (r: Result<Export>)
        ensures
            r == Export::spec_parse_upper(u@),
    {
        if same_text(u, "EXPORT") {
            Ok(Export)
        } else {
            Err(EzoError { kind: ErrorKind::CommandParse })
        }
    }

    /// Parses the command from its text, in any letter case.
    pub fn parse_command(s: &str) -> (r: Result<Export>)
        ensures
            r == Export::spec_parse(s@),
            is_ascii_chars(s@) ==> r == Export::spec_parse_upper(ascii_upper(s@)),
    {
        let u = to_upper(s);
        Export::parse_upper(u.as_str())
    }
}

impl std::str::FromStr for Export {
    type Err = EzoError;

    fn from_str(s: &str) -> Result<Export> {
        Export::parse_command(s)
    }
}

/// `EXPORT,?` command. Returns an `ExportedInfo` response. Calibration string info.
#[derive(Copy, Clone, Debug, PartialEq, Eq, Structural)]
pub struct ExportInfo;

impl ExportInfo {
    /// The wire text of the command.
    pub open spec fn spec_command_string(self) -> Seq<char> {
        "EXPORT,?"@
    }

    /// The command parsed from an upper-case text, which must be `EXPORT,?`.
    pub open spec fn spec_parse_upper(u: Seq<char>) -> Result<ExportInfo> {
        if u == "EXPORT,?"@ {
            Ok(ExportInfo)
        } else {
            err_of::<ExportInfo>(ErrorKind::CommandParse)
        }
    }

    /// The command parsed from a text in any letter case.
    pub open spec fn spec_parse(s: Seq<char>) -> Result<ExportInfo> {
        ExportInfo::spec_parse_upper(upper_of(s))
    }

    /// The text sent to the chip.
    pub fn get_command_string(&self) -> (r: String)
        ensures
            r@ == self.spec_command_string(),
    {
        String::from_str("EXPORT,?")
    }

    /// Milliseconds to wait after writing the command.
    pub fn get_delay(&self) -> (r: u64)
        ensures
            r == 300,
    {
        300
    }

    /// What the chip answers to the command.
    pub fn response_shape(&self) -> (r: ResponseShape)
        ensures
            r == ResponseShape::Payload,
    {
        ResponseShape::Payload
    }

    /// Parses the command from its upper-case text.
    pub fn parse_upper(u: &str) -> (r: Result<ExportInfo>)
        ensures
            r == ExportInfo::spec_parse_upper(u@),
    {
        if same_text(u, "EXPORT,?") {
            Ok(ExportInfo)
        } else {
            Err(EzoError { kind: ErrorKind::CommandParse })
        }
    }

    /// Parses the command from its text, in any letter case.
    pub fn parse_command(s: &str) -> (r: Result<ExportInfo>)
        ensures
            r == ExportInfo::spec_parse(s@),
            is_ascii_chars(s@) ==> r == ExportInfo::spec_parse_upper(ascii_upper(s@)),
    {
        let u = to_upper(s);
        ExportInfo::parse_upper(u.as_str())
    }
}

impl std::str::FromStr for ExportInfo {
    type Err = EzoError;

    fn from_str(s: &str) -> Result<ExportInfo> {
        ExportInfo::parse_command(s)
    }
}

/// `FACTORY` command. Enable factory reset.
#[derive(Copy, Clone, Debug, PartialEq, Eq, Structural)]
pub struct Factory;

impl Factory {
    /// The wire text of the command.
    pub open spec fn spec_command_string(self) -> Seq<char> {
        "FACTORY"@
    }

    /// The command parsed from an upper-case text, which must be `FACTORY`.
    pub open spec fn spec_parse_upper(u: Seq<char>) -> Result<Factory> {
        if u == "FACTORY"@ {
            Ok(Factory)
        } else {
            err_of::<Factory>(ErrorKind::CommandParse)
        }
    }

    /// The command parsed from a text in any letter case.
    pub open spec fn spec_parse(s: Seq<char>) -> Result<Factory> {
        Factory::spec_parse_upper(upper_of(s))
    }

    /// The text sent to the chip.
    pub fn get_command_string(&self) -> (r: String)
        ensures
            r@ == self.spec_command_string(),
    {
        String::from_str("FACTORY")
    }

    /// Milliseconds to wait after writing the command.
    pub fn get_delay(&self) -> (r: u64)
        ensures
            r == 0,
    {
        0
    }

    /// What the chip answers to the command.
    pub fn response_shape(&self) -> (r: ResponseShape)
        ensures
            r == ResponseShape::NoAck,
    {
        ResponseShape::NoAck
    }

    /// Parses the command from its upper-case text.
    pub fn parse_upper(u: &str) -> (r: Result<Factory>)
        ensures
            r == Factory::spec_parse_upper(u@),
    {
        if same_text(u, "FACTORY") {
            Ok(Factory)
        } else {
            Err(EzoError { kind: ErrorKind::CommandParse })
        }
    }

    /// Parses the command from its text, in any letter case.
    pub fn parse_command(s: &str) -> (r: Result<Factory>)
        ensures
            r == Factory::spec_parse(s@),
            is_ascii_chars(s@) ==> r == Factory::spec_parse_upper(ascii_upper(s@)),
    {
        let u = to_upper(s);
        Factory::parse_upper(u.as_str())
    }
}

impl std::str::FromStr for Factory {
    type Err = EzoError;

    fn from_str(s: &str) -> Result<Factory> {
        Factory::parse_command(s)
    }
}

/// `F` command. Find device with blinking white LED.
#[derive(Copy, Clone, Debug, PartialEq, Eq, Structural)]
pub struct Find;

impl Find {
    /// The wire text of the command.
    pub open spec fn spec_command_string(self) -> Seq<char> {
        "F"@
    }

    /// The command parsed from an upper-case text, which must be `F`.
    pub open spec fn spec_parse_upper(u: Seq<char>) -> Result<Find> {
        if u == "F"@ {
            Ok(Find)
        } else {
            err_of::<Find>(ErrorKind::CommandParse)
        }
    }

    /// The command parsed from a text in any letter case.
    pub open spec fn spec_parse(s: Seq<char>) -> Result<Find> {
        Find::spec_parse_upper(upper_of(s))
    }

    /// The text sent to the chip.
    pub fn get_command_string(&self) -> (r: String)
        ensures
            r@ == self.spec_command_string(),
    {
        String::from_str("F")
    }

    /// Milliseconds to wait after writing the command.
    pub fn get_delay(&self) -> (r: u64)
        ensures
            r == 300,
    {
        300
    }

    /// What the chip answers to the command.
    pub fn response_shape(&self) -> (r: ResponseShape)
        ensures
            r == ResponseShape::NoAck,
    {
        ResponseShape::NoAck
    }

    /// Parses the command from its upper-case text.
    pub fn parse_upper(u: &str) -> (r: Result<Find>)
        ensures
            r == Find::spec_parse_upper(u@),
    {
        if same_text(u, "F") {
            Ok(Find)
        } else {
            Err(EzoError { kind: ErrorKind::CommandParse })
        }
    }

    /// Parses the command from its text, in any letter case.
    pub fn parse_command(s: &str) -> (r: Result<Find>)
        ensures
            r == Find::spec_parse(s@),
            is_ascii_chars(s@) ==> r == Find::spec_parse_upper(ascii_upper(s@)),
    {
        let u = to_upper(s);
        Find::parse_upper(u.as_str())
    }
}

impl std::str::FromStr for Find {
    type Err = EzoError;

    fn from_str(s: &str) -> Result<Find> {
        Find::parse_command(s)
    }
}

/// `L,0` command. Disable LED.
#[derive(Copy, Clone, Debug, PartialEq, Eq, Structural)]
pub struct LedOff;

impl LedOff {
    /// The wire text of the command.
    pub open spec fn spec_command_string(self) -> Seq<char> {
        "L,0"@
    }

    /// The command parsed from an upper-case text, which must be `L,0`.
    pub open spec fn spec_parse_upper(u: Seq<char>) -> Result<LedOff> {
        if u == "L,0"@ {
            Ok(LedOff)
        } else {
            err_of::<LedOff>(ErrorKind::CommandParse)
        }
    }

    /// The command parsed from a text in any letter case.
    pub open spec fn spec_parse(s: Seq<char>) -> Result<LedOff> {
        LedOff::spec_parse_upper(upper_of(s))
    }

    /// The text sent to the chip.
    pub fn get_command_string(&self) -> (r: String)
        ensures
            r@ == self.spec_command_string(),
    {
        String::from_str("L,0")
    }

    /// Milliseconds to wait after writing the command.
    pub fn get_delay(&self) -> (r: u64)
        ensures
            r == 300,
    {
        300
    }

    /// What the chip answers to the command.
    pub fn response_shape(&self) -> (r: ResponseShape)
        ensures
            r == ResponseShape::Ack,
    {
        ResponseShape::Ack
    }

    /// Parses the command from its upper-case text.
    pub fn parse_upper(u: &str) -> (r: Result<LedOff>)
        ensures
            r == LedOff::spec_parse_upper(u@),
    {
        if same_text(u, "L,0") {
            Ok(LedOff)
        } else {
            Err(EzoError { kind: ErrorKind::CommandParse })
        }
    }

    /// Parses the command from its text, in any letter case.
    pub fn parse_command(s: &str) -> (r: Result<LedOff>)
        ensures
            r == LedOff::spec_parse(s@),
            is_ascii_chars(s@) ==> r == LedOff::spec_parse_upper(ascii_upper(s@)),
    {
        let u = to_upper(s);
        LedOff::parse_upper(u.as_str())
    }
}

impl std::str::FromStr for LedOff {
    type Err = EzoError;

    fn from_str(s: &str) -> Result<LedOff> {
        LedOff::parse_command(s)
    }
}

/// `L,1` command. Enable LED.
#[derive(Copy, Clone, Debug, PartialEq, Eq, Structural)]
pub struct LedOn;

impl LedOn {
    /// The wire text of the command.
    pub open spec fn spec_command_string(self) -> Seq<char> {
        "L,1"@
    }

    /// The command parsed from an upper-case text, which must be `L,1`.
    pub open spec fn spec_parse_upper(u: Seq<char>) -> Result<LedOn> {
        if u == "L,1"@ {
            Ok(LedOn)
        } else {
            err_of::<LedOn>(ErrorKind::CommandParse)
        }
    }

    /// The command parsed from a text in any letter case.
    pub open spec fn spec_parse(s: Seq<char>) -> Result<LedOn> {
        LedOn::spec_parse_upper(upper_of(s))
    }

    /// The text sent to the chip.
    pub fn get_command_string(&self) -> (r: String)
        ensures
            r@ == self.spec_command_string(),
    {
        String::from_str("L,1")
    }

    /// Milliseconds to wait after writing the command.
    pub fn get_delay(&self) -> (r: u64)
        ensures
            r == 300,
    {
        300
    }

    /// What the chip answers to the command.
    pub fn response_shape(&self) -> (r: ResponseShape)
        ensures
            r == ResponseShape::Ack,
    {
        ResponseShape::Ack
    }

    /// Parses the command from its upper-case text.
    pub fn parse_upper(u: &str) -> (r: Result<LedOn>)
        ensures
            r == LedOn::spec_parse_upper(u@),
    {
        if same_text(u, "L,1") {
            Ok(LedOn)
        } else {
            Err(EzoError { kind: ErrorKind::CommandParse })
        }
    }

    /// Parses the command from its text, in any letter case.
    pub fn parse_command(s: &str) -> (r: Result<LedOn>)
        ensures
            r == LedOn::spec_parse(s@),
            is_ascii_chars(s@) ==> r == LedOn::spec_parse_upper(ascii_upper(s@)),
    {
        let u = to_upper(s);
        LedOn::parse_upper(u.as_str())
    }
}

impl std::str::FromStr for LedOn {
    type Err = EzoError;

    fn from_str(s: &str) -> Result<LedOn> {
        LedOn::parse_command(s)
    }
}

/// `L,?` command. Returns a `LedStatus` response. Get current LED status.
#[derive(Copy, Clone, Debug, PartialEq, Eq, Structural)]
pub struct LedState;

impl LedState {
    /// The wire text of the command.
    pub open spec fn spec_command_string(self) -> Seq<char> {
        "L,?"@
    }

    /// The command parsed from an upper-case text, which must be `L,?`.
    pub open spec fn spec_parse_upper(u: Seq<char>) -> Result<LedState> {
        if u == "L,?"@ {
            Ok(LedState)
        } else {
            err_of::<LedState>(ErrorKind::CommandParse)
        }
    }

    /// The command parsed from a text in any letter case.
    pub open spec fn spec_parse(s: Seq<char>) -> Result<LedState> {
        LedState::spec_parse_upper(upper_of(s))
    }

    /// The text sent to the chip.
    pub fn get_command_string(&self) -> (r: String)
        ensures
            r@ == self.spec_command_string(),
    {
        String::from_str("L,?")
    }

    /// Milliseconds to wait after writing the command.
    pub fn get_delay(&self) -> (r: u64)
        ensures
            r == 300,
    {
        300
    }

    /// What the chip answers to the command.
    pub fn response_shape(&self) -> (r: ResponseShape)
        ensures
            r == ResponseShape::Payload,
    {
        ResponseShape::Payload
    }

    /// Parses the command from its upper-case text.
    pub fn parse_upper(u: &str) -> (r: Result<LedState>)
        ensures
            r == LedState::spec_parse_upper(u@),
    {
        if same_text(u, "L,?") {
            Ok(LedState)
        } else {
            Err(EzoError { kind: ErrorKind::CommandParse })
        }
    }

    /// Parses the command from its text, in any letter case.
    pub fn parse_command(s: &str) -> (r: Result<LedState>)
        ensures
            r == LedState::spec_parse(s@),
            is_ascii_chars(s@) ==> r == LedState::spec_parse_upper(ascii_upper(s@)),
    {
        let u = to_upper(s);
        LedState::parse_upper(u.as_str())
    }
}

impl std::str::FromStr for LedState {
    type Err = EzoError;

    fn from_str(s: &str) -> Result<LedState> {
        LedState::parse_command(s)
    }
}

/// `PLOCK,0` command. Disable I2C protocol lock.
#[derive(Copy, Clone, Debug, PartialEq, Eq, Structural)]
pub struct ProtocolLockDisable;

impl ProtocolLockDisable {
    /// The wire text of the command.
    pub open spec fn spec_command_string(self) -> Seq<char> {
        "PLOCK,0"@
    }

    /// The command parsed from an upper-case text, which must be `PLOCK,0`.
    pub open spec fn spec_parse_upper(u: Seq<char>) -> Result<ProtocolLockDisable> {
        if u == "PLOCK,0"@ {
            Ok(ProtocolLockDisable)
        } else {
            err_of::<ProtocolLockDisable>(ErrorKind::CommandParse)
        }
    }

    /// The command parsed from a text in any letter case.
    pub open spec fn spec_parse(s: Seq<char>) -> Result<ProtocolLockDisable> {
        ProtocolLockDisable::spec_parse_upper(upper_of(s))
    }

    /// The text sent to the chip.
    pub fn get_command_string(&self) -> (r: String)
        ensures
            r@ == self.spec_command_string(),
    {
        String::from_str("PLOCK,0")
    }

    /// Milliseconds to wait after writing the command.
    pub fn get_delay(&self) -> (r: u64)
        ensures
            r == 300,
    {
        300
    }

    /// What the chip answers to the command.
    pub fn response_shape(&self) -> (r: ResponseShape)
        ensures
            r == ResponseShape::Ack,
    {
        ResponseShape::Ack
    }

    /// Parses the command from its upper-case text.
    pub fn parse_upper(u: &str) -> (r: Result<ProtocolLockDisable>)
        ensures
            r == ProtocolLockDisable::spec_parse_upper(u@),
    {
        if same_text(u, "PLOCK,0") {
            Ok(ProtocolLockDisable)
        } else {
            Err(EzoError { kind: ErrorKind::CommandParse })
        }
    }

    /// Parses the command from its text, in any letter case.
    pub fn parse_command(s: &str) -> (r: Result<ProtocolLockDisable>)
        ensures
            r == ProtocolLockDisable::spec_parse(s@),
            is_ascii_chars(s@) ==> r == ProtocolLockDisable::spec_parse_upper(ascii_upper(s@)),
    {
        let u = to_upper(s);
        ProtocolLockDisable::parse_upper(u.as_str())
    }
}

impl std::str::FromStr for ProtocolLockDisable {
    type Err = EzoError;

    fn from_str(s: &str) -> Result<ProtocolLockDisable> {
        ProtocolLockDisable::parse_command(s)
    }
}

/// `PLOCK,1` command. Enable I2C protocol lock.
#[derive(Copy, Clone, Debug, PartialEq, Eq, Structural)]
pub struct ProtocolLockEnable;

impl ProtocolLockEnable {
    /// The wire text of the command.
    pub open spec fn spec_command_string(self) -> Seq<char> {
        "PLOCK,1"@
    }

    /// The command parsed from an upper-case text, which must be `PLOCK,1`.
    pub open spec fn spec_parse_upper(u: Seq<char>) -> Result<ProtocolLockEnable> {
        if u == "PLOCK,1"@ {
            Ok(ProtocolLockEnable)
        } else {
            err_of::<ProtocolLockEnable>(ErrorKind::CommandParse)
        }
    }

    /// The command parsed from a text in any letter case.
    pub open spec fn spec_parse(s: Seq<char>) -> Result<ProtocolLockEnable> {
        ProtocolLockEnable::spec_parse_upper(upper_of(s))
    }

    /// The text sent to the chip.
    pub fn get_command_string(&self) -> (r: String)
        ensures
            r@ == self.spec_command_string(),
    {
        String::from_str("PLOCK,1")
    }

    /// Milliseconds to wait after writing the command.
    pub fn get_delay(&self) -> (r: u64)
        ensures
            r == 300,
    {
        300
    }

    /// What the chip answers to the command.
    pub fn response_shape(&self) -> (r: ResponseShape)
        ensures
            r == ResponseShape::Ack,
    {
        ResponseShape::Ack
    }

    /// Parses the command from its upper-case text.
    pub fn parse_upper(u: &str) -> (r: Result<ProtocolLockEnable>)
        ensures
            r == ProtocolLockEnable::spec_parse_upper(u@),
    {
        if same_text(u, "PLOCK,1") {
            Ok(ProtocolLockEnable)
        } else {
            Err(EzoError { kind: ErrorKind::CommandParse })
        }
    }

    /// Parses the command from its text, in any letter case.
    pub fn parse_command(s: &str) -> (r: Result<ProtocolLockEnable>)
        ensures
            r == ProtocolLockEnable::spec_parse(s@),
            is_ascii_chars(s@) ==> r == ProtocolLockEnable::spec_parse_upper(ascii_upper(s@)),
    {
        let u = to_upper(s);
        ProtocolLockEnable::parse_upper(u.as_str())
    }
}

impl std::str::FromStr for ProtocolLockEnable {
    type Err = EzoError;

    fn from_str(s: &str) -> Result<ProtocolLockEnable> {
        ProtocolLockEnable::parse_command(s)
    }
}

/// `PLOCK,?` command. Returns a `ProtocolLockStatus` response. Get the Protocol Lock status.
#[derive(Copy, Clone, Debug, PartialEq, Eq, Structural)]
pub struct ProtocolLockState;

impl ProtocolLockState {
    /// The wire text of the command.
    pub open spec fn spec_command_string(self) -> Seq<char> {
        "PLOCK,?"@
    }

    /// The command parsed from an upper-case text, which must be `PLOCK,?`.
    pub open spec fn spec_parse_upper(u: Seq<char>) -> Result<ProtocolLockState> {
        if u == "PLOCK,?"@ {
            Ok(ProtocolLockState)
        } else {
            err_of::<ProtocolLockState>(ErrorKind::CommandParse)
        }
    }

    /// The command parsed from a text in any letter case.
    pub open spec fn spec_parse(s: Seq<char>) -> Result<ProtocolLockState> {
        ProtocolLockState::spec_parse_upper(upper_of(s))
    }

    /// The text sent to the chip.
    pub fn get_command_string(&self) -> (r: String)
        ensures
            r@ == self.spec_command_string(),
    {
        String::from_str("PLOCK,?")
    }

    /// Milliseconds to wait after writing the command.
    pub fn get_delay(&self) -> (r: u64)
        ensures
            r == 300,
    {
        300
    }

    /// What the chip answers to the command.
    pub fn response_shape(&self) -> (r: ResponseShape)
        ensures
            r == ResponseShape::Payload,
    {
        ResponseShape::Payload
    }

    /// Parses the command from its upper-case text.
    pub fn parse_upper(u: &str) -> (r: Result<ProtocolLockState>)
        ensures
            r == ProtocolLockState::spec_parse_upper(u@),
    {
        if same_text(u, "PLOCK,?") {
            Ok(ProtocolLockState)
        } else {
            Err(EzoError { kind: ErrorKind::CommandParse })
        }
    }

    /// Parses the command from its text, in any letter case.
    pub fn parse_command(s: &str) -> (r: Result<ProtocolLockState>)
        ensures
            r == ProtocolLockState::spec_parse(s@),
            is_ascii_chars(s@) ==> r == ProtocolLockState::spec_parse_upper(ascii_upper(s@)),
    {
        let u = to_upper(s);
        ProtocolLockState::parse_upper(u.as_str())
    }
}

impl std::str::FromStr for ProtocolLockState {
    type Err = EzoError;

    fn from_str(s: &str) -> Result<ProtocolLockState> {
        ProtocolLockState::parse_command(s)
    }
}

/// `SLEEP` command. Enter sleep mode/low power.
#[derive(Copy, Clone, Debug, PartialEq, Eq, Structural)]
pub struct Sleep;

impl Sleep {
    /// The wire text of the command.
    pub open spec fn spec_command_string(self) -> Seq<char> {
        "SLEEP"@
    }

    /// The command parsed from an upper-case text, which must be `SLEEP`.
    pub open spec fn spec_parse_upper(u: Seq<char>) -> Result<Sleep> {
        if u == "SLEEP"@ {
            Ok(Sleep)
        } else {
            err_of::<Sleep>(ErrorKind::CommandParse)
        }
    }

    /// The command parsed from a text in any letter case.
    pub open spec fn spec_parse(s: Seq<char>) -> Result<Sleep> {
        Sleep::spec_parse_upper(upper_of(s))
    }

    /// The text sent to the chip.
    pub fn get_command_string(&self) -> (r: String)
        ensures
            r@ == self.spec_command_string(),
    {
        String::from_str("SLEEP")
    }

    /// Milliseconds to wait after writing the command.
    pub fn get_delay(&self) -> (r: u64)
        ensures
            r == 0,
    {
        0
    }

    /// What the chip answers to the command.
    pub fn response_shape(&self) -> (r: ResponseShape)
        ensures
            r == ResponseShape::NoAck,
    {
        ResponseShape::NoAck
    }

    /// Parses the command from its upper-case text.
    pub fn parse_upper(u: &str) -> (r: Result<Sleep>)
        ensures
            r == Sleep::spec_parse_upper(u@),
    {
        if same_text(u, "SLEEP") {
            Ok(Sleep)
        } else {
            Err(EzoError { kind: ErrorKind::CommandParse })
        }
    }

    /// Parses the command from its text, in any letter case.
    pub fn parse_command(s: &str) -> (r: Result<Sleep>)
        ensures
            r == Sleep::spec_parse(s@),
            is_ascii_chars(s@) ==> r == Sleep::spec_parse_upper(ascii_upper(s@)),
    {
        let u = to_upper(s);
        Sleep::parse_upper(u.as_str())
    }
}

impl std::str::FromStr for Sleep {
    type Err = EzoError;

    fn from_str(s: &str) -> Result<Sleep> {
        Sleep::parse_command(s)
    }
}

/// `STATUS` command. Returns a `RawDeviceStatus` response. Retrieve status information.
#[derive(Copy, Clone, Debug, PartialEq, Eq, Structural)]
pub struct Status;

impl Status {
    /// The wire text of the command.
    pub open spec fn spec_command_string(self) -> Seq<char> {
        "STATUS"@
    }

    /// The command parsed from an upper-case text, which must be `STATUS`.
    pub open spec fn spec_parse_upper(u: Seq<char>) -> Result<Status> {
        if u == "STATUS"@ {
            Ok(Status)
        } else {
            err_of::<Status>(ErrorKind::CommandParse)
        }
    }

    /// The command parsed from a text in any letter case.
    pub open spec fn spec_parse(s: Seq<char>) -> Result<Status> {
        Status::spec_parse_upper(upper_of(s))
    }

    /// The text sent to the chip.
    pub fn get_command_string(&self) -> (r: String)
        ensures
            r@ == self.spec_command_string(),
    {
        String::from_str("STATUS")
    }

    /// Milliseconds to wait after writing the command.
    pub fn get_delay(&self) -> (r: u64)
        ensures
            r == 300,
    {
        300
    }

    /// What the chip answers to the command.
    pub fn response_shape(&self) -> (r: ResponseShape)
        ensures
            r == ResponseShape::Payload,
    {
        ResponseShape::Payload
    }

    /// Parses the command from its upper-case text.
    pub fn parse_upper(u: &str) -> (r: Result<Status>)
        ensures
            r == Status::spec_parse_upper(u@),
    {
        if same_text(u, "STATUS") {
            Ok(Status)
        } else {
            Err(EzoError { kind: ErrorKind::CommandParse })
        }
    }

    /// Parses the command from its text, in any letter case.
    pub fn parse_command(s: &str) -> (r: Result<Status>)
        ensures
            r == Status::spec_parse(s@),
            is_ascii_chars(s@) ==> r == Status::spec_parse_upper(ascii_upper(s@)),
    {
        let u = to_upper(s);
        Status::parse_upper(u.as_str())
    }
}

impl std::str::FromStr for Status {
    type Err = EzoError;

    fn from_str(s: &str) -> Result<Status> {
        Status::parse_command(s)
    }
}

/// The decimal form of an allowable rate names that rate.
proof fn lemma_rate_text(rate: BpsRate)
    ensures
        rate_of_text(decimal(rate.rate() as nat)) == Some(rate),
{
    reveal_with_fuel(decimal, 7);
    reveal_strlit("300");
    reveal_strlit("1200");
    reveal_strlit("2400");
    reveal_strlit("9600");
    reveal_strlit("19200");
    reveal_strlit("38400");
    reveal_strlit("57600");
    reveal_strlit("115200");
    let d = decimal(rate.rate() as nat);
    assert("300"@[0] == '3' && "1200"@[0] == '1' && "2400"@[0] == '2' && "9600"@[0] == '9');
    assert("19200"@[0] == '1' && "38400"@[0] == '3' && "57600"@[0] == '5');
    assert("115200"@[0] == '1');
    match rate {
        BpsRate::Bps300 => assert(d =~= "300"@),
        BpsRate::Bps1200 => assert(d =~= "1200"@),
        BpsRate::Bps2400 => assert(d =~= "2400"@),
        BpsRate::Bps9600 => assert(d =~= "9600"@),
        BpsRate::Bps19200 => assert(d =~= "19200"@),
        BpsRate::Bps38400 => assert(d =~= "38400"@),
        BpsRate::Bps57600 => assert(d =~= "57600"@),
        BpsRate::Bps115200 => assert(d =~= "115200"@),
    }
}

/// Every command's text is upper-case ASCII, and parsing it gives the command
/// back, in any letter case: a text `s` whose `str::to_uppercase` form is the
/// command's text parses to that command, and so does an ASCII text that
/// reads as the command's text once its letters are upper-cased.
pub proof fn lemma_commands_round_trip(rate: BpsRate, address: u16, s: Seq<char>)
    ensures
        is_ascii_chars(Baud(rate).spec_command_string()) && ascii_upper(Baud(rate).spec_command_string()) == Baud(rate).spec_command_string(),
        Baud::spec_parse_upper(Baud(rate).spec_command_string()) == Ok::<Baud, EzoError>(Baud(rate)),
        upper_of(s) == Baud(rate).spec_command_string() ==> Baud::spec_parse(s) == Ok::<Baud, EzoError>(Baud(rate)),
        ascii_upper(s) == Baud(rate).spec_command_string() ==> Baud::spec_parse_upper(ascii_upper(s)) == Ok::<Baud, EzoError>(Baud(rate)),
        is_ascii_chars(DeviceAddress(address).spec_command_string()) && ascii_upper(DeviceAddress(address).spec_command_string()) == DeviceAddress(address).spec_command_string(),
        DeviceAddress::spec_parse_upper(DeviceAddress(address).spec_command_string()) == Ok::<DeviceAddress, EzoError>(DeviceAddress(address)),
        upper_of(s) == DeviceAddress(address).spec_command_string() ==> DeviceAddress::spec_parse(s) == Ok::<DeviceAddress, EzoError>(DeviceAddress(address)),
        ascii_upper(s) == DeviceAddress(address).spec_command_string() ==> DeviceAddress::spec_parse_upper(ascii_upper(s)) == Ok::<DeviceAddress, EzoError>(DeviceAddress(address)),
        is_ascii_chars(CalibrationClear.spec_command_string()) && ascii_upper(CalibrationClear.spec_command_string()) == CalibrationClear.spec_command_string(),
        CalibrationClear::spec_parse_upper(CalibrationClear.spec_command_string()) == Ok::<CalibrationClear, EzoError>(CalibrationClear),
        upper_of(s) == CalibrationClear.spec_command_string() ==> CalibrationClear::spec_parse(s) == Ok::<CalibrationClear, EzoError>(CalibrationClear),
        ascii_upper(s) == CalibrationClear.spec_command_string() ==> CalibrationClear::spec_parse_upper(ascii_upper(s)) == Ok::<CalibrationClear, EzoError>(CalibrationClear),
        is_ascii_chars(DeviceInformation.spec_command_string()) && ascii_upper(DeviceInformation.spec_command_string()) == DeviceInformation.spec_command_string(),
        DeviceInformation::spec_parse_upper(DeviceInformation.spec_command_string()) == Ok::<DeviceInformation, EzoError>(DeviceInformation),
        upper_of(s) == DeviceInformation.spec_command_string() ==> DeviceInformation::spec_parse(s) == Ok::<DeviceInformation, EzoError>(DeviceInformation),
        ascii_upper(s) == DeviceInformation.spec_command_string() ==> DeviceInformation::spec_parse_upper(ascii_upper(s)) == Ok::<DeviceInformation, EzoError>(DeviceInformation),
        is_ascii_chars(Export.spec_command_string()) && ascii_upper(Export.spec_command_string()) == Export.spec_command_string(),
        Export::spec_parse_upper(Export.spec_command_string()) == Ok::<Export, EzoError>(Export),
        upper_of(s) == Export.spec_command_string() ==> Export::spec_parse(s) == Ok::<Export, EzoError>(Export),
        ascii_upper(s) == Export.spec_command_string() ==> Export::spec_parse_upper(ascii_upper(s)) == Ok::<Export, EzoError>(Export),
        is_ascii_chars(ExportInfo.spec_command_string()) && ascii_upper(ExportInfo.spec_command_string()) == ExportInfo.spec_command_string(),
        ExportInfo::spec_parse_upper(ExportInfo.spec_command_string()) == Ok::<ExportInfo, EzoError>(ExportInfo),
        upper_of(s) == ExportInfo.spec_command_string() ==> ExportInfo::spec_parse(s) == Ok::<ExportInfo, EzoError>(ExportInfo),
        ascii_upper(s) == ExportInfo.spec_command_string() ==> ExportInfo::spec_parse_upper(ascii_upper(s)) == Ok::<ExportInfo, EzoError>(ExportInfo),
        is_ascii_chars(Factory.spec_command_string()) && ascii_upper(Factory.spec_command_string()) == Factory.spec_command_string(),
        Factory::spec_parse_upper(Factory.spec_command_string()) == Ok::<Factory, EzoError>(Factory),
        upper_of(s) == Factory.spec_command_string() ==> Factory::spec_parse(s) == Ok::<Factory, EzoError>(Factory),
        ascii_upper(s) == Factory.spec_command_string() ==> Factory::spec_parse_upper(ascii_upper(s)) == Ok::<Factory, EzoError>(Factory),
        is_ascii_chars(Find.spec_command_string()) && ascii_upper(Find.spec_command_string()) == Find.spec_command_string(),
        Find::spec_parse_upper(Find.spec_command_string()) == Ok::<Find, EzoError>(Find),
        upper_of(s) == Find.spec_command_string() ==> Find::spec_parse(s) == Ok::<Find, EzoError>(Find),
        ascii_upper(s) == Find.spec_command_string() ==> Find::spec_parse_upper(ascii_upper(s)) == Ok::<Find, EzoError>(Find),
        is_ascii_chars(LedOff.spec_command_string()) && ascii_upper(LedOff.spec_command_string()) == LedOff.spec_command_string(),
        LedOff::spec_parse_upper(LedOff.spec_command_string()) == Ok::<LedOff, EzoError>(LedOff),
        upper_of(s) == LedOff.spec_command_string() ==> LedOff::spec_parse(s) == Ok::<LedOff, EzoError>(LedOff),
        ascii_upper(s) == LedOff.spec_command_string() ==> LedOff::spec_parse_upper(ascii_upper(s)) == Ok::<LedOff, EzoError>(LedOff),
        is_ascii_chars(LedOn.spec_command_string()) && ascii_upper(LedOn.spec_command_string()) == LedOn.spec_command_string(),
        LedOn::spec_parse_upper(LedOn.spec_command_string()) == Ok::<LedOn, EzoError>(LedOn),
        upper_of(s) == LedOn.spec_command_string() ==> LedOn::spec_parse(s) == Ok::<LedOn, EzoError>(LedOn),
        ascii_upper(s) == LedOn.spec_command_string() ==> LedOn::spec_parse_upper(ascii_upper(s)) == Ok::<LedOn, EzoError>(LedOn),
        is_ascii_chars(LedState.spec_command_string()) && ascii_upper(LedState.spec_command_string()) == LedState.spec_command_string(),
        LedState::spec_parse_upper(LedState.spec_command_string()) == Ok::<LedState, EzoError>(LedState),
        upper_of(s) == LedState.spec_command_string() ==> LedState::spec_parse(s) == Ok::<LedState, EzoError>(LedState),
        ascii_upper(s) == LedState.spec_command_string() ==> LedState::spec_parse_upper(ascii_upper(s)) == Ok::<LedState, EzoError>(LedState),
        is_ascii_chars(ProtocolLockDisable.spec_command_string()) && ascii_upper(ProtocolLockDisable.spec_command_string()) == ProtocolLockDisable.spec_command_string(),
        ProtocolLockDisable::spec_parse_upper(ProtocolLockDisable.spec_command_string()) == Ok::<ProtocolLockDisable, EzoError>(ProtocolLockDisable),
        upper_of(s) == ProtocolLockDisable.spec_command_string() ==> ProtocolLockDisable::spec_parse(s) == Ok::<ProtocolLockDisable, EzoError>(ProtocolLockDisable),
        ascii_upper(s) == ProtocolLockDisable.spec_command_string() ==> ProtocolLockDisable::spec_parse_upper(ascii_upper(s)) == Ok::<ProtocolLockDisable, EzoError>(ProtocolLockDisable),
        is_ascii_chars(ProtocolLockEnable.spec_command_string()) && ascii_upper(ProtocolLockEnable.spec_command_string()) == ProtocolLockEnable.spec_command_string(),
        ProtocolLockEnable::spec_parse_upper(ProtocolLockEnable.spec_command_string()) == Ok::<ProtocolLockEnable, EzoError>(ProtocolLockEnable),
        upper_of(s) == ProtocolLockEnable.spec_command_string() ==> ProtocolLockEnable::spec_parse(s) == Ok::<ProtocolLockEnable, EzoError>(ProtocolLockEnable),
        ascii_upper(s) == ProtocolLockEnable.spec_command_string() ==> ProtocolLockEnable::spec_parse_upper(ascii_upper(s)) == Ok::<ProtocolLockEnable, EzoError>(ProtocolLockEnable),
        is_ascii_chars(ProtocolLockState.spec_command_string()) && ascii_upper(ProtocolLockState.spec_command_string()) == ProtocolLockState.spec_command_string(),
        ProtocolLockState::spec_parse_upper(ProtocolLockState.spec_command_string()) == Ok::<ProtocolLockState, EzoError>(ProtocolLockState),
        upper_of(s) == ProtocolLockState.spec_command_string() ==> ProtocolLockState::spec_parse(s) == Ok::<ProtocolLockState, EzoError>(ProtocolLockState),
        ascii_upper(s) == ProtocolLockState.spec_command_string() ==> ProtocolLockState::spec_parse_upper(ascii_upper(s)) == Ok::<ProtocolLockState, EzoError>(ProtocolLockState),
        is_ascii_chars(Sleep.spec_command_string()) && ascii_upper(Sleep.spec_command_string()) == Sleep.spec_command_string(),
        Sleep::spec_parse_upper(Sleep.spec_command_string()) == Ok::<Sleep, EzoError>(Sleep),
        upper_of(s) == Sleep.spec_command_string() ==> Sleep::spec_parse(s) == Ok::<Sleep, EzoError>(Sleep),
        ascii_upper(s) == Sleep.spec_command_string() ==> Sleep::spec_parse_upper(ascii_upper(s)) == Ok::<Sleep, EzoError>(Sleep),
        is_ascii_chars(Status.spec_command_string()) && ascii_upper(Status.spec_command_string()) == Status.spec_command_string(),
        Status::spec_parse_upper(Status.spec_command_string()) == Ok::<Status, EzoError>(Status),
        upper_of(s) == Status.spec_command_string() ==> Status::spec_parse(s) == Ok::<Status, EzoError>(Status),
        ascii_upper(s) == Status.spec_command_string() ==> Status::spec_parse_upper(ascii_upper(s)) == Ok::<Status, EzoError>(Status),
{
    reveal_strlit("BAUD,");
    reveal_strlit("I2C,");
    let bd = decimal(rate.rate() as nat);
    lemma_decimal_no_comma(rate.rate() as nat);
    assert(ascii_upper("BAUD,"@) =~= "BAUD,"@);
    assert(is_ascii_chars("BAUD,"@));
    lemma_ascii_concat("BAUD,"@, bd);
    lemma_upper_concat("BAUD,"@, bd);
    lemma_prefix_concat("BAUD,"@, bd);
    lemma_fields_no_comma(bd);
    lemma_rate_text(rate);

    let ad = decimal(address as nat);
    lemma_decimal_no_comma(address as nat);
    lemma_decimal(address as nat);
    assert(ascii_upper("I2C,"@) =~= "I2C,"@);
    assert(is_ascii_chars("I2C,"@));
    lemma_ascii_concat("I2C,"@, ad);
    lemma_upper_concat("I2C,"@, ad);
    lemma_prefix_concat("I2C,"@, ad);
    lemma_fields_no_comma(ad);
    lemma_parse_decimal(address);

    reveal_strlit("CAL,CLEAR");
    assert(ascii_upper("CAL,CLEAR"@) =~= "CAL,CLEAR"@);
    assert(is_ascii_chars("CAL,CLEAR"@));
    reveal_strlit("I");
    assert(ascii_upper("I"@) =~= "I"@);
    assert(is_ascii_chars("I"@));
    reveal_strlit("EXPORT");
    assert(ascii_upper("EXPORT"@) =~= "EXPORT"@);
    assert(is_ascii_chars("EXPORT"@));
    reveal_strlit("EXPORT,?");
    assert(ascii_upper("EXPORT,?"@) =~= "EXPORT,?"@);
    assert(is_ascii_chars("EXPORT,?"@));
    reveal_strlit("FACTORY");
    assert(ascii_upper("FACTORY"@) =~= "FACTORY"@);
    assert(is_ascii_chars("FACTORY"@));
    reveal_strlit("F");
    assert(ascii_upper("F"@) =~= "F"@);
    assert(is_ascii_chars("F"@));
    reveal_strlit("L,0");
    assert(ascii_upper("L,0"@) =~= "L,0"@);
    assert(is_ascii_chars("L,0"@));
    reveal_strlit("L,1");
    assert(ascii_upper("L,1"@) =~= "L,1"@);
    assert(is_ascii_chars("L,1"@));
    reveal_strlit("L,?");
    assert(ascii_upper("L,?"@) =~= "L,?"@);
    assert(is_ascii_chars("L,?"@));
    reveal_strlit("PLOCK,0");
    assert(ascii_upper("PLOCK,0"@) =~= "PLOCK,0"@);
    assert(is_ascii_chars("PLOCK,0"@));
    reveal_strlit("PLOCK,1");
    assert(ascii_upper("PLOCK,1"@) =~= "PLOCK,1"@);
    assert(is_ascii_chars("PLOCK,1"@));
    reveal_strlit("PLOCK,?");
    assert(ascii_upper("PLOCK,?"@) =~= "PLOCK,?"@);
    assert(is_ascii_chars("PLOCK,?"@));
    reveal_strlit("SLEEP");
    assert(ascii_upper("SLEEP"@) =~= "SLEEP"@);
    assert(is_ascii_chars("SLEEP"@));
    reveal_strlit("STATUS");
    assert(ascii_upper("STATUS"@) =~= "STATUS"@);
    assert(is_ascii_chars("STATUS"@));
}

/// The text of an import command whose data is 1 to 12 upper-case ASCII
/// characters without a comma is upper-case ASCII and parses back to that
/// data, in any letter case.
pub proof fn lemma_import_round_trip(cmd: Import, s: Seq<char>)
    requires
        1 <= cmd.0@.len() <= 12,
        !cmd.0@.contains(','),
        is_ascii_chars(cmd.0@),
        ascii_upper(cmd.0@) == cmd.0@,
    ensures
        is_ascii_chars(cmd.spec_command_string()),
        ascii_upper(cmd.spec_command_string()) == cmd.spec_command_string(),
        import_data_upper(cmd.spec_command_string()) == Some(cmd.0@),
        upper_of(s) == cmd.spec_command_string() ==> import_data(s) == Some(cmd.0@),
        ascii_upper(s) == cmd.spec_command_string() ==> import_data_upper(ascii_upper(s)) == Some(
            cmd.0@,
        ),
{
    reveal_strlit("IMPORT,");
    let d = cmd.0@;
    assert(ascii_upper("IMPORT,"@) =~= "IMPORT,"@);
    assert(is_ascii_chars("IMPORT,"@));
    lemma_ascii_concat("IMPORT,"@, d);
    lemma_upper_concat("IMPORT,"@, d);
    lemma_prefix_concat("IMPORT,"@, d);
    lemma_fields_no_comma(d);
}

} // verus!
