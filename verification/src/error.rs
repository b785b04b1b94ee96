//! The error taxonomy: raw signed engine statuses and the named conditions
//! they classify to.
//!
//! A non-negative raw status always means success.  A negative status is
//! looked up by its magnitude against a fixed table; a magnitude outside the
//! table degrades to an unknown condition that keeps the original raw value
//! for diagnostics.

use vstd::prelude::*;

verus! {

/// A named condition of the engine's status taxonomy, identified by the
/// magnitude of the raw status it classifies from.
#[derive(Clone, Copy, Debug, PartialEq, Eq, Structural)]
#[non_exhaustive]
pub enum ErrorCode {
    /// 001: Unable to set CDROM to read audio mode
    NoReadMode,
    /// 002: Unable to read table of contents lead-out
    NoTocLeadout,
    /// 003: CDROM reporting illegal number of tracks
    IllegalTrackCount,
    /// 004: Unable to read table of contents header
    NoTocHeader,
    /// 005: Unable to read table of contents entry
    NoTocEntry,
    /// 006: Could not read any data from drive
    CannotReadAnyData,
    /// 007: Unknown, unrecoverable error reading data
    UnknownReadError,
    /// 008: Unable to identify CDROM model
    NoCdromModel,
    /// 009: CDROM reporting illegal table of contents
    IllegalToc,
    /// 100: Interface not supported
    InterfaceNotSupported,
    /// 102: Permission denied on cdrom (ioctl) device
    PermissionDenied,
    /// 300: Kernel memory error
    KernelMemoryError,
    /// 400: Device not open
    DeviceNotOpen,
    /// 401: Invalid track number
    InvalidTrackNumber,
    /// 403: No audio tracks on disc
    NoAudioTracks,
    /// 404: No medium present
    NoMediumPresent,
    /// 405: Option not supported by drive
    OptionNotSupported,
}

/// The fixed lookup table of the taxonomy: which named condition a status
/// magnitude denotes, if any.
pub open spec fn code_of_magnitude(mag: int) -> Option<ErrorCode> {
    if mag == 1 {
        Some(ErrorCode::NoReadMode)
    } else if mag == 2 {
        Some(ErrorCode::NoTocLeadout)
    } else if mag == 3 {
        Some(ErrorCode::IllegalTrackCount)
    } else if mag == 4 {
        Some(ErrorCode::NoTocHeader)
    } else if mag == 5 {
        Some(ErrorCode::NoTocEntry)
    } else if mag == 6 {
        Some(ErrorCode::CannotReadAnyData)
    } else if mag == 7 {
        Some(ErrorCode::UnknownReadError)
    } else if mag == 8 {
        Some(ErrorCode::NoCdromModel)
    } else if mag == 9 {
        Some(ErrorCode::IllegalToc)
    } else if mag == 100 {
        Some(ErrorCode::InterfaceNotSupported)
    } else if mag == 102 {
        Some(ErrorCode::PermissionDenied)
    } else if mag == 300 {
        Some(ErrorCode::KernelMemoryError)
    } else if mag == 400 {
        Some(ErrorCode::DeviceNotOpen)
    } else if mag == 401 {
        Some(ErrorCode::InvalidTrackNumber)
    } else if mag == 403 {
        Some(ErrorCode::NoAudioTracks)
    } else if mag == 404 {
        Some(ErrorCode::NoMediumPresent)
    } else if mag == 405 {
        Some(ErrorCode::OptionNotSupported)
    } else {
        None
    }
}

/// The magnitude that stands for a named condition in the lookup table.
pub open spec fn code_magnitude(code: ErrorCode) -> int {
    match code {
        ErrorCode::NoReadMode => 1,
        ErrorCode::NoTocLeadout => 2,
        ErrorCode::IllegalTrackCount => 3,
        ErrorCode::NoTocHeader => 4,
        ErrorCode::NoTocEntry => 5,
        ErrorCode::CannotReadAnyData => 6,
        ErrorCode::UnknownReadError => 7,
        ErrorCode::NoCdromModel => 8,
        ErrorCode::IllegalToc => 9,
        ErrorCode::InterfaceNotSupported => 100,
        ErrorCode::PermissionDenied => 102,
        ErrorCode::KernelMemoryError => 300,
        ErrorCode::DeviceNotOpen => 400,
        ErrorCode::InvalidTrackNumber => 401,
        ErrorCode::NoAudioTracks => 403,
        ErrorCode::NoMediumPresent => 404,
        ErrorCode::OptionNotSupported => 405,
    }
}

/// The named condition a raw signed status denotes: the sign of the status
/// is not part of the identity, only the magnitude is looked up.
pub open spec fn spec_code_of_raw(raw: int) -> Option<ErrorCode> {
    code_of_magnitude(
        if raw < 0 {
            -raw
        } else {
            raw
        },
    )
}

/// The descriptive line of a named condition, as the engine logs it.
pub open spec fn spec_description(code: ErrorCode) -> Seq<char> {
    match code {
        ErrorCode::NoReadMode => "001: Unable to set CDROM to read audio mode"@,
        ErrorCode::NoTocLeadout => "002: Unable to read table of contents lead-out"@,
        ErrorCode::IllegalTrackCount => "003: CDROM reporting illegal number of tracks"@,
        ErrorCode::NoTocHeader => "004: Unable to read table of contents header"@,
        ErrorCode::NoTocEntry => "005: Unable to read table of contents entry"@,
        ErrorCode::CannotReadAnyData => "006: Could not read any data from drive"@,
        ErrorCode::UnknownReadError => "007: Unknown, unrecoverable error reading data"@,
        ErrorCode::NoCdromModel => "008: Unable to identify CDROM model"@,
        ErrorCode::IllegalToc => "009: CDROM reporting illegal table of contents"@,
        ErrorCode::InterfaceNotSupported => "100: Interface not supported"@,
        ErrorCode::PermissionDenied => "102: Permission denied on cdrom (ioctl) device"@,
        ErrorCode::KernelMemoryError => "300: Kernel memory error"@,
        ErrorCode::DeviceNotOpen => "400: Device not open"@,
        ErrorCode::InvalidTrackNumber => "401: Invalid track number"@,
        ErrorCode::NoAudioTracks => "403: No audio tracks on disc"@,
        ErrorCode::NoMediumPresent => "404: No medium present"@,
        ErrorCode::OptionNotSupported => "405: Option not supported by drive"@,
    }
}

impl ErrorCode {
    /// Looks a raw signed status up in the taxonomy table by its magnitude.
    pub fn from_raw(raw: i32) -> (r: Option<ErrorCode>)
        ensures
            r == spec_code_of_raw(raw as int),
    {
        let mag: i64 = if raw < 0 {
            -(raw as i64)
        } else {
            raw as i64
        };
        if mag == 1 {
            Some(ErrorCode::NoReadMode)
        } else if mag == 2 {
            Some(ErrorCode::NoTocLeadout)
        } else if mag == 3 {
            Some(ErrorCode::IllegalTrackCount)
        } else if mag == 4 {
            Some(ErrorCode::NoTocHeader)
        } else if mag == 5 {
            Some(ErrorCode::NoTocEntry)
        } else if mag == 6 {
            Some(ErrorCode::CannotReadAnyData)
        } else if mag == 7 {
            Some(ErrorCode::UnknownReadError)
        } else if mag == 8 {
            Some(ErrorCode::NoCdromModel)
        } else if mag == 9 {
            Some(ErrorCode::IllegalToc)
        } else if mag == 100 {
            Some(ErrorCode::InterfaceNotSupported)
        } else if mag == 102 {
            Some(ErrorCode::PermissionDenied)
        } else if mag == 300 {
            Some(ErrorCode::KernelMemoryError)
        } else if mag == 400 {
            Some(ErrorCode::DeviceNotOpen)
        } else if mag == 401 {
            Some(ErrorCode::InvalidTrackNumber)
        } else if mag == 403 {
            Some(ErrorCode::NoAudioTracks)
        } else if mag == 404 {
            Some(ErrorCode::NoMediumPresent)
        } else if mag == 405 {
            Some(ErrorCode::OptionNotSupported)
        } else {
            None
        }
    }

    /// The magnitude this condition stands at in the taxonomy table.
    pub fn magnitude(&self) -> (r: i32)
        ensures
            r as int == code_magnitude(*self),
    {
        match self {
            ErrorCode::NoReadMode => 1,
            ErrorCode::NoTocLeadout => 2,
            ErrorCode::IllegalTrackCount => 3,
            ErrorCode::NoTocHeader => 4,
            ErrorCode::NoTocEntry => 5,
            ErrorCode::CannotReadAnyData => 6,
            ErrorCode::UnknownReadError => 7,
            ErrorCode::NoCdromModel => 8,
            ErrorCode::IllegalToc => 9,
            ErrorCode::InterfaceNotSupported => 100,
            ErrorCode::PermissionDenied => 102,
            ErrorCode::KernelMemoryError => 300,
            ErrorCode::DeviceNotOpen => 400,
            ErrorCode::InvalidTrackNumber => 401,
            ErrorCode::NoAudioTracks => 403,
            ErrorCode::NoMediumPresent => 404,
            ErrorCode::OptionNotSupported => 405,
        }
    }

    /// The descriptive line of this condition.
    pub fn description(&self) -> (r: String)
        ensures
            r@ == spec_description(*self),
    {
        match self {
            ErrorCode::NoReadMode => "001: Unable to set CDROM to read audio mode".to_owned(),
            ErrorCode::NoTocLeadout => "002: Unable to read table of contents lead-out".to_owned(),
            ErrorCode::IllegalTrackCount => "003: CDROM reporting illegal number of tracks".to_owned(),
            ErrorCode::NoTocHeader => "004: Unable to read table of contents header".to_owned(),
            ErrorCode::NoTocEntry => "005: Unable to read table of contents entry".to_owned(),
            ErrorCode::CannotReadAnyData => "006: Could not read any data from drive".to_owned(),
            ErrorCode::UnknownReadError => "007: Unknown, unrecoverable error reading data".to_owned(),
            ErrorCode::NoCdromModel => "008: Unable to identify CDROM model".to_owned(),
            ErrorCode::IllegalToc => "009: CDROM reporting illegal table of contents".to_owned(),
            ErrorCode::InterfaceNotSupported => "100: Interface not supported".to_owned(),
            ErrorCode::PermissionDenied => "102: Permission denied on cdrom (ioctl) device".to_owned(),
            ErrorCode::KernelMemoryError => "300: Kernel memory error".to_owned(),
            ErrorCode::DeviceNotOpen => "400: Device not open".to_owned(),
            ErrorCode::InvalidTrackNumber => "401: Invalid track number".to_owned(),
            ErrorCode::NoAudioTracks => "403: No audio tracks on disc".to_owned(),
            ErrorCode::NoMediumPresent => "404: No medium present".to_owned(),
            ErrorCode::OptionNotSupported => "405: Option not supported by drive".to_owned(),
        }
    }
}

/// The character of one decimal digit.
pub open spec fn digit_char(d: int) -> char {
    if d == 0 {
        '0'
    } else if d == 1 {
        '1'
    } else if d == 2 {
        '2'
    } else if d == 3 {
        '3'
    } else if d == 4 {
        '4'
    } else if d == 5 {
        '5'
    } else if d == 6 {
        '6'
    } else if d == 7 {
        '7'
    } else if d == 8 {
        '8'
    } else {
        '9'
    }
}

/// The decimal digits of a non-negative value, most significant first.
pub open spec fn spec_decimal(n: int) -> Seq<char>
    decreases n,
{
    if n < 10 {
        seq![digit_char(n)]
    } else {
        spec_decimal(n / 10).push(digit_char(n % 10))
    }
}

/// The decimal rendering of a signed value: a minus sign and the digits of
/// the magnitude.
pub open spec fn spec_decimal_signed(v: int) -> Seq<char> {
    if v < 0 {
        seq!['-'] + spec_decimal(-v)
    } else {
        spec_decimal(v)
    }
}

/// Relies on String::push: appends exactly the given character at the end
/// of the string.
#[verifier::external_body]
fn push_char(s: &mut String, c: char)
    ensures
        final(s)@ == old(s)@.push(c),
{
    s.push(c);
}

/// The character of one decimal digit.
fn digit_of(d: u32) -> (r: char)
    requires
        d < 10,
    ensures
        r == digit_char(d as int),
{
    if d == 0 {
        '0'
    } else if d == 1 {
        '1'
    } else if d == 2 {
        '2'
    } else if d == 3 {
        '3'
    } else if d == 4 {
        '4'
    } else if d == 5 {
        '5'
    } else if d == 6 {
        '6'
    } else if d == 7 {
        '7'
    } else if d == 8 {
        '8'
    } else {
        '9'
    }
}

/// Appends the decimal digits of `n`, most significant first.
fn push_decimal(s: &mut String, n: u32)
    ensures
        final(s)@ == old(s)@ + spec_decimal(n as int),
    decreases n,
{
    if n < 10 {
        push_char(s, digit_of(n));
        proof {
            assert(s@ =~= old(s)@ + spec_decimal(n as int));
        }
    } else {
        push_decimal(s, n / 10);
        push_char(s, digit_of(n % 10));
        proof {
            assert(s@ =~= old(s)@ + spec_decimal(n as int));
        }
    }
}

/// A raw negative engine status, kept unchanged for classification.
#[derive(Clone, Copy, Debug, PartialEq, Eq, Structural)]
pub struct Error {
    /// The raw status as the engine returned it; always negative when the
    /// value was built by [`Error::from_raw`] or [`Error::from_raw_long`].
    pub raw: i32,
}

impl Error {
    /// Splits a raw signed status into success (non-negative) or a kept
    /// failure status (negative).
    pub fn from_raw(raw: i32) -> (r: Result<(), Error>)
        ensures
            raw >= 0 <==> r is Ok,
            raw < 0 ==> (r matches Err(e) && e.raw == raw),
    {
        if raw >= 0 {
            Ok(())
        } else {
            Err(Error { raw })
        }
    }

    /// Splits a wide raw status the same way; the failure branch narrows the
    /// status to the engine's native 32-bit width.
    pub fn from_raw_long(raw: i64) -> (r: Result<(), Error>)
        requires
            raw < 0 ==> raw >= i32::MIN as i64,
        ensures
            raw >= 0 <==> r is Ok,
            raw < 0 ==> (r matches Err(e) && e.raw as int == raw as int),
    {
        if raw >= 0 {
            Ok(())
        } else {
            Err(Error { raw: raw as i32 })
        }
    }

    /// The raw status, unchanged.
    pub fn as_raw(&self) -> (r: i32)
        ensures
            r == self.raw,
    {
        self.raw
    }

    /// The named condition of this status, when its magnitude is in the
    /// taxonomy table.
    pub fn code(&self) -> (r: Option<ErrorCode>)
        ensures
            r == spec_code_of_raw(self.raw as int),
    {
        ErrorCode::from_raw(self.raw)
    }

    /// A descriptive line for this status: the table's line for a known
    /// magnitude, and otherwise a generic line that keeps the raw value
    /// verbatim.
    pub fn description(&self) -> (r: String)
        ensures
            spec_code_of_raw(self.raw as int) matches Some(c) ==> r@ == spec_description(c),
            spec_code_of_raw(self.raw as int) is None ==> r@ == "Unknown error code "@
                + spec_decimal_signed(self.raw as int),
    {
        match self.code() {
            Some(code) => code.description(),
            None => {
                let mut s = "Unknown error code ".to_owned();
                if self.raw < 0 {
                    let magnitude = (-(self.raw as i64)) as u32;
                    push_char(&mut s, '-');
                    push_decimal(&mut s, magnitude);
                    proof {
                        assert(s@ =~= "Unknown error code "@ + spec_decimal_signed(
                            self.raw as int,
                        ));
                    }
                } else {
                    push_decimal(&mut s, self.raw as u32);
                    proof {
                        assert(s@ =~= "Unknown error code "@ + spec_decimal_signed(
                            self.raw as int,
                        ));
                    }
                }
                s
            },
        }
    }
}

/// What a raw signed status classifies to: success for any non-negative
/// value, a named condition for a known magnitude, and otherwise an unknown
/// condition that carries the original raw value.
#[derive(Clone, Copy, Debug, PartialEq, Eq, Structural)]
pub enum Condition {
    /// The call succeeded; any non-negative status, whatever its magnitude.
    Success,
    /// A named condition from the taxonomy table.
    Code(ErrorCode),
    /// A negative status whose magnitude is not in the table, kept verbatim.
    Unknown(i32),
}

/// The classification of a raw signed status.
pub open spec fn spec_classify(raw: int) -> Condition {
    if raw >= 0 {
        Condition::Success
    } else {
        match spec_code_of_raw(raw) {
            Some(code) => Condition::Code(code),
            None => Condition::Unknown(raw as i32),
        }
    }
}

/// Classifies a raw signed status: `Success` when non-negative, the named
/// condition of its magnitude when the table has it, `Unknown` with the raw
/// value kept verbatim otherwise.
pub fn classify(raw: i32) -> (r: Condition)
    ensures
        r == spec_classify(raw as int),
{
    if raw >= 0 {
        Condition::Success
    } else {
        match ErrorCode::from_raw(raw) {
            Some(code) => Condition::Code(code),
            None => Condition::Unknown(raw),
        }
    }
}

/// Law: the named-condition lookup is sign-independent.  A raw status and
/// its negation denote the same entry of the taxonomy table, since only the
/// magnitude takes part in the lookup.
pub proof fn lemma_code_lookup_sign_independent(raw: int)
    ensures
        spec_code_of_raw(raw) == spec_code_of_raw(-raw),
{
}

/// Law: a negative raw status with a known magnitude classifies to exactly
/// the named condition of that magnitude.
pub proof fn lemma_classify_known(raw: int, code: ErrorCode)
    requires
        raw < 0,
        spec_code_of_raw(raw) == Some(code),
    ensures
        spec_classify(raw) == Condition::Code(code),
{
}

/// Law: every non-negative raw status classifies to success, whatever its
/// magnitude.
pub proof fn lemma_classify_nonnegative(raw: int)
    requires
        raw >= 0,
    ensures
        spec_classify(raw) == Condition::Success,
{
}

/// Law: a negative raw status whose magnitude is not in the taxonomy table
/// classifies to an unknown condition that carries the original raw value,
/// never a nearby known code.
pub proof fn lemma_classify_unknown_keeps_raw(raw: i32)
    requires
        raw < 0,
        spec_code_of_raw(raw as int) is None,
    ensures
        spec_classify(raw as int) == Condition::Unknown(raw),
{
}

/// Law: the table is its own inverse — looking the magnitude of a named
/// condition back up yields that condition.
pub proof fn lemma_magnitude_round_trip(code: ErrorCode)
    ensures
        code_of_magnitude(code_magnitude(code)) == Some(code),
{
}

} // verus!
