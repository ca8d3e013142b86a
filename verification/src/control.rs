//! Control protocol client logic: the fixed vendor request codes, the
//! clamping and scaling of outbound values, the display-mode code table and
//! the validation of response sizes.
//!
//! Everything here is pure computation; the I/O layer performs the actual
//! control transfers with the parameters built here.

use vstd::prelude::*;
use crate::Error;

verus! {

/// Every control read answers with this many bytes; anything else is a
/// protocol error.
pub const RESPONSE_LEN: usize = 64;

/// The display modes the device knows.
#[derive(Clone, Copy, Debug, PartialEq, Eq, Structural)]
pub enum DisplayMode {
    /// The same image on both eyes.
    SameOnBoth,
    /// Half side-by-side stereo.
    HalfSBS,
    /// Full stereo.
    Stereo,
    /// High refresh rate, same image on both eyes.
    HighRefreshRate,
    /// High refresh rate, side-by-side stereo.
    HighRefreshRateSBS,
}

/// The parameters of one vendor control read.
#[derive(Clone, Copy, Debug, PartialEq, Eq, Structural)]
pub struct ControlRead {
    pub request: u8,
    pub value: u16,
    pub index: u16,
}

/// The parameters of one vendor control write. Every write of this protocol
/// carries exactly one payload byte.
#[derive(Clone, Copy, Debug, PartialEq, Eq, Structural)]
pub struct ControlWrite {
    pub request: u8,
    pub value: u16,
    pub index: u16,
    pub payload: u8,
}

/// The identity and version fields the device can report.
#[derive(Clone, Copy, Debug, PartialEq, Eq, Structural)]
pub enum IdentityField {
    FirmwareVersion,
    SerialNumber,
    PcbaVersion,
    TypeId,
    OpticalId,
    HardwareVersion,
    Seed,
}

/// The wire `value` selecting each identity field.
pub open spec fn identity_field_value(f: IdentityField) -> u16 {
    match f {
        IdentityField::FirmwareVersion => 0x000,
        IdentityField::SerialNumber => 0x100,
        IdentityField::PcbaVersion => 0x200,
        IdentityField::TypeId => 0x300,
        IdentityField::OpticalId => 0x700,
        IdentityField::HardwareVersion => 0x800,
        IdentityField::Seed => 0xa00,
    }
}

/// The read request for one identity field.
pub fn identity_read_request(f: IdentityField) -> (r: ControlRead)
    ensures
        r == (ControlRead { request: 0x81, value: identity_field_value(f), index: 0x00 }),
{
    let value: u16 = match f {
        IdentityField::FirmwareVersion => 0x000,
        IdentityField::SerialNumber => 0x100,
        IdentityField::PcbaVersion => 0x200,
        IdentityField::TypeId => 0x300,
        IdentityField::OpticalId => 0x700,
        IdentityField::HardwareVersion => 0x800,
        IdentityField::Seed => 0xa00,
    };
    ControlRead { request: 0x81, value, index: 0x00 }
}

/// The display mode a response byte decodes to.
pub open spec fn spec_display_mode_from_byte(b: u8) -> DisplayMode {
    if b == 0 {
        DisplayMode::SameOnBoth
    } else if b == 1 {
        DisplayMode::Stereo
    } else if b == 2 {
        DisplayMode::HalfSBS
    } else if b == 4 {
        DisplayMode::HighRefreshRateSBS
    } else {
        DisplayMode::HighRefreshRate
    }
}

/// Decode the display mode from the response byte of a display-mode read.
pub fn display_mode_from_byte(b: u8) -> (r: DisplayMode)
    ensures
        r == spec_display_mode_from_byte(b),
{
    match b {
        0 => DisplayMode::SameOnBoth,
        1 => DisplayMode::Stereo,
        2 => DisplayMode::HalfSBS,
        4 => DisplayMode::HighRefreshRateSBS,
        _ => DisplayMode::HighRefreshRate,
    }
}

/// The outbound wire code of each display mode; half side-by-side has none.
pub open spec fn spec_display_mode_code(m: DisplayMode) -> Result<u16, Error> {
    match m {
        DisplayMode::SameOnBoth => Ok(0),
        DisplayMode::Stereo => Ok(1),
        DisplayMode::HighRefreshRate => Ok(3),
        DisplayMode::HighRefreshRateSBS => Ok(4),
        DisplayMode::HalfSBS => Err(Error::UnsupportedDisplayMode),
    }
}

/// The request that reads the current display mode; the mode is byte 1 of
/// the response.
pub fn display_mode_read_request() -> (r: ControlRead)
    ensures
        r == (ControlRead { request: 0x81, value: 0x00, index: 0x01 }),
{
    ControlRead { request: 0x81, value: 0x00, index: 0x01 }
}

/// The write that sets a display mode, or the error for a mode the table
/// has no outbound code for.
pub fn display_mode_write_request(m: DisplayMode) -> (r: Result<ControlWrite, Error>)
    ensures
        r == match spec_display_mode_code(m) {
            Ok(code) => Ok::<ControlWrite, Error>(
                ControlWrite { request: 0x01, value: 0x01, index: code, payload: 0x00 },
            ),
            Err(e) => Err::<ControlWrite, Error>(e),
        },
{
    let code: u16 = match m {
        DisplayMode::SameOnBoth => 0,
        DisplayMode::Stereo => 1,
        DisplayMode::HighRefreshRate => 3,
        DisplayMode::HighRefreshRateSBS => 4,
        DisplayMode::HalfSBS => {
            return Err(Error::UnsupportedDisplayMode);
        },
    };
    Ok(ControlWrite { request: 0x01, value: 0x01, index: code, payload: 0x00 })
}

/// A requested volume clamped to the valid range 0 to 10.
pub open spec fn spec_clamp_volume(v: u8) -> u8 {
    if v > 10 {
        10
    } else {
        v
    }
}

/// Clamp a requested volume to the valid range 0 to 10.
pub fn clamp_volume(v: u8) -> (r: u8)
    ensures
        r == spec_clamp_volume(v),
{
    if v > 10 {
        10
    } else {
        v
    }
}

/// The request that reads the current volume.
pub fn volume_read_request() -> (r: ControlRead)
    ensures
        r == (ControlRead { request: 0x81, value: 0x00, index: 0x0a }),
{
    ControlRead { request: 0x81, value: 0x00, index: 0x0a }
}

/// The write that sets a volume: the clamped volume scaled by ten.
pub fn volume_write_request(v: u8) -> (r: ControlWrite)
    ensures
        r == (ControlWrite {
            request: 0x01,
            value: (10 * spec_clamp_volume(v)) as u16,
            index: 0x0a,
            payload: 0x00,
        }),
{
    let clamped = clamp_volume(v);
    ControlWrite { request: 0x01, value: 10 * clamped as u16, index: 0x0a, payload: 0x00 }
}

/// A requested brightness clamped to the valid range 1 to 6.
pub open spec fn spec_clamp_brightness(b: u8) -> u8 {
    if b < 1 {
        1
    } else if b > 6 {
        6
    } else {
        b
    }
}

/// Clamp a requested brightness to the valid range 1 to 6.
pub fn clamp_brightness(b: u8) -> (r: u8)
    ensures
        r == spec_clamp_brightness(b),
{
    if b < 1 {
        1
    } else if b > 6 {
        6
    } else {
        b
    }
}

/// The device-calibration table from a clamped brightness step to the
/// transmitted value.
pub open spec fn spec_brightness_table(b: u8) -> u16
    recommends
        1 <= b <= 6,
{
    if b == 1 {
        10
    } else if b == 2 {
        30
    } else if b == 3 {
        45
    } else if b == 4 {
        60
    } else if b == 5 {
        80
    } else {
        100
    }
}

/// The request that reads the current brightness. Its request code differs
/// from the volume and display-mode read code.
pub fn brightness_read_request() -> (r: ControlRead)
    ensures
        r == (ControlRead { request: 0x82, value: 0x00, index: 0x02 }),
{
    ControlRead { request: 0x82, value: 0x00, index: 0x02 }
}

/// The write that sets a brightness: the clamped step mapped through the
/// calibration table.
pub fn brightness_write_request(b: u8) -> (r: ControlWrite)
    ensures
        r == (ControlWrite {
            request: 0x02,
            value: spec_brightness_table(spec_clamp_brightness(b)),
            index: 0x02,
            payload: 0x00,
        }),
{
    let clamped = clamp_brightness(b);
    let value: u16 = if clamped == 1 {
        10
    } else if clamped == 2 {
        30
    } else if clamped == 3 {
        45
    } else if clamped == 4 {
        60
    } else if clamped == 5 {
        80
    } else {
        100
    };
    ControlWrite { request: 0x02, value, index: 0x02, payload: 0x00 }
}

/// Check the byte count a control read returned: anything but the fixed
/// response size is a protocol error, never a silently truncated result.
pub fn check_read_length(received: usize) -> (r: Result<(), Error>)
    ensures
        r == (if received == RESPONSE_LEN {
            Ok::<(), Error>(())
        } else {
            Err::<(), Error>(Error::Protocol)
        }),
{
    if received == RESPONSE_LEN {
        Ok(())
    } else {
        Err(Error::Protocol)
    }
}

/// Check the byte count a control write reported: fewer (or more) bytes
/// than requested is an incomplete write.
pub fn check_write_length(requested: usize, sent: usize) -> (r: Result<(), Error>)
    ensures
        r == (if sent == requested {
            Ok::<(), Error>(())
        } else {
            Err::<(), Error>(Error::WriteIncomplete)
        }),
{
    if sent == requested {
        Ok(())
    } else {
        Err(Error::WriteIncomplete)
    }
}

} // verus!
