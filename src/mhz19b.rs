//! The sensor's three operations over a caller-supplied transport.

pub mod error;
pub mod frame;

pub use error::ErrorBase;
pub use frame::{check_response, checksum, checksum_ok, co2_from_response, request};

use vstd::prelude::*;

use crate::mhz19b::frame::{auto_correction_prefix, co2_outcome, response_check};

verus! {

/// A byte stream to the sensor: a serial port, a peripheral, or a mock.
/// Each call moves exactly one 9-byte frame or fails with the transport's
/// own error.
pub trait ReadWrite {
    /// What the transport reports when a write or a read fails.
    type Io;

    /// Sends the 9 bytes of `bytes`.
    fn mhz19b_write(&mut self, bytes: &[u8; 9]) -> Result<(), Self::Io>;

    /// Fills `buffer` with the next 9 bytes received.
    fn mhz19b_read(&mut self, buffer: &mut [u8; 9]) -> Result<(), Self::Io>;
}

/// Reads the CO2 concentration, in ppm, from the sensor.
///
/// Writes the read request `request(0x86, 0)`, that is `FF 01 86 00 00 00 00 00 79`,
/// then reads the 9-byte response. A transport failure comes back as
/// `IoError`; any other result is what `co2_from_response` makes of some
/// 9-byte frame, the response read.
pub fn read_co2<T: ReadWrite>(port: &mut T) -> (r: Result<u16, ErrorBase<T::Io>>)
    ensures
        match r {
            Err(ErrorBase::IoError(_)) => true,
            _ => exists|f: Seq<u8>| f.len() == 9 && r == co2_outcome::<T::Io>(f),
        },
{
    let frame = request(0x86, 0);
    if let Err(e) = port.mhz19b_write(&frame) {
        return Err(ErrorBase::IoError(e));
    }
    let mut response = [0u8; 9];
    if let Err(e) = port.mhz19b_read(&mut response) {
        return Err(ErrorBase::IoError(e));
    }
    let r = co2_from_response(&response);
    assert(response@.len() == 9 && r == co2_outcome::<T::Io>(response@));
    r
}

/// Starts a zero-point calibration. Only call this after the sensor has
/// been in a stable 400 ppm environment for over 20 minutes.
///
/// Writes `request(0x87, 0)`, that is `FF 01 87 00 00 00 00 00 78`. The
/// sensor sends no response, so none is read: the only failure is the
/// transport's.
pub fn calibrate_zero<T: ReadWrite>(port: &mut T) -> (r: Result<(), ErrorBase<T::Io>>)
    ensures
        r is Ok || r matches Err(ErrorBase::IoError(_)),
{
    let frame = request(0x87, 0);
    match port.mhz19b_write(&frame) {
        Err(e) => Err(ErrorBase::IoError(e)),
        Ok(()) => Ok(()),
    }
}

/// Turns automatic baseline correction on or off by writing
/// `request(0x79, 0xA0)` for on and `request(0x79, 0x00)` for off. The
/// sensor's echo is read and validated against the prefix `FF 79 01`; its
/// content is not returned.
pub fn set_auto_correction<T: ReadWrite>(port: &mut T, on: bool) -> (r: Result<(), ErrorBase<T::Io>>)
    ensures
        match r {
            Err(ErrorBase::IoError(_)) => true,
            _ => exists|f: Seq<u8>| f.len() == 9 && r == response_check::<T::Io>(f, auto_correction_prefix()),
        },
{
    let flag: u8 = if on { 0xA0 } else { 0x00 };
    let frame = request(0x79, flag);
    if let Err(e) = port.mhz19b_write(&frame) {
        return Err(ErrorBase::IoError(e));
    }
    let mut response = [0u8; 9];
    if let Err(e) = port.mhz19b_read(&mut response) {
        return Err(ErrorBase::IoError(e));
    }
    let expected: [u8; 3] = [0xFF, 0x79, 0x01];
    assert(expected@ == auto_correction_prefix());
    let r = check_response(&response, &expected);
    assert(response@.len() == 9 && r == response_check::<T::Io>(response@, auto_correction_prefix()));
    r
}

} // verus!
