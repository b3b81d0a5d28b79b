//! The accelerometer reader: range configuration and normalization of raw
//! sensor counts into fixed-point gravity units.
//!
//! The sensor delivers each axis as a signed 16-bit count, with full scale
//! (the configured range, in gravities) at the extreme count. The device
//! command that sets the range, and the bus transaction that fetches the
//! counts, happen at the hardware edge; this module holds the decisions and
//! the arithmetic, which take the hardware's answer as an argument.

use vstd::prelude::*;
use crate::bus::BusError;
use crate::sample::{Sample, MAX_AXIS_UNITS};

verus! {

/// A measurement range the sensor can be configured to, in gravities.
#[derive(Clone, Copy, PartialEq, Eq, Structural, Debug)]
pub enum Range {
    G2,
    G4,
    G8,
}

impl Range {
    /// The value a full-scale count stands for, in fixed-point units.
    pub open spec fn full_scale_spec(self) -> i32 {
        match self {
            Range::G2 => 20000,
            Range::G4 => 40000,
            Range::G8 => 80000,
        }
    }

    /// Exec mirror of [`Range::full_scale_spec`].
    pub fn full_scale(self) -> (f: i32)
        ensures
            f == self.full_scale_spec(),
    {
        match self {
            Range::G2 => 20000,
            Range::G4 => 40000,
            Range::G8 => 80000,
        }
    }
}

/// The device rejected a configuration command, or the command never
/// reached it.
#[derive(Clone, Copy, PartialEq, Eq, Structural, Debug)]
pub enum ConfigError {
    Rejected,
    Bus(BusError),
}

/// One raw reading: the three axis counts as the sensor delivers them.
#[derive(Clone, Copy, PartialEq, Eq, Structural, Debug)]
pub struct RawSample {
    pub x: i16,
    pub y: i16,
    pub z: i16,
}

/// The normalized value of one axis: the count scaled so that a full-scale
/// count of 0x8000 maps to the range's full-scale value, truncated toward
/// zero.
pub open spec fn normalize_axis(c: i16, fs: i32) -> int {
    if c >= 0 {
        (c * fs) / 0x8000
    } else {
        -(((-c) * fs) / 0x8000)
    }
}

/// The reader over the accelerometer, remembering the configured range.
#[derive(Clone, Copy, PartialEq, Eq, Structural, Debug)]
pub struct AccelReader {
    pub range: Range,
}

/// The normalized sample a reader derives from one raw reading.
pub open spec fn normalized_sample(reader: AccelReader, raw: RawSample) -> Sample {
    Sample {
        x: normalize_axis(raw.x, reader.range.full_scale_spec()) as i32,
        y: normalize_axis(raw.y, reader.range.full_scale_spec()) as i32,
        z: normalize_axis(raw.z, reader.range.full_scale_spec()) as i32,
    }
}

/// Scales one raw count by the configured full scale.
fn normalize(c: i16, fs: i32) -> (v: i32)
    requires
        0 < fs <= MAX_AXIS_UNITS,
    ensures
        v == normalize_axis(c, fs),
        -MAX_AXIS_UNITS <= v <= MAX_AXIS_UNITS,
{
    if c >= 0 {
        proof {
            assert((c as int) * (fs as int) <= 0x8000 * (fs as int)) by (nonlinear_arith)
                requires
                    0 <= c <= 0x8000,
                    0 < fs,
            ;
        }
        let prod: u64 = (c as u64) * (fs as u64);
        let q: u64 = prod / 0x8000;
        q as i32
    } else {
        let mag: u64 = (-(c as i32)) as u64;
        proof {
            assert((mag as int) * (fs as int) <= 0x8000 * (fs as int)) by (nonlinear_arith)
                requires
                    0 <= mag <= 0x8000,
                    0 < fs,
            ;
        }
        let prod: u64 = mag * (fs as u64);
        let q: u64 = prod / 0x8000;
        -(q as i32)
    }
}

impl AccelReader {
    /// Applies the range-configuration command. The hardware edge reports
    /// whether the device acknowledged it: on acknowledgement the reader is
    /// ready at that range, otherwise configuration fails, exactly then.
    pub fn configure(range: Range, acknowledged: bool) -> (r: Result<AccelReader, ConfigError>)
        ensures
            r is Ok <==> acknowledged,
            r is Ok ==> r->Ok_0 == (AccelReader { range }),
            r is Err ==> r->Err_0 == ConfigError::Rejected,
    {
        if acknowledged {
            Ok(AccelReader { range })
        } else {
            Err(ConfigError::Rejected)
        }
    }

    /// Converts one raw reading into a normalized sample. The result is
    /// always within the configured sensor range.
    pub fn sample_from_raw(&self, raw: RawSample) -> (s: Sample)
        ensures
            s == normalized_sample(*self, raw),
            s.in_range(),
    {
        let fs = self.range.full_scale();
        Sample { x: normalize(raw.x, fs), y: normalize(raw.y, fs), z: normalize(raw.z, fs) }
    }
}

} // verus!
