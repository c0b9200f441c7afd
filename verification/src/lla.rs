use vstd::prelude::*;

verus! {

/// A position: latitude and longitude in degrees, altitude in metres above the WGS84
/// ellipsoid.
///
/// Each coordinate is the IEEE-754 bit pattern of its `f64` value (`f64::to_bits`), so
/// that positions are carried through the library exactly as the platform reported them.
#[derive(Clone, Copy, Debug, PartialEq, Eq, Structural)]
pub struct Lla {
    pub latitude_degs_bits: u64,
    pub longitude_degs_bits: u64,
    /// Altitude (m) above WGS84 ellipsoid.
    pub altitude_m_hae_bits: u64,
}

} // verus!
