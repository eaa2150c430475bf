//! Classification of satellite identifiers into GNSS constellations.
use vstd::prelude::*;

verus! {

/// The satellite system a satellite identifier belongs to.
#[derive(Debug, Clone, Copy, PartialEq, Eq, Structural)]
pub enum Constellation {
    Gps,
    Sbas,
    Glonass,
    Galileo,
    BeiDou,
    Qzss,
    Unknown,
}

/// The constellation of a satellite identifier, by the receiver's numbering
/// ranges.
pub open spec fn constellation_of(svid: u8) -> Constellation {
    if 1 <= svid <= 32 {
        Constellation::Gps
    } else if 33 <= svid <= 64 || 159 <= svid <= 163 {
        Constellation::BeiDou
    } else if 65 <= svid <= 96 {
        Constellation::Glonass
    } else if 120 <= svid <= 158 || 183 <= svid <= 192 {
        Constellation::Sbas
    } else if 193 <= svid <= 197 {
        Constellation::Qzss
    } else if 211 <= svid <= 246 {
        Constellation::Galileo
    } else {
        Constellation::Unknown
    }
}

/// Classifies a satellite identifier; every value has an answer.
pub fn svid_to_constellation(svid: u8) -> (r: Constellation)
    ensures
        r == constellation_of(svid),
{
    if 1 <= svid && svid <= 32 {
        Constellation::Gps
    } else if (33 <= svid && svid <= 64) || (159 <= svid && svid <= 163) {
        Constellation::BeiDou
    } else if 65 <= svid && svid <= 96 {
        Constellation::Glonass
    } else if (120 <= svid && svid <= 158) || (183 <= svid && svid <= 192) {
        Constellation::Sbas
    } else if 193 <= svid && svid <= 197 {
        Constellation::Qzss
    } else if 211 <= svid && svid <= 246 {
        Constellation::Galileo
    } else {
        Constellation::Unknown
    }
}

impl Constellation {
    /// Short display name of the constellation.
    pub fn name(&self) -> (r: String)
        ensures
            r@ == constellation_name(*self),
    {
        match self {
            Constellation::Gps => String::from_str("GPS"),
            Constellation::Sbas => String::from_str("SBAS"),
            Constellation::Glonass => String::from_str("GLONASS"),
            Constellation::Galileo => String::from_str("Galileo"),
            Constellation::BeiDou => String::from_str("BeiDou"),
            Constellation::Qzss => String::from_str("QZSS"),
            Constellation::Unknown => String::from_str("Unknown"),
        }
    }
}

/// The display name of each constellation.
pub open spec fn constellation_name(c: Constellation) -> Seq<char> {
    match c {
        Constellation::Gps => "GPS"@,
        Constellation::Sbas => "SBAS"@,
        Constellation::Glonass => "GLONASS"@,
        Constellation::Galileo => "Galileo"@,
        Constellation::BeiDou => "BeiDou"@,
        Constellation::Qzss => "QZSS"@,
        Constellation::Unknown => "Unknown"@,
    }
}

} // verus!
