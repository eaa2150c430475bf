//! Interpreters for the payloads of the navigation messages: the geodetic
//! position fix and the two satellite tracking layouts.
use vstd::prelude::*;
use crate::constellation::{Constellation, constellation_of, svid_to_constellation};
use crate::frame::UbxMessage;

verus! {

/// Class of the navigation messages.
pub const CLASS_NAV: u8 = 0x01;

/// Identifier of the geodetic position fix (NAV-POSLLH).
pub const ID_NAV_POSLLH: u8 = 0x02;

/// Identifier of the legacy satellite tracking message (NAV-SVINFO).
pub const ID_NAV_SVINFO: u8 = 0x30;

/// Identifier of the current satellite tracking message (NAV-SAT).
pub const ID_NAV_SAT: u8 = 0x35;

/// Bytes a position fix payload must hold.
pub const POSLLH_LEN: usize = 28;

/// Bytes of the header that precedes the satellite rows.
pub const SAT_HEADER_LEN: usize = 8;

/// Bytes of one satellite row.
pub const SAT_ROW_LEN: usize = 12;

/// Little-endian unsigned value of the four bytes of `s` from `off`.
pub open spec fn le_u32(s: Seq<u8>, off: int) -> int {
    s[off] + 256 * s[off + 1] + 65536 * s[off + 2] + 16777216 * s[off + 3]
}

/// Little-endian two's-complement value of the four bytes of `s` from `off`.
pub open spec fn le_i32(s: Seq<u8>, off: int) -> int {
    let u = le_u32(s, off);
    if u >= 0x8000_0000 { u - 0x1_0000_0000 } else { u }
}

/// Little-endian two's-complement value of the two bytes of `s` from `off`.
pub open spec fn le_i16(s: Seq<u8>, off: int) -> int {
    let u = s[off] + 256 * s[off + 1];
    if u >= 0x8000 { u - 0x1_0000 } else { u }
}

/// Two's-complement value of one byte.
pub open spec fn byte_i8(b: u8) -> int {
    if b >= 0x80 { b - 0x100 } else { b as int }
}

fn read_u32_le(data: &[u8], off: usize) -> (r: u32)
    requires
        off + 4 <= data@.len(),
    ensures
        r == le_u32(data@, off as int),
{
    data[off] as u32 + (data[off + 1] as u32) * 256 + (data[off + 2] as u32) * 65536
        + (data[off + 3] as u32) * 16777216
}

fn read_i32_le(data: &[u8], off: usize) -> (r: i32)
    requires
        off + 4 <= data@.len(),
    ensures
        r == le_i32(data@, off as int),
{
    let u = read_u32_le(data, off);
    if u >= 0x8000_0000 {
        (u as i64 - 0x1_0000_0000i64) as i32
    } else {
        u as i32
    }
}

fn read_i16_le(data: &[u8], off: usize) -> (r: i16)
    requires
        off + 2 <= data@.len(),
    ensures
        r == le_i16(data@, off as int),
{
    let u: u32 = data[off] as u32 + (data[off + 1] as u32) * 256;
    if u >= 0x8000 {
        (u as i32 - 0x1_0000i32) as i16
    } else {
        u as i16
    }
}

fn byte_to_i8(b: u8) -> (r: i8)
    ensures
        r == byte_i8(b),
{
    if b >= 0x80 {
        (b as i16 - 0x100i16) as i8
    } else {
        b as i8
    }
}

/// A position fix in the receiver's fixed-point units: milliseconds for the
/// time of week, 1e-7 degrees for longitude and latitude, millimetres for the
/// heights and the accuracy estimates.
#[derive(Debug, Clone, Copy, PartialEq, Eq, Structural)]
pub struct NavPosllh {
    pub i_tow_ms: u32,
    pub lon_e7: i32,
    pub lat_e7: i32,
    pub height_mm: i32,
    pub height_msl_mm: i32,
    pub h_acc_mm: u32,
    pub v_acc_mm: u32,
}

/// The position fix that a payload of at least 28 bytes describes.
pub open spec fn posllh_spec(p: Seq<u8>) -> NavPosllh {
    NavPosllh {
        i_tow_ms: le_u32(p, 0) as u32,
        lon_e7: le_i32(p, 4) as i32,
        lat_e7: le_i32(p, 8) as i32,
        height_mm: le_i32(p, 12) as i32,
        height_msl_mm: le_i32(p, 16) as i32,
        h_acc_mm: le_u32(p, 20) as u32,
        v_acc_mm: le_u32(p, 24) as u32,
    }
}

/// Reads a position fix; a payload shorter than 28 bytes gives nothing.
pub fn parse_nav_posllh(payload: &[u8]) -> (r: Option<NavPosllh>)
    ensures
        payload@.len() < POSLLH_LEN ==> r is None,
        payload@.len() >= POSLLH_LEN ==> r == Some(posllh_spec(payload@)),
{
    if payload.len() < POSLLH_LEN {
        return None;
    }
    Some(NavPosllh {
        i_tow_ms: read_u32_le(payload, 0),
        lon_e7: read_i32_le(payload, 4),
        lat_e7: read_i32_le(payload, 8),
        height_mm: read_i32_le(payload, 12),
        height_msl_mm: read_i32_le(payload, 16),
        h_acc_mm: read_u32_le(payload, 20),
        v_acc_mm: read_u32_le(payload, 24),
    })
}

/// The two satellite tracking layouts, which differ in where the satellite
/// count sits and in the order of the row fields.
#[derive(Debug, Clone, Copy, PartialEq, Eq, Structural)]
pub enum SatLayout {
    /// NAV-SVINFO: count at byte 4; rows of channel, svid, flags, quality,
    /// C/N0, elevation, azimuth, pseudorange residual.
    SvInfo,
    /// NAV-SAT: count at byte 5; rows of GNSS id, svid, C/N0, flags, azimuth,
    /// elevation, orbit source.
    NavSat,
}

/// One tracked satellite.
#[derive(Debug, Clone, Copy, PartialEq, Eq, Structural)]
pub struct SatelliteRow {
    /// Receiver channel (NAV-SVINFO) or GNSS identifier (NAV-SAT).
    pub channel: u8,
    pub svid: u8,
    /// Carrier-to-noise ratio in dBHz.
    pub cno: u8,
    pub flags: u8,
    /// Azimuth in degrees.
    pub azimuth: i16,
    /// Elevation in degrees.
    pub elevation: i8,
    /// Signal quality (NAV-SVINFO) or orbit source (NAV-SAT).
    pub quality: u8,
    pub constellation: Constellation,
}

/// The satellite count that the header of a payload declares.
pub open spec fn declared_sat_count(p: Seq<u8>, layout: SatLayout) -> int {
    match layout {
        SatLayout::SvInfo => p[4] as int,
        SatLayout::NavSat => p[5] as int,
    }
}

/// How many rows a payload yields: the declared count, cut to the complete
/// rows that the payload holds; none when even the header is missing.
pub open spec fn sat_row_count(p: Seq<u8>, layout: SatLayout) -> int {
    if p.len() < SAT_HEADER_LEN {
        0
    } else {
        let avail = (p.len() - SAT_HEADER_LEN) / (SAT_ROW_LEN as int);
        let declared = declared_sat_count(p, layout);
        if declared < avail { declared } else { avail }
    }
}

/// Row `i` of a payload, read from the 12 bytes at `8 + 12 * i`.
pub open spec fn sat_row_spec(p: Seq<u8>, layout: SatLayout, i: int) -> SatelliteRow {
    let b = SAT_HEADER_LEN + SAT_ROW_LEN * i;
    match layout {
        SatLayout::SvInfo => SatelliteRow {
            channel: p[b],
            svid: p[b + 1],
            flags: p[b + 2],
            quality: p[b + 3],
            cno: p[b + 4],
            elevation: byte_i8(p[b + 5]) as i8,
            azimuth: le_i16(p, b + 6) as i16,
            constellation: constellation_of(p[b + 1]),
        },
        SatLayout::NavSat => SatelliteRow {
            channel: p[b],
            svid: p[b + 1],
            cno: p[b + 2],
            flags: p[b + 3],
            azimuth: le_i16(p, b + 4) as i16,
            elevation: byte_i8(p[b + 6]) as i8,
            quality: p[b + 7],
            constellation: constellation_of(p[b + 1]),
        },
    }
}

fn read_sat_row(p: &[u8], layout: SatLayout, b: usize) -> (r: SatelliteRow)
    requires
        b + SAT_ROW_LEN <= p.len(),
    ensures
        forall|i: int| b == SAT_HEADER_LEN + SAT_ROW_LEN * i ==> r == sat_row_spec(p@, layout, i),
{
    let svid = p[b + 1];
    match layout {
        SatLayout::SvInfo => SatelliteRow {
            channel: p[b],
            svid,
            flags: p[b + 2],
            quality: p[b + 3],
            cno: p[b + 4],
            elevation: byte_to_i8(p[b + 5]),
            azimuth: read_i16_le(p, b + 6),
            constellation: svid_to_constellation(svid),
        },
        SatLayout::NavSat => SatelliteRow {
            channel: p[b],
            svid,
            cno: p[b + 2],
            flags: p[b + 3],
            azimuth: read_i16_le(p, b + 4),
            elevation: byte_to_i8(p[b + 6]),
            quality: p[b + 7],
            constellation: svid_to_constellation(svid),
        },
    }
}

/// Reads the satellite rows of a tracking payload in order. Decoding stops at
/// the declared count or at the first row that the payload does not hold in
/// full, whichever comes first; a truncated payload is not an error.
pub fn decode_satellites(payload: &[u8], layout: SatLayout) -> (r: Vec<SatelliteRow>)
    ensures
        r@.len() == sat_row_count(payload@, layout),
        forall|i: int| 0 <= i < r@.len() ==> r@[i] == sat_row_spec(payload@, layout, i),
{
    let mut rows: Vec<SatelliteRow> = Vec::new();
    if payload.len() < SAT_HEADER_LEN {
        return rows;
    }
    let declared: usize = match layout {
        SatLayout::SvInfo => payload[4] as usize,
        SatLayout::NavSat => payload[5] as usize,
    };
    let mut i: usize = 0;
    while i < declared
        invariant
            SAT_HEADER_LEN <= payload@.len(),
            declared == declared_sat_count(payload@, layout),
            declared <= 255,
            i <= declared,
            SAT_HEADER_LEN + SAT_ROW_LEN * i <= payload@.len(),
            rows@.len() == i,
            forall|j: int| 0 <= j < i ==> rows@[j] == sat_row_spec(payload@, layout, j),
        ensures
            SAT_HEADER_LEN + SAT_ROW_LEN * i <= payload@.len(),
            rows@.len() == i,
            forall|j: int| 0 <= j < i ==> rows@[j] == sat_row_spec(payload@, layout, j),
            i < declared ==> payload@.len() < SAT_HEADER_LEN + SAT_ROW_LEN * i + SAT_ROW_LEN,
            i <= declared,
        decreases declared - i,
    {
        let base: usize = SAT_HEADER_LEN + i * SAT_ROW_LEN;
        if base + SAT_ROW_LEN > payload.len() {
            break;
        }
        let row = read_sat_row(payload, layout, base);
        rows.push(row);
        i = i + 1;
    }
    proof {
        let len = payload@.len() - SAT_HEADER_LEN;
        let n = i as int;
        assert(12 * n <= len);
        assert(n < declared ==> len < 12 * n + 12);
        assert(len / 12 >= n) by (nonlinear_arith)
            requires 12 * n <= len, n >= 0;
        assert(n < declared ==> len / 12 <= n) by (nonlinear_arith)
            requires n < declared ==> len < 12 * n + 12, n >= 0, len >= 0;
    }
    rows
}

/// What a validated message carries, by its class and identifier.
#[derive(Debug)]
pub enum NavPayload {
    /// A position fix.
    Position(NavPosllh),
    /// Satellite rows, read with the layout of the message's identity.
    Satellites(SatLayout, Vec<SatelliteRow>),
    /// A position fix message whose payload is too short to hold one.
    Malformed,
    /// A message that none of the interpreters handles.
    Unsupported,
}

/// The satellite layout of a message identity, if it is a tracking message.
pub open spec fn sat_layout_of(class: u8, id: u8) -> Option<SatLayout> {
    if class == CLASS_NAV && id == ID_NAV_SVINFO {
        Some(SatLayout::SvInfo)
    } else if class == CLASS_NAV && id == ID_NAV_SAT {
        Some(SatLayout::NavSat)
    } else {
        None
    }
}

/// Hands a message to the interpreter that its class and identifier select.
pub fn interpret_message(m: &UbxMessage) -> (r: NavPayload)
    ensures
        m.class == CLASS_NAV && m.id == ID_NAV_POSLLH && m.payload@.len() >= POSLLH_LEN
            ==> r == NavPayload::Position(posllh_spec(m.payload@)),
        m.class == CLASS_NAV && m.id == ID_NAV_POSLLH && m.payload@.len() < POSLLH_LEN
            ==> r is Malformed,
        sat_layout_of(m.class, m.id) matches Some(l) ==> (r matches NavPayload::Satellites(rl, rows)
            && rl == l
            && rows@.len() == sat_row_count(m.payload@, l)
            && forall|i: int| 0 <= i < rows@.len() ==> rows@[i] == sat_row_spec(m.payload@, l, i)),
        !(m.class == CLASS_NAV && m.id == ID_NAV_POSLLH) && sat_layout_of(m.class, m.id) is None
            ==> r is Unsupported,
{
    if m.class != CLASS_NAV {
        NavPayload::Unsupported
    } else if m.id == ID_NAV_POSLLH {
        match parse_nav_posllh(m.payload.as_slice()) {
            Some(p) => NavPayload::Position(p),
            None => NavPayload::Malformed,
        }
    } else if m.id == ID_NAV_SVINFO {
        NavPayload::Satellites(SatLayout::SvInfo, decode_satellites(m.payload.as_slice(), SatLayout::SvInfo))
    } else if m.id == ID_NAV_SAT {
        NavPayload::Satellites(SatLayout::NavSat, decode_satellites(m.payload.as_slice(), SatLayout::NavSat))
    } else {
        NavPayload::Unsupported
    }
}

} // verus!
