//! Layout of the random-group visibility container.
//!
//! The container has a primary block whose header cards and per-row group
//! records this module lays out exactly, and a secondary antenna table.
//! The functions here decide *what* is written — every key, every value,
//! every position in a record — while the caller performs the binary-table
//! I/O and renders floating-point values to text at the boundary.
//! A floating-point sample travels through this module as its 32-bit IEEE
//! bit pattern, which the layout moves but never interprets.

use vstd::prelude::*;

use crate::errors::ConversionError;
use crate::errors::ValueError;

verus! {

/// The packed baseline id of the 1-based antenna pair `(b1, b2)`: the
/// extended encoding `b1 * 2048 + b2 + 65536` when `b2 > 255` (it supports
/// up to 2048 antennas), else the standard `b1 * 256 + b2`.
pub open spec fn encoded_baseline(b1: u32, b2: u32) -> int {
    if b2 > 255 {
        b1 * 2048 + b2 + 65536
    } else {
        b1 * 256 + b2
    }
}

/// Encodes a baseline in the container's packed convention; this must match
/// the legacy convention of downstream consumers exactly.
pub fn encode_uvfits_baseline(b1: u32, b2: u32) -> (r: u32)
    requires
        encoded_baseline(b1, b2) <= u32::MAX,
    ensures
        r == encoded_baseline(b1, b2),
{
    if b2 > 255 {
        b1 * 2048 + b2 + 65536
    } else {
        b1 * 256 + b2
    }
}

/// The number of baselines in a table of `total_rows` rows covering
/// `time_step_count` distinct timestamps.
pub fn compute_num_baselines(total_rows: u64, time_step_count: u32) -> (r: u32)
    requires
        time_step_count > 0,
        total_rows / (time_step_count as u64) <= u32::MAX,
    ensures
        r == total_rows as int / time_step_count as int,
{
    (total_rows / time_step_count as u64) as u32
}

/// A header card value: an integer, a real rendered as decimal text by the
/// boundary, or text.
#[derive(Debug)]
pub enum CardValue {
    Int(i64),
    Real(String),
    Text(String),
}

/// One keyed header card.
#[derive(Debug)]
pub struct HeaderCard {
    pub key: String,
    pub value: CardValue,
}

/// The mathematical value of a card value.
pub enum CardValueSpec {
    Int(int),
    Real(Seq<char>),
    Text(Seq<char>),
}

/// The mathematical value of a header card.
pub struct CardSpec {
    pub key: Seq<char>,
    pub value: CardValueSpec,
}

impl View for CardValue {
    type V = CardValueSpec;

    open spec fn view(&self) -> CardValueSpec {
        match self {
            CardValue::Int(v) => CardValueSpec::Int(*v as int),
            CardValue::Real(t) => CardValueSpec::Real(t@),
            CardValue::Text(t) => CardValueSpec::Text(t@),
        }
    }
}

impl View for HeaderCard {
    type V = CardSpec;

    open spec fn view(&self) -> CardSpec {
        CardSpec { key: self.key@, value: self.value@ }
    }
}

/// The card list as mathematical values.
pub open spec fn cards_view(v: Seq<HeaderCard>) -> Seq<CardSpec> {
    v.map_values(|c: HeaderCard| c@)
}

pub open spec fn int_card(key: Seq<char>, v: int) -> CardSpec {
    CardSpec { key, value: CardValueSpec::Int(v) }
}

pub open spec fn real_card(key: Seq<char>, v: Seq<char>) -> CardSpec {
    CardSpec { key, value: CardValueSpec::Real(v) }
}

pub open spec fn text_card(key: Seq<char>, v: Seq<char>) -> CardSpec {
    CardSpec { key, value: CardValueSpec::Text(v) }
}

fn push_int(cards: &mut Vec<HeaderCard>, key: &str, v: i64)
    ensures
        cards_view(final(cards)@) == cards_view(old(cards)@).push(int_card(key@, v as int)),
{
    cards.push(HeaderCard { key: String::from_str(key), value: CardValue::Int(v) });
    proof {
        assert(cards_view(cards@) =~= cards_view(old(cards)@).push(int_card(key@, v as int)));
    }
}

fn push_real(cards: &mut Vec<HeaderCard>, key: &str, v: String)
    ensures
        cards_view(final(cards)@) == cards_view(old(cards)@).push(real_card(key@, v@)),
{
    cards.push(HeaderCard { key: String::from_str(key), value: CardValue::Real(v) });
    proof {
        assert(cards_view(cards@) =~= cards_view(old(cards)@).push(real_card(key@, v@)));
    }
}

fn push_real_str(cards: &mut Vec<HeaderCard>, key: &str, v: &str)
    ensures
        cards_view(final(cards)@) == cards_view(old(cards)@).push(real_card(key@, v@)),
{
    push_real(cards, key, String::from_str(v));
}

fn push_text(cards: &mut Vec<HeaderCard>, key: &str, v: String)
    ensures
        cards_view(final(cards)@) == cards_view(old(cards)@).push(text_card(key@, v@)),
{
    cards.push(HeaderCard { key: String::from_str(key), value: CardValue::Text(v) });
    proof {
        assert(cards_view(cards@) =~= cards_view(old(cards)@).push(text_card(key@, v@)));
    }
}

fn push_text_str(cards: &mut Vec<HeaderCard>, key: &str, v: &str)
    ensures
        cards_view(final(cards)@) == cards_view(old(cards)@).push(text_card(key@, v@)),
{
    push_text(cards, key, String::from_str(v));
}

/// The full card list of a new container's primary header.  The five group
/// parameters are `UU`, `VV`, `WW`, `BASELINE`, `DATE`, each with unit
/// scale; only `DATE` has a non-zero zero-offset, the truncated reference
/// epoch `date_zero`.
pub open spec fn uv_primary_cards(
    fine_chan_width_hz: int,
    centre_freq_chan: int,
    centre_freq_hz: Seq<char>,
    ra_deg: Seq<char>,
    dec_deg: Seq<char>,
    date_zero: Seq<char>,
    date_obs: Seq<char>,
    object_name: Seq<char>,
    software: Seq<char>,
    gitlabel: Seq<char>,
) -> Seq<CardSpec> {
    seq![
        real_card("BSCALE"@, "1.0"@),
        text_card("PTYPE1"@, "UU"@),
        real_card("PSCAL1"@, "1.0"@),
        real_card("PZERO1"@, "0.0"@),
        text_card("PTYPE2"@, "VV"@),
        real_card("PSCAL2"@, "1.0"@),
        real_card("PZERO2"@, "0.0"@),
        text_card("PTYPE3"@, "WW"@),
        real_card("PSCAL3"@, "1.0"@),
        real_card("PZERO3"@, "0.0"@),
        text_card("PTYPE4"@, "BASELINE"@),
        real_card("PSCAL4"@, "1.0"@),
        real_card("PZERO4"@, "0.0"@),
        text_card("PTYPE5"@, "DATE"@),
        real_card("PSCAL5"@, "1.0"@),
        real_card("PZERO5"@, date_zero),
        text_card("DATE-OBS"@, date_obs),
        text_card("CTYPE2"@, "COMPLEX"@),
        real_card("CRVAL2"@, "1.0"@),
        real_card("CRPIX2"@, "1.0"@),
        real_card("CDELT2"@, "1.0"@),
        text_card("CTYPE3"@, "STOKES"@),
        int_card("CRVAL3"@, -5),
        int_card("CDELT3"@, -1),
        real_card("CRPIX3"@, "1.0"@),
        text_card("CTYPE4"@, "FREQ"@),
        real_card("CRVAL4"@, centre_freq_hz),
        int_card("CDELT4"@, fine_chan_width_hz),
        int_card("CRPIX4"@, centre_freq_chan + 1),
        text_card("CTYPE5"@, "RA"@),
        real_card("CRVAL5"@, ra_deg),
        int_card("CDELT5"@, 1),
        int_card("CRPIX5"@, 1),
        text_card("CTYPE6"@, "DEC"@),
        real_card("CRVAL6"@, dec_deg),
        int_card("CDELT6"@, 1),
        int_card("CRPIX6"@, 1),
        real_card("OBSRA"@, ra_deg),
        real_card("OBSDEC"@, dec_deg),
        real_card("EPOCH"@, "2000.0"@),
        text_card("OBJECT"@, object_name),
        text_card("TELESCOP"@, "MWA"@),
        text_card("INSTRUME"@, "MWA"@),
        text_card("SOFTWARE"@, software),
        text_card("GITLABEL"@, gitlabel),
    ]
}

/// Builds the primary-header card list of a new container.  Real-valued
/// inputs arrive already rendered as decimal text; `date_zero` is the
/// truncated reference epoch and `date_obs` the truncated date string.
pub fn uvfits_primary_header_cards(
    fine_chan_width_hz: u32,
    centre_freq_chan: u32,
    centre_freq_hz: String,
    ra_deg: String,
    dec_deg: String,
    date_zero: String,
    date_obs: String,
    obs_name: Option<String>,
    software: String,
    gitlabel: String,
) -> (r: Vec<HeaderCard>)
    requires
        centre_freq_chan < u32::MAX,
    ensures
        cards_view(r@) == uv_primary_cards(
            fine_chan_width_hz as int,
            centre_freq_chan as int,
            centre_freq_hz@,
            ra_deg@,
            dec_deg@,
            date_zero@,
            date_obs@,
            match obs_name {
                Some(n) => n@,
                None => "Undefined"@,
            },
            software@,
            gitlabel@,
        ),
{
    let object_name: String = match obs_name {
        Some(n) => n,
        None => String::from_str("Undefined"),
    };
    let mut cards: Vec<HeaderCard> = Vec::new();
    push_real_str(&mut cards, "BSCALE", "1.0");
    push_text_str(&mut cards, "PTYPE1", "UU");
    push_real_str(&mut cards, "PSCAL1", "1.0");
    push_real_str(&mut cards, "PZERO1", "0.0");
    push_text_str(&mut cards, "PTYPE2", "VV");
    push_real_str(&mut cards, "PSCAL2", "1.0");
    push_real_str(&mut cards, "PZERO2", "0.0");
    push_text_str(&mut cards, "PTYPE3", "WW");
    push_real_str(&mut cards, "PSCAL3", "1.0");
    push_real_str(&mut cards, "PZERO3", "0.0");
    push_text_str(&mut cards, "PTYPE4", "BASELINE");
    push_real_str(&mut cards, "PSCAL4", "1.0");
    push_real_str(&mut cards, "PZERO4", "0.0");
    push_text_str(&mut cards, "PTYPE5", "DATE");
    push_real_str(&mut cards, "PSCAL5", "1.0");
    push_real(&mut cards, "PZERO5", date_zero);
    push_text(&mut cards, "DATE-OBS", date_obs);
    push_text_str(&mut cards, "CTYPE2", "COMPLEX");
    push_real_str(&mut cards, "CRVAL2", "1.0");
    push_real_str(&mut cards, "CRPIX2", "1.0");
    push_real_str(&mut cards, "CDELT2", "1.0");
    push_text_str(&mut cards, "CTYPE3", "STOKES");
    push_int(&mut cards, "CRVAL3", -5);
    push_int(&mut cards, "CDELT3", -1);
    push_real_str(&mut cards, "CRPIX3", "1.0");
    push_text_str(&mut cards, "CTYPE4", "FREQ");
    push_real(&mut cards, "CRVAL4", centre_freq_hz);
    push_int(&mut cards, "CDELT4", fine_chan_width_hz as i64);
    push_int(&mut cards, "CRPIX4", centre_freq_chan as i64 + 1);
    push_text_str(&mut cards, "CTYPE5", "RA");
    push_real(&mut cards, "CRVAL5", ra_deg.clone());
    push_int(&mut cards, "CDELT5", 1);
    push_int(&mut cards, "CRPIX5", 1);
    push_text_str(&mut cards, "CTYPE6", "DEC");
    push_real(&mut cards, "CRVAL6", dec_deg.clone());
    push_int(&mut cards, "CDELT6", 1);
    push_int(&mut cards, "CRPIX6", 1);
    push_real(&mut cards, "OBSRA", ra_deg);
    push_real(&mut cards, "OBSDEC", dec_deg);
    push_real_str(&mut cards, "EPOCH", "2000.0");
    push_text(&mut cards, "OBJECT", object_name);
    push_text_str(&mut cards, "TELESCOP", "MWA");
    push_text_str(&mut cards, "INSTRUME", "MWA");
    push_text(&mut cards, "SOFTWARE", software);
    push_text(&mut cards, "GITLABEL", gitlabel);
    proof {
        assert(cards_view(cards@) =~= uv_primary_cards(
            fine_chan_width_hz as int,
            centre_freq_chan as int,
            centre_freq_hz@,
            ra_deg@,
            dec_deg@,
            date_zero@,
            date_obs@,
            object_name@,
            software@,
            gitlabel@,
        ));
    }
    cards
}

/// Rendered station-frame coordinates of one antenna, in meters.
#[derive(Debug)]
pub struct StationXyzText {
    pub x: String,
    pub y: String,
    pub z: String,
}

/// One row of the antenna table.  The mount code, polarisation labels and
/// angles, and the calibration placeholders are fixed by the container
/// convention.
#[derive(Debug)]
pub struct AntennaRow {
    pub name: String,
    pub position: StationXyzText,
    pub station_number: i32,
    pub mount: i32,
    pub pol_a_type: String,
    pub pol_a_angle_deg: i32,
    pub pol_a_cal: i32,
    pub pol_b_type: String,
    pub pol_b_angle_deg: i32,
    pub pol_b_cal: i32,
}

/// The antenna table of a container: its array-level header cards and one
/// row per antenna.
#[derive(Debug)]
pub struct AntennaTable {
    pub cards: Vec<HeaderCard>,
    pub rows: Vec<AntennaRow>,
}

/// The array-level cards of the antenna table: the array's geocentric
/// position, the centre frequency, the Greenwich sidereal time, Earth's
/// rotation rate, a zero UT1-UTC offset, the fixed 33 s leap-second offset,
/// and right-handed station coordinates.
pub open spec fn antenna_table_cards(
    array_x: Seq<char>,
    array_y: Seq<char>,
    array_z: Seq<char>,
    centre_freq_hz: Seq<char>,
    gst_deg: Seq<char>,
    rdate: Seq<char>,
) -> Seq<CardSpec> {
    seq![
        real_card("ARRAYX"@, array_x),
        real_card("ARRAYY"@, array_y),
        real_card("ARRAYZ"@, array_z),
        real_card("FREQ"@, centre_freq_hz),
        real_card("GSTIA0"@, gst_deg),
        real_card("DEGPDY"@, "360.985"@),
        text_card("RDATE"@, rdate),
        real_card("POLARX"@, "0.0"@),
        real_card("POLARY"@, "0.0"@),
        real_card("UT1UTC"@, "0.0"@),
        real_card("DATUTC"@, "0.0"@),
        text_card("TIMSYS"@, "UTC"@),
        text_card("ARRNAM"@, "MWA"@),
        int_card("NUMORB"@, 0),
        int_card("NOPCAL"@, 3),
        int_card("FREQID"@, -1),
        real_card("IATUTC"@, "33.0"@),
        text_card("XYZHAND"@, "RIGHT"@),
    ]
}

/// Row `i` carries antenna `i`'s name and position, the 1-based station
/// number `i + 1`, mount code 0, polarisation labels `X`/`Y` at 0 and 90
/// degrees, and zero calibration placeholders.
pub open spec fn antenna_row_ok(
    row: AntennaRow,
    i: int,
    name: Seq<char>,
    position: StationXyzText,
) -> bool {
    &&& row.name@ == name
    &&& row.position.x@ == position.x@
    &&& row.position.y@ == position.y@
    &&& row.position.z@ == position.z@
    &&& row.station_number == i + 1
    &&& row.mount == 0
    &&& row.pol_a_type@ == "X"@
    &&& row.pol_a_angle_deg == 0
    &&& row.pol_a_cal == 0
    &&& row.pol_b_type@ == "Y"@
    &&& row.pol_b_angle_deg == 90
    &&& row.pol_b_cal == 0
}

/// Builds the antenna table of a container.  `geodetic_status` is what the
/// geodetic collaborator reported when it computed the array's geocentric
/// position: the table exists exactly when that status is zero.  The
/// positions arrive relative to the array centre and rotated into the
/// station frame, rendered as text; one row is laid out per antenna, with
/// station numbers exactly `1..=antenna_names.len()` in table order.
pub fn uvfits_antenna_table(
    geodetic_status: i32,
    array_x: String,
    array_y: String,
    array_z: String,
    centre_freq_hz: String,
    gst_deg: String,
    rdate: String,
    antenna_names: Vec<String>,
    positions: Vec<StationXyzText>,
) -> (r: Result<AntennaTable, ConversionError>)
    requires
        antenna_names@.len() == positions@.len(),
        antenna_names@.len() <= i32::MAX,
    ensures
        match r {
            Ok(t) => {
                &&& geodetic_status == 0
                &&& cards_view(t.cards@) == antenna_table_cards(
                    array_x@,
                    array_y@,
                    array_z@,
                    centre_freq_hz@,
                    gst_deg@,
                    rdate@,
                )
                &&& t.rows@.len() == antenna_names@.len()
                &&& forall|i: int|
                    0 <= i < t.rows@.len() ==> #[trigger] antenna_row_ok(
                        t.rows@[i],
                        i,
                        antenna_names@[i]@,
                        positions@[i],
                    )
            },
            Err(e) => e.status == geodetic_status && geodetic_status != 0,
        },
{
    if geodetic_status != 0 {
        return Err(ConversionError { status: geodetic_status });
    }
    let mut cards: Vec<HeaderCard> = Vec::new();
    push_real(&mut cards, "ARRAYX", array_x);
    push_real(&mut cards, "ARRAYY", array_y);
    push_real(&mut cards, "ARRAYZ", array_z);
    push_real(&mut cards, "FREQ", centre_freq_hz);
    push_real(&mut cards, "GSTIA0", gst_deg);
    push_real_str(&mut cards, "DEGPDY", "360.985");
    push_text(&mut cards, "RDATE", rdate);
    push_real_str(&mut cards, "POLARX", "0.0");
    push_real_str(&mut cards, "POLARY", "0.0");
    push_real_str(&mut cards, "UT1UTC", "0.0");
    push_real_str(&mut cards, "DATUTC", "0.0");
    push_text_str(&mut cards, "TIMSYS", "UTC");
    push_text_str(&mut cards, "ARRNAM", "MWA");
    push_int(&mut cards, "NUMORB", 0);
    push_int(&mut cards, "NOPCAL", 3);
    push_int(&mut cards, "FREQID", -1);
    push_real_str(&mut cards, "IATUTC", "33.0");
    push_text_str(&mut cards, "XYZHAND", "RIGHT");

    let ghost names_snapshot = antenna_names@;
    let ghost positions_snapshot = positions@;
    let mut rows: Vec<AntennaRow> = Vec::new();
    let n = antenna_names.len();
    let mut i: usize = 0;
    while i < n
        invariant
            i <= n,
            n == names_snapshot.len(),
            n <= i32::MAX,
            names_snapshot.len() == positions_snapshot.len(),
            antenna_names@ == names_snapshot,
            positions@ == positions_snapshot,
            rows@.len() == i,
            forall|k: int|
                0 <= k < i ==> #[trigger] antenna_row_ok(
                    rows@[k],
                    k,
                    names_snapshot[k]@,
                    positions_snapshot[k],
                ),
        decreases n - i,
    {
        let name = antenna_names[i].clone();
        let p = &positions[i];
        let position = StationXyzText { x: p.x.clone(), y: p.y.clone(), z: p.z.clone() };
        let row = AntennaRow {
            name,
            position,
            station_number: i as i32 + 1,
            mount: 0,
            pol_a_type: String::from_str("X"),
            pol_a_angle_deg: 0,
            pol_a_cal: 0,
            pol_b_type: String::from_str("Y"),
            pol_b_angle_deg: 90,
            pol_b_cal: 0,
        };
        rows.push(row);
        i = i + 1;
        proof {
            assert forall|k: int| 0 <= k < i implies #[trigger] antenna_row_ok(
                rows@[k],
                k,
                names_snapshot[k]@,
                positions_snapshot[k],
            ) by {
                if k < i - 1 {
                    assert(antenna_row_ok(
                        rows@[k],
                        k,
                        names_snapshot[k]@,
                        positions_snapshot[k],
                    ));
                }
            }
        }
    }
    proof {
        assert(cards_view(cards@) =~= antenna_table_cards(
            array_x@,
            array_y@,
            array_z@,
            centre_freq_hz@,
            gst_deg@,
            rdate@,
        ));
    }
    Ok(AntennaTable { cards, rows })
}

/// One channel's four complex visibilities as IEEE-754 bit patterns.
#[derive(Clone, Copy, Debug, PartialEq, Eq, Structural)]
pub struct ComplexBits {
    pub re: u32,
    pub im: u32,
}

/// Block `i` of the interleaved sample vector holds, per polarisation in
/// the fixed order XX, YY, XY, YX, the real part, the imaginary part and
/// the weight of channel `i`.
pub open spec fn pol_block_ok(
    out: Seq<u32>,
    i: int,
    xx: Seq<ComplexBits>,
    xy: Seq<ComplexBits>,
    yx: Seq<ComplexBits>,
    yy: Seq<ComplexBits>,
    wxx: Seq<u32>,
    wxy: Seq<u32>,
    wyx: Seq<u32>,
    wyy: Seq<u32>,
) -> bool {
    &&& out[12 * i] == xx[i].re
    &&& out[12 * i + 1] == xx[i].im
    &&& out[12 * i + 2] == wxx[i]
    &&& out[12 * i + 3] == yy[i].re
    &&& out[12 * i + 4] == yy[i].im
    &&& out[12 * i + 5] == wyy[i]
    &&& out[12 * i + 6] == xy[i].re
    &&& out[12 * i + 7] == xy[i].im
    &&& out[12 * i + 8] == wxy[i]
    &&& out[12 * i + 9] == yx[i].re
    &&& out[12 * i + 10] == yx[i].im
    &&& out[12 * i + 11] == wyx[i]
}

/// Interleaves per-channel polarisation samples and weights into the order
/// the container body expects: XX, YY, XY, YX per channel, each as real,
/// imaginary, weight.  Fails exactly when the eight columns differ in
/// length.
pub fn reorder_polarizations(
    xx: &Vec<ComplexBits>,
    xy: &Vec<ComplexBits>,
    yx: &Vec<ComplexBits>,
    yy: &Vec<ComplexBits>,
    wxx: &Vec<u32>,
    wxy: &Vec<u32>,
    wyx: &Vec<u32>,
    wyy: &Vec<u32>,
) -> (r: Result<Vec<u32>, ValueError>)
    ensures
        match r {
            Ok(out) => {
                &&& xy@.len() == xx@.len()
                &&& yx@.len() == xx@.len()
                &&& yy@.len() == xx@.len()
                &&& wxx@.len() == xx@.len()
                &&& wxy@.len() == xx@.len()
                &&& wyx@.len() == xx@.len()
                &&& wyy@.len() == xx@.len()
                &&& out@.len() == 12 * xx@.len()
                &&& forall|i: int|
                    0 <= i < xx@.len() ==> #[trigger] pol_block_ok(
                        out@,
                        i,
                        xx@,
                        xy@,
                        yx@,
                        yy@,
                        wxx@,
                        wxy@,
                        wyx@,
                        wyy@,
                    )
            },
            Err(ValueError::PolarisationLengthMismatch) => !(xy@.len() == xx@.len() && yx@.len()
                == xx@.len() && yy@.len() == xx@.len() && wxx@.len() == xx@.len() && wxy@.len()
                == xx@.len() && wyx@.len() == xx@.len() && wyy@.len() == xx@.len()),
            Err(_) => false,
        },
{
    let n = xx.len();
    if xy.len() != n || yx.len() != n || yy.len() != n || wxx.len() != n || wxy.len() != n
        || wyx.len() != n || wyy.len() != n {
        return Err(ValueError::PolarisationLengthMismatch);
    }
    let mut out: Vec<u32> = Vec::new();
    let mut i: usize = 0;
    while i < n
        invariant
            i <= n,
            n == xx@.len(),
            xy@.len() == n,
            yx@.len() == n,
            yy@.len() == n,
            wxx@.len() == n,
            wxy@.len() == n,
            wyx@.len() == n,
            wyy@.len() == n,
            out@.len() == 12 * i,
            forall|k: int|
                0 <= k < i ==> #[trigger] pol_block_ok(
                    out@,
                    k,
                    xx@,
                    xy@,
                    yx@,
                    yy@,
                    wxx@,
                    wxy@,
                    wyx@,
                    wyy@,
                ),
        decreases n - i,
    {
        let ghost out_prev = out@;
        out.push(xx[i].re);
        out.push(xx[i].im);
        out.push(wxx[i]);
        out.push(yy[i].re);
        out.push(yy[i].im);
        out.push(wyy[i]);
        out.push(xy[i].re);
        out.push(xy[i].im);
        out.push(wxy[i]);
        out.push(yx[i].re);
        out.push(yx[i].im);
        out.push(wyx[i]);
        i = i + 1;
        proof {
            assert forall|k: int| 0 <= k < i implies #[trigger] pol_block_ok(
                out@,
                k,
                xx@,
                xy@,
                yx@,
                yy@,
                wxx@,
                wxy@,
                wyx@,
                wyy@,
            ) by {
                if k < i - 1 {
                    assert(pol_block_ok(
                        out_prev,
                        k,
                        xx@,
                        xy@,
                        yx@,
                        yy@,
                        wxx@,
                        wxy@,
                        wyx@,
                        wyy@,
                    ));
                    assert(12 * k + 11 < out_prev.len());
                }
            }
        }
    }
    Ok(out)
}

/// A container body record: the five group parameters `(u, v, w, baseline,
/// date offset)` as 32-bit float patterns, followed by the interleaved
/// samples.
pub open spec fn vis_row_layout(
    uu: u32,
    vv: u32,
    ww: u32,
    baseline: u32,
    date_offset: u32,
    samples: Seq<u32>,
) -> Seq<u32> {
    seq![uu, vv, ww, baseline, date_offset] + samples
}

/// Assembles one body record.  The sample vector must hold
/// `channel_count * 4 * 3` values — three per polarisation per channel —
/// and the call fails exactly when it does not.
pub fn build_vis_row(
    uu: u32,
    vv: u32,
    ww: u32,
    baseline: u32,
    date_offset: u32,
    samples: &Vec<u32>,
    channel_count: u32,
) -> (r: Result<Vec<u32>, ValueError>)
    ensures
        match r {
            Ok(row) => samples@.len() == channel_count * 12 && row@ == vis_row_layout(
                uu,
                vv,
                ww,
                baseline,
                date_offset,
                samples@,
            ),
            Err(ValueError::SampleLengthMismatch) => samples@.len() != channel_count * 12,
            Err(_) => false,
        },
{
    if samples.len() as u64 != channel_count as u64 * 12 {
        return Err(ValueError::SampleLengthMismatch);
    }
    let mut row: Vec<u32> = Vec::new();
    row.push(uu);
    row.push(vv);
    row.push(ww);
    row.push(baseline);
    row.push(date_offset);
    let mut i: usize = 0;
    while i < samples.len()
        invariant
            i <= samples@.len(),
            row@.len() == 5 + i,
            row@ == seq![uu, vv, ww, baseline, date_offset] + samples@.take(i as int),
        decreases samples@.len() - i,
    {
        row.push(samples[i]);
        i = i + 1;
        proof {
            assert(samples@.take(i as int) =~= samples@.take(i as int - 1).push(
                samples@[i as int - 1],
            ));
            assert(row@ =~= seq![uu, vv, ww, baseline, date_offset] + samples@.take(i as int));
        }
    }
    proof {
        assert(samples@.take(samples@.len() as int) =~= samples@);
    }
    Ok(row)
}

} // verus!
