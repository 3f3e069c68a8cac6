//! RTS configuration files.
//!
//! [`RtsParams`] holds every value an RTS `.in` file carries, and
//! [`RtsParams::to_in_file`] renders the file's exact text.  Real-valued
//! settings live here as their rendered decimal text — the boundary formats
//! them once, and the layout below never interprets them.
//! [`rts_params`] is the decision core of the generator: it combines the
//! command-line options with what the caller read from a metafits file,
//! resolves every default, and reports the first missing input exactly as
//! [`first_error`] states.

use vstd::prelude::*;

use crate::numfmt::dec_digits;
use crate::numfmt::join_commas;
use crate::numfmt::join_commas_u8;
use crate::numfmt::mhz_chars;
use crate::numfmt::mhz_string;
use crate::numfmt::u64_to_string;

verus! {

/// The kind of RTS processing: direction-independent calibration (patch)
/// or direction-dependent calibration (peel) with its source counts.
#[derive(Clone, Copy, Debug, PartialEq, Eq, Structural)]
pub enum RtsMode {
    Patch,
    Peel {
        /// Number of sources used as ionospheric calibrators.
        num_cals: u32,
        /// Number of sources subtracted from the output.
        num_peel: u32,
    },
}

/// Everything an RTS `.in` file carries.  Fields that the RTS reads as
/// reals hold their rendered decimal text.
#[derive(Debug)]
pub struct RtsParams {
    pub mode: RtsMode,
    pub base_dir: String,
    pub base_filename: String,
    pub metafits: Option<String>,
    pub use_cotter_flags: bool,
    pub source_catalogue_file: String,
    pub do_rfi_flagging: bool,
    pub do_rx_corrections: bool,
    pub do_raw_data_corrections: bool,
    pub read_gpubox_direct: bool,
    pub read_all_from_single_file: bool,
    pub add_node_number_to_filename: bool,
    pub fee_beam_file: Option<String>,
    pub obsid: u32,
    pub obs_image_centre_ra: String,
    pub obs_image_centre_dec: String,
    pub obs_pointing_centre_ha: Option<String>,
    pub obs_pointing_centre_dec: Option<String>,
    pub corr_dump_time: String,
    pub corr_dumps_per_cadence: u32,
    pub num_integration_bins: u32,
    pub num_iterations: u32,
    pub fine_channel_width_mhz: String,
    pub num_fine_channels: u32,
    pub f_scrunch: u8,
    pub base_freq: String,
    pub subband_ids: Vec<u8>,
    pub num_primary_cals: u32,
    pub disable_srclist_vetos: bool,
    pub write_vis_to_uvfits: bool,
}

pub open spec fn mode_name(m: RtsMode) -> Seq<char> {
    match m {
        RtsMode::Patch => "patch"@,
        RtsMode::Peel { .. } => "peel"@,
    }
}

pub open spec fn bool01(b: bool) -> Seq<char> {
    if b {
        "1"@
    } else {
        "0"@
    }
}

pub open spec fn di_jones_text(m: RtsMode) -> Seq<char> {
    match m {
        RtsMode::Patch => "1"@,
        RtsMode::Peel { .. } => "0"@,
    }
}

pub open spec fn stored_cal_text(m: RtsMode) -> Seq<char> {
    match m {
        RtsMode::Patch => "0"@,
        RtsMode::Peel { .. } => "1"@,
    }
}

pub open spec fn metafits_text(m: Option<String>) -> Seq<char> {
    match m {
        Some(path) => "ReadMetafitsFile=1\nMetafitsFilename="@ + path@,
        None => "ReadMetafitsFile=0"@,
    }
}

pub open spec fn cotter_text(use_flags: bool, base_dir: Seq<char>, obsid: u32) -> Seq<char> {
    if use_flags {
        "ImportCotterFlags=1\nImportCotterBasename="@ + base_dir + "/RTS_"@ + dec_digits(
            obsid as nat,
        )
    } else {
        "ImportCotterFlags=0"@
    }
}

pub open spec fn beam_text(f: Option<String>) -> Seq<char> {
    match f {
        Some(path) => "// FEE beam\nTileBeamType=1\nhdf5Filename="@ + path@,
        None => "// Analytic beam\nuseFastPrimaryBeamModels=1"@,
    }
}

pub open spec fn ha_text(o: Option<String>) -> Seq<char> {
    match o {
        Some(ha) => "ObservationPointCentreHA="@ + ha@,
        None => "// ObservationPointCentreHA="@,
    }
}

pub open spec fn dec_text(o: Option<String>) -> Seq<char> {
    match o {
        Some(dec) => "ObservationPointCentreDec="@ + dec@,
        None => "// ObservationPointCentreDec="@,
    }
}

pub open spec fn peel_text(m: RtsMode) -> Seq<char> {
    match m {
        RtsMode::Patch => Seq::<char>::empty(),
        RtsMode::Peel { num_cals, num_peel } => {
            "UpdateCalibratorAmplitudes=1\nNumberOfIonoCalibrators="@ + dec_digits(num_cals as nat)
                + "\nNumberOfSourcesToPeel="@ + dec_digits(num_peel as nat)
        },
    }
}

/// The complete text of the `.in` file for parameters `p`, generated by
/// program version `version` at time `time` (UTC).
pub open spec fn rts_in_chars(p: RtsParams, version: Seq<char>, time: Seq<char>) -> Seq<char> {
    "// RTS in file to "@ + mode_name(p.mode) + " obsid "@ + dec_digits(p.obsid as nat)
        + "\n// Generated by mongoose v"@ + version + "\n// at "@ + time
        + " UTC\n\nFscrunchChan="@ + dec_digits(p.f_scrunch as nat) + "\n\nSubBandIDs="@
        + join_commas(p.subband_ids@)
        + "\n\nStartProcessingAt=0\n\nDoCalibration=1\ngenerateDIjones="@ + di_jones_text(p.mode)
        + "\nuseStoredCalibrationFiles="@ + stored_cal_text(p.mode)
        + "\napplyDIcalibration=1\n\nBaseFilename="@ + p.base_dir@ + "/"@ + p.base_filename@
        + "\n"@ + metafits_text(p.metafits) + "\n"@ + cotter_text(
        p.use_cotter_flags,
        p.base_dir@,
        p.obsid,
    ) + "\ndoRFIflagging="@ + bool01(p.do_rfi_flagging) + "\ndoMWArxCorrections="@ + bool01(
        p.do_rx_corrections,
    ) + "\ndoRawDataCorrections="@ + bool01(p.do_raw_data_corrections) + "\nReadGpuboxDirect="@
        + bool01(p.read_gpubox_direct) + "\nReadAllFromSingleFile="@ + bool01(
        p.read_all_from_single_file,
    ) + "\nAddNodeNumberToFilename="@ + bool01(p.add_node_number_to_filename)
        + "\nUsePacketInput=0\nUseThreadedVI=0\n\n"@ + beam_text(p.fee_beam_file)
        + "\n\nCorrDumpTime="@ + p.corr_dump_time@ + "\nCorrDumpsPerCadence="@ + dec_digits(
        p.corr_dumps_per_cadence as nat,
    ) + "\nNumberOfIntegrationBins="@ + dec_digits(p.num_integration_bins as nat)
        + "\nNumberOfIterations="@ + dec_digits(p.num_iterations as nat)
        + "\n\nObservationFrequencyBase="@ + p.base_freq@ + "\nNumberOfChannels="@ + dec_digits(
        p.num_fine_channels as nat,
    ) + "\nChannelBandwidth="@ + p.fine_channel_width_mhz@ + "\n\nObservationImageCentreRA="@
        + p.obs_image_centre_ra@ + "\nObservationImageCentreDec="@ + p.obs_image_centre_dec@
        + "\n// Set these if delays are not in the metafits or there is no metafits.\n"@ + ha_text(
        p.obs_pointing_centre_ha,
    ) + "\n"@ + dec_text(p.obs_pointing_centre_dec) + "\n\nSourceCatalogueFile="@
        + p.source_catalogue_file@ + "\nNumberOfCalibrators="@ + dec_digits(
        p.num_primary_cals as nat,
    ) + "\nDisableSourcelistVetos="@ + bool01(p.disable_srclist_vetos) + "\nwriteVisToUVFITS="@
        + bool01(p.write_vis_to_uvfits) + "\n"@ + peel_text(p.mode)
        + "\n\n// Magic follows.\n// MaxFrequency [MHz, float]: Used to set size of uv cells for gridding. Also\n// affects binning of baselines by setting maximum decorrelation. Default is 300\n// MHz.\nMaxFrequency=200\n\n// array_file.txt doesn't exist, but currently, the RTS will not run without it!\nArrayFile=array_file.txt\nArrayNumberOfStations=128\n\n// Heaven help you if you're not using the MWA.\nArrayPositionLat=-26.70331940\nArrayPositionLong=116.67081524\n\ncalBaselineMin=20.0\ncalShortBaselineTaper=40.0\n\n// ImageOversampling [float]: Sets oversampling of imaging pixel. Default value\n// is 3.\nImageOversampling=3\n\n// Store pixel beam weights along with intensity. Required if subsequently\n// integrating images using integrate_image utility. Images will be 4X greater\n// data volume.\nStorePixelMatrices=0\n\n"@
}

fn append_mode(s: &mut String, m: &RtsMode)
    ensures
        final(s)@ == old(s)@ + mode_name(*m),
{
    match m {
        RtsMode::Patch => s.append("patch"),
        RtsMode::Peel { .. } => s.append("peel"),
    }
}

fn append_bool01(s: &mut String, b: bool)
    ensures
        final(s)@ == old(s)@ + bool01(b),
{
    if b {
        s.append("1");
    } else {
        s.append("0");
    }
}

fn append_u32(s: &mut String, v: u32)
    ensures
        final(s)@ == old(s)@ + dec_digits(v as nat),
{
    let digits = u64_to_string(v as u64);
    s.append(digits.as_str());
}

fn append_metafits(s: &mut String, m: &Option<String>)
    ensures
        final(s)@ == old(s)@ + metafits_text(*m),
{
    match m {
        Some(path) => {
            s.append("ReadMetafitsFile=1\nMetafitsFilename=");
            s.append(path.as_str());
            proof {
                assert(s@ =~= old(s)@ + metafits_text(*m));
            }
        },
        None => {
            s.append("ReadMetafitsFile=0");
        },
    }
}

fn append_cotter(s: &mut String, use_flags: bool, base_dir: &String, obsid: u32)
    ensures
        final(s)@ == old(s)@ + cotter_text(use_flags, base_dir@, obsid),
{
    if use_flags {
        s.append("ImportCotterFlags=1\nImportCotterBasename=");
        s.append(base_dir.as_str());
        s.append("/RTS_");
        append_u32(s, obsid);
        proof {
            assert(s@ =~= old(s)@ + cotter_text(use_flags, base_dir@, obsid));
        }
    } else {
        s.append("ImportCotterFlags=0");
    }
}

fn append_beam(s: &mut String, f: &Option<String>)
    ensures
        final(s)@ == old(s)@ + beam_text(*f),
{
    match f {
        Some(path) => {
            s.append("// FEE beam\nTileBeamType=1\nhdf5Filename=");
            s.append(path.as_str());
            proof {
                assert(s@ =~= old(s)@ + beam_text(*f));
            }
        },
        None => {
            s.append("// Analytic beam\nuseFastPrimaryBeamModels=1");
        },
    }
}

fn append_ha(s: &mut String, o: &Option<String>)
    ensures
        final(s)@ == old(s)@ + ha_text(*o),
{
    match o {
        Some(ha) => {
            s.append("ObservationPointCentreHA=");
            s.append(ha.as_str());
            proof {
                assert(s@ =~= old(s)@ + ha_text(*o));
            }
        },
        None => {
            s.append("// ObservationPointCentreHA=");
        },
    }
}

fn append_dec(s: &mut String, o: &Option<String>)
    ensures
        final(s)@ == old(s)@ + dec_text(*o),
{
    match o {
        Some(dec) => {
            s.append("ObservationPointCentreDec=");
            s.append(dec.as_str());
            proof {
                assert(s@ =~= old(s)@ + dec_text(*o));
            }
        },
        None => {
            s.append("// ObservationPointCentreDec=");
        },
    }
}

fn append_peel(s: &mut String, m: &RtsMode)
    ensures
        final(s)@ == old(s)@ + peel_text(*m),
{
    match m {
        RtsMode::Patch => {
            proof {
                assert(s@ =~= old(s)@ + peel_text(*m));
            }
        },
        RtsMode::Peel { num_cals, num_peel } => {
            s.append("UpdateCalibratorAmplitudes=1\nNumberOfIonoCalibrators=");
            append_u32(s, *num_cals);
            s.append("\nNumberOfSourcesToPeel=");
            append_u32(s, *num_peel);
            proof {
                assert(s@ =~= old(s)@ + peel_text(*m));
            }
        },
    }
}

impl RtsParams {
    /// Renders the complete `.in` file text; `version` names the generating
    /// program's version and `generated_at` the wall-clock time the caller
    /// read, both of which only appear in the header comment.
    #[verifier::rlimit(100)]
    pub fn to_in_file(&self, version: &str, generated_at: &str) -> (s: String)
        ensures
            s@ == rts_in_chars(*self, version@, generated_at@),
    {
        let mut s = String::from_str("// RTS in file to ");
        append_mode(&mut s, &self.mode);
        s.append(" obsid ");
        append_u32(&mut s, self.obsid);
        s.append("\n// Generated by mongoose v");
        s.append(version);
        s.append("\n// at ");
        s.append(generated_at);
        s.append(" UTC\n\nFscrunchChan=");
        append_u32(&mut s, self.f_scrunch as u32);
        s.append("\n\nSubBandIDs=");
        let subbands = join_commas_u8(&self.subband_ids);
        s.append(subbands.as_str());
        s.append("\n\nStartProcessingAt=0\n\nDoCalibration=1\ngenerateDIjones=");
        match &self.mode {
            RtsMode::Patch => s.append("1"),
            RtsMode::Peel { .. } => s.append("0"),
        }
        s.append("\nuseStoredCalibrationFiles=");
        match &self.mode {
            RtsMode::Patch => s.append("0"),
            RtsMode::Peel { .. } => s.append("1"),
        }
        s.append("\napplyDIcalibration=1\n\nBaseFilename=");
        s.append(self.base_dir.as_str());
        s.append("/");
        s.append(self.base_filename.as_str());
        s.append("\n");
        append_metafits(&mut s, &self.metafits);
        s.append("\n");
        append_cotter(&mut s, self.use_cotter_flags, &self.base_dir, self.obsid);
        s.append("\ndoRFIflagging=");
        append_bool01(&mut s, self.do_rfi_flagging);
        s.append("\ndoMWArxCorrections=");
        append_bool01(&mut s, self.do_rx_corrections);
        s.append("\ndoRawDataCorrections=");
        append_bool01(&mut s, self.do_raw_data_corrections);
        s.append("\nReadGpuboxDirect=");
        append_bool01(&mut s, self.read_gpubox_direct);
        s.append("\nReadAllFromSingleFile=");
        append_bool01(&mut s, self.read_all_from_single_file);
        s.append("\nAddNodeNumberToFilename=");
        append_bool01(&mut s, self.add_node_number_to_filename);
        s.append("\nUsePacketInput=0\nUseThreadedVI=0\n\n");
        append_beam(&mut s, &self.fee_beam_file);
        s.append("\n\nCorrDumpTime=");
        s.append(self.corr_dump_time.as_str());
        s.append("\nCorrDumpsPerCadence=");
        append_u32(&mut s, self.corr_dumps_per_cadence);
        s.append("\nNumberOfIntegrationBins=");
        append_u32(&mut s, self.num_integration_bins);
        s.append("\nNumberOfIterations=");
        append_u32(&mut s, self.num_iterations);
        s.append("\n\nObservationFrequencyBase=");
        s.append(self.base_freq.as_str());
        s.append("\nNumberOfChannels=");
        append_u32(&mut s, self.num_fine_channels);
        s.append("\nChannelBandwidth=");
        s.append(self.fine_channel_width_mhz.as_str());
        s.append("\n\nObservationImageCentreRA=");
        s.append(self.obs_image_centre_ra.as_str());
        s.append("\nObservationImageCentreDec=");
        s.append(self.obs_image_centre_dec.as_str());
        s.append("\n// Set these if delays are not in the metafits or there is no metafits.\n");
        append_ha(&mut s, &self.obs_pointing_centre_ha);
        s.append("\n");
        append_dec(&mut s, &self.obs_pointing_centre_dec);
        s.append("\n\nSourceCatalogueFile=");
        s.append(self.source_catalogue_file.as_str());
        s.append("\nNumberOfCalibrators=");
        append_u32(&mut s, self.num_primary_cals);
        s.append("\nDisableSourcelistVetos=");
        append_bool01(&mut s, self.disable_srclist_vetos);
        s.append("\nwriteVisToUVFITS=");
        append_bool01(&mut s, self.write_vis_to_uvfits);
        s.append("\n");
        append_peel(&mut s, &self.mode);
        s.append(
            "\n\n// Magic follows.\n// MaxFrequency [MHz, float]: Used to set size of uv cells for gridding. Also\n// affects binning of baselines by setting maximum decorrelation. Default is 300\n// MHz.\nMaxFrequency=200\n\n// array_file.txt doesn't exist, but currently, the RTS will not run without it!\nArrayFile=array_file.txt\nArrayNumberOfStations=128\n\n// Heaven help you if you're not using the MWA.\nArrayPositionLat=-26.70331940\nArrayPositionLong=116.67081524\n\ncalBaselineMin=20.0\ncalShortBaselineTaper=40.0\n\n// ImageOversampling [float]: Sets oversampling of imaging pixel. Default value\n// is 3.\nImageOversampling=3\n\n// Store pixel beam weights along with intensity. Required if subsequently\n// integrating images using integrate_image utility. Images will be 4X greater\n// data volume.\nStorePixelMatrices=0\n\n",
        );
        proof {
            assert(s@ == rts_in_chars(*self, version@, generated_at@));
        }
        s
    }
}

/// A real-valued command-line option as the boundary hands it over: its
/// rendered decimal text and whether the value is zero.
pub struct RealText {
    pub text: String,
    pub is_zero: bool,
}

/// What the caller read from a metafits file, as plain values.  The
/// right-ascension candidates arrive already converted to decimal hours
/// (divided by 15) and rendered; declinations are rendered degrees.
pub struct MetafitsInfo {
    pub obsid: u32,
    pub integration_time_ms: u64,
    pub fine_channel_width_hz: u32,
    pub centre_freq_hz: u64,
    pub bandwidth_hz: u64,
    pub ra_phase_centre: Option<String>,
    pub ra_tile_pointing: String,
    pub dec_phase_centre: Option<String>,
    pub dec_tile_pointing: String,
    pub gpubox_numbers: Vec<u8>,
}

/// The selected mode and its mode-specific knobs.
pub enum RtsJob {
    Patch { num_primary_cals: u32, num_iterations: u32, write_vis_to_uvfits: bool },
    Peel {
        num_cals: u32,
        num_peel: Option<u32>,
        num_primary_cals: u32,
        num_iterations: u32,
        dont_write_vis_to_uvfits: bool,
    },
}

/// The command-line options of the generator, as plain values.
/// `beam_file_env` carries the beam-file environment variable's value,
/// which the caller read; `force_ra` arrives already divided by 15.
pub struct RtsOptions {
    pub job: RtsJob,
    pub base_dir: String,
    pub base_filename: String,
    pub metafits: Option<String>,
    pub srclist: String,
    pub no_cotter_flags: bool,
    pub rts_rfi_flagging: bool,
    pub add_node_number: bool,
    pub dont_rx_correct: bool,
    pub dont_correct_raw_data: bool,
    pub dont_read_gpubox_direct: bool,
    pub dont_read_all_from_single_file: bool,
    pub use_fee_beam: bool,
    pub fee_beam_file: Option<String>,
    pub beam_file_env: Option<String>,
    pub obsid: Option<u32>,
    pub corr_dump_time: Option<RealText>,
    pub corr_dumps_per_cadence: Option<u32>,
    pub num_integration_bins: Option<u32>,
    pub base_freq: Option<String>,
    pub num_fine_chans: Option<u32>,
    pub fine_chan_width: Option<String>,
    pub subband_ids: Option<Vec<u8>>,
    pub force_ra: Option<String>,
    pub force_dec: Option<String>,
    pub ha_pointing_centre: Option<String>,
    pub dec_pointing_centre: Option<String>,
    pub fscrunch: u8,
    pub disable_srclist_vetos: bool,
}

/// An input the generator cannot do without.
#[derive(Clone, Copy, Debug, PartialEq, Eq, Structural)]
pub enum RtsError {
    /// The FEE beam was requested but neither an explicit beam file nor the
    /// environment variable supplies one.
    NoBeamFile,
    /// Neither an observation id nor a metafits file was given.
    NoObsid,
    /// A timing field is zero: the integration time is not one the built-in
    /// table handles and no override was given, or an override is zero.
    TimingIncomplete,
    /// Neither a fine-channel count nor a metafits file was given.
    NoFineChannelCount,
    /// The metafits fine-channel width is not one the built-in table maps
    /// to a channel count.
    UnhandledFineChannelWidth,
    /// Neither a fine-channel width nor a metafits file was given.
    NoFineChannelWidth,
    /// Neither a base frequency nor a metafits file was given.
    NoBaseFrequency,
    /// Neither a forced right ascension nor a metafits file was given.
    NoRaPointing,
    /// Neither a forced declination nor a metafits file was given.
    NoDecPointing,
    /// Without a metafits file, both pointing-centre coordinates must be
    /// given.
    NoPointingCentre,
    /// Neither subband ids nor a metafits file was given.
    NoSubbands,
}

pub open spec fn is_patch(j: RtsJob) -> bool {
    j is Patch
}

pub open spec fn beam_missing(o: RtsOptions) -> bool {
    o.use_fee_beam && o.fee_beam_file is None && o.beam_file_env is None
}

pub open spec fn known_integration_time(info: Option<MetafitsInfo>) -> bool {
    match info {
        Some(i) => i.integration_time_ms == 500 || i.integration_time_ms == 1000
            || i.integration_time_ms == 2000,
        None => false,
    }
}

pub open spec fn table_corr_dump_time(info: Option<MetafitsInfo>) -> Seq<char> {
    match info {
        Some(i) => if i.integration_time_ms == 500 {
            "0.5"@
        } else if i.integration_time_ms == 1000 {
            "1"@
        } else if i.integration_time_ms == 2000 {
            "2"@
        } else {
            "0"@
        },
        None => "0"@,
    }
}

pub open spec fn table_cdpc(info: Option<MetafitsInfo>, patch: bool) -> u32 {
    match info {
        Some(i) => if i.integration_time_ms == 500 {
            if patch {
                128u32
            } else {
                16u32
            }
        } else if i.integration_time_ms == 1000 {
            if patch {
                64u32
            } else {
                8u32
            }
        } else if i.integration_time_ms == 2000 {
            if patch {
                32u32
            } else {
                4u32
            }
        } else {
            0u32
        },
        None => 0u32,
    }
}

pub open spec fn table_bins(info: Option<MetafitsInfo>, patch: bool) -> u32 {
    match info {
        Some(i) => if i.integration_time_ms == 500 {
            if patch {
                7u32
            } else {
                5u32
            }
        } else if i.integration_time_ms == 1000 {
            if patch {
                7u32
            } else {
                3u32
            }
        } else if i.integration_time_ms == 2000 {
            if patch {
                6u32
            } else {
                3u32
            }
        } else {
            0u32
        },
        None => 0u32,
    }
}

pub open spec fn chosen_corr_dump_time(o: RtsOptions, info: Option<MetafitsInfo>) -> Seq<char> {
    match o.corr_dump_time {
        Some(rt) => rt.text@,
        None => table_corr_dump_time(info),
    }
}

pub open spec fn corr_dump_time_zero(o: RtsOptions, info: Option<MetafitsInfo>) -> bool {
    match o.corr_dump_time {
        Some(rt) => rt.is_zero,
        None => !known_integration_time(info),
    }
}

pub open spec fn chosen_cdpc(o: RtsOptions, info: Option<MetafitsInfo>) -> u32 {
    match o.corr_dumps_per_cadence {
        Some(c) => c,
        None => table_cdpc(info, is_patch(o.job)),
    }
}

pub open spec fn chosen_bins(o: RtsOptions, info: Option<MetafitsInfo>) -> u32 {
    match o.num_integration_bins {
        Some(c) => c,
        None => table_bins(info, is_patch(o.job)),
    }
}

pub open spec fn timing_incomplete(o: RtsOptions, info: Option<MetafitsInfo>) -> bool {
    ||| corr_dump_time_zero(o, info)
    ||| (match o.corr_dumps_per_cadence {
        Some(c) => c == 0,
        None => !known_integration_time(info),
    })
    ||| (match o.num_integration_bins {
        Some(c) => c == 0,
        None => !known_integration_time(info),
    })
}

pub open spec fn known_channel_width(info: Option<MetafitsInfo>) -> bool {
    match info {
        Some(i) => i.fine_channel_width_hz == 40000 || i.fine_channel_width_hz == 20000
            || i.fine_channel_width_hz == 10000,
        None => false,
    }
}

pub open spec fn chosen_num_fine_channels(o: RtsOptions, info: Option<MetafitsInfo>) -> u32 {
    match o.num_fine_chans {
        Some(n) => n,
        None => match info {
            Some(i) => if i.fine_channel_width_hz == 40000 {
                32u32
            } else if i.fine_channel_width_hz == 20000 {
                64u32
            } else if i.fine_channel_width_hz == 10000 {
                128u32
            } else {
                0u32
            },
            None => 0u32,
        },
    }
}

pub open spec fn chosen_fine_channel_width(o: RtsOptions, info: Option<MetafitsInfo>) -> Seq<
    char,
> {
    match o.fine_chan_width {
        Some(t) => t@,
        None => match info {
            Some(i) => mhz_chars(i.fine_channel_width_hz as nat),
            None => Seq::<char>::empty(),
        },
    }
}

/// The base frequency in hertz a metafits implies: the frequency at the
/// middle of the lowest fine channel.
pub open spec fn metafits_base_freq_hz(i: MetafitsInfo) -> int {
    i.centre_freq_hz - i.bandwidth_hz / 2 - i.fine_channel_width_hz / 2
}

pub open spec fn chosen_base_freq(o: RtsOptions, info: Option<MetafitsInfo>) -> Seq<char> {
    match o.base_freq {
        Some(t) => t@,
        None => match info {
            Some(i) => mhz_chars(metafits_base_freq_hz(i) as nat),
            None => Seq::<char>::empty(),
        },
    }
}

pub open spec fn chosen_ra(o: RtsOptions, info: Option<MetafitsInfo>) -> Seq<char> {
    match o.force_ra {
        Some(r) => r@,
        None => match info {
            Some(i) => match i.ra_phase_centre {
                Some(v) => v@,
                None => i.ra_tile_pointing@,
            },
            None => Seq::<char>::empty(),
        },
    }
}

pub open spec fn chosen_dec(o: RtsOptions, info: Option<MetafitsInfo>) -> Seq<char> {
    match o.force_dec {
        Some(r) => r@,
        None => match info {
            Some(i) => match i.dec_phase_centre {
                Some(v) => v@,
                None => i.dec_tile_pointing@,
            },
            None => Seq::<char>::empty(),
        },
    }
}

pub open spec fn chosen_obsid(o: RtsOptions, info: Option<MetafitsInfo>) -> u32 {
    match o.obsid {
        Some(x) => x,
        None => match info {
            Some(i) => i.obsid,
            None => 0u32,
        },
    }
}

pub open spec fn chosen_mode(j: RtsJob) -> RtsMode {
    match j {
        RtsJob::Patch { .. } => RtsMode::Patch,
        RtsJob::Peel { num_cals, num_peel, .. } => RtsMode::Peel {
            num_cals,
            num_peel: match num_peel {
                Some(p) => p,
                None => num_cals,
            },
        },
    }
}

pub open spec fn chosen_num_primary_cals(j: RtsJob) -> u32 {
    match j {
        RtsJob::Patch { num_primary_cals, .. } => num_primary_cals,
        RtsJob::Peel { num_cals, num_primary_cals, .. } => if num_primary_cals < num_cals {
            num_primary_cals
        } else {
            num_cals
        },
    }
}

pub open spec fn chosen_num_iterations(j: RtsJob) -> u32 {
    match j {
        RtsJob::Patch { num_iterations, .. } => num_iterations,
        RtsJob::Peel { num_iterations, .. } => num_iterations,
    }
}

pub open spec fn chosen_write_vis(j: RtsJob) -> bool {
    match j {
        RtsJob::Patch { write_vis_to_uvfits, .. } => write_vis_to_uvfits,
        RtsJob::Peel { dont_write_vis_to_uvfits, .. } => !dont_write_vis_to_uvfits,
    }
}

pub open spec fn chosen_beam_file(o: RtsOptions) -> Option<Seq<char>> {
    if !o.use_fee_beam {
        None
    } else {
        match o.fee_beam_file {
            Some(f) => Some(f@),
            None => match o.beam_file_env {
                Some(e) => Some(e@),
                None => None,
            },
        }
    }
}

pub open spec fn opt_text(x: Option<String>) -> Option<Seq<char>> {
    match x {
        Some(t) => Some(t@),
        None => None,
    }
}

/// The first missing input [`rts_params`] reports, in the order the checks
/// run; `None` when every required value can be resolved.
pub open spec fn first_error(o: RtsOptions, info: Option<MetafitsInfo>) -> Option<RtsError> {
    if beam_missing(o) {
        Some(RtsError::NoBeamFile)
    } else if o.obsid is None && info is None {
        Some(RtsError::NoObsid)
    } else if timing_incomplete(o, info) {
        Some(RtsError::TimingIncomplete)
    } else if o.num_fine_chans is None && info is None {
        Some(RtsError::NoFineChannelCount)
    } else if o.num_fine_chans is None && !known_channel_width(info) {
        Some(RtsError::UnhandledFineChannelWidth)
    } else if o.fine_chan_width is None && info is None {
        Some(RtsError::NoFineChannelWidth)
    } else if o.base_freq is None && info is None {
        Some(RtsError::NoBaseFrequency)
    } else if o.force_ra is None && info is None {
        Some(RtsError::NoRaPointing)
    } else if o.force_dec is None && info is None {
        Some(RtsError::NoDecPointing)
    } else if o.metafits is None && !(o.ha_pointing_centre is Some
        && o.dec_pointing_centre is Some) {
        Some(RtsError::NoPointingCentre)
    } else if o.subband_ids is None && info is None {
        Some(RtsError::NoSubbands)
    } else {
        None
    }
}

/// The subband ids are ascending.
pub open spec fn sorted_u8(s: Seq<u8>) -> bool {
    forall|i: int, j: int| 0 <= i < j < s.len() ==> s[i] <= s[j]
}

/// How many of the first `t` elements of `s` equal `x`.
pub open spec fn count_prefix(s: Seq<u8>, x: u8, t: nat) -> nat
    decreases t,
{
    if t == 0 {
        0
    } else {
        count_prefix(s, x, (t - 1) as nat) + if s[t - 1] == x {
            1nat
        } else {
            0nat
        }
    }
}

/// How many elements of `s` equal `x`.
pub open spec fn count_of(s: Seq<u8>, x: u8) -> nat {
    count_prefix(s, x, s.len())
}

proof fn lemma_count_prefix_le(s: Seq<u8>, x: u8, t: nat)
    ensures
        count_prefix(s, x, t) <= t,
    decreases t,
{
    if t > 0 {
        lemma_count_prefix_le(s, x, (t - 1) as nat);
    }
}

/// Sorts a byte vector ascending; the result holds exactly the same
/// values, with multiplicity.
pub fn sort_u8(v: &Vec<u8>) -> (r: Vec<u8>)
    ensures
        sorted_u8(r@),
        r@.len() == v@.len(),
        forall|x: u8| count_of(r@, x) == count_of(v@, x),
{
    let ghost src = v@;
    // First pass: one counter per possible byte value.
    let mut counts: Vec<usize> = Vec::new();
    let mut z: usize = 0;
    while z < 256
        invariant
            z <= 256,
            counts@.len() == z,
            forall|y: int| 0 <= y < z ==> counts@[y] == 0,
        decreases 256 - z,
    {
        counts.push(0);
        z = z + 1;
    }
    let mut t: usize = 0;
    while t < v.len()
        invariant
            t <= v@.len(),
            v@ == src,
            counts@.len() == 256,
            forall|y: int|
                0 <= y < 256 ==> counts@[y] == count_prefix(src, y as u8, t as nat),
        decreases v@.len() - t,
    {
        proof {
            assert forall|y: u8| count_prefix(src, y, t as nat) <= t by {
                lemma_count_prefix_le(src, y, t as nat);
            }
        }
        let b = v[t];
        let cur = counts[b as usize];
        counts[b as usize] = cur + 1;
        t = t + 1;
        proof {
            assert forall|y: int| 0 <= y < 256 implies counts@[y] == count_prefix(
                src,
                y as u8,
                t as nat,
            ) by {
                assert(count_prefix(src, y as u8, t as nat) == count_prefix(
                    src,
                    y as u8,
                    (t - 1) as nat,
                ) + if src[t - 1] == y as u8 {
                    1nat
                } else {
                    0nat
                });
            }
        }
    }
    // Second pass: emit each value as often as it was counted.
    let mut out: Vec<u8> = Vec::new();
    let mut x: usize = 0;
    while x < 256
        invariant
            x <= 256,
            v@ == src,
            counts@.len() == 256,
            forall|y: int|
                0 <= y < 256 ==> counts@[y] == count_prefix(src, y as u8, src.len()),
            out@.len() == sum_counts_upto(src, x as nat),
            sorted_u8(out@),
            forall|k: int| 0 <= k < out@.len() ==> (out@[k] as int) < x,
            forall|y: u8| y < x ==> count_of(out@, y) == count_of(src, y),
            forall|y: u8| y >= x ==> count_of(out@, y) == 0,
        decreases 256 - x,
    {
        let target = counts[x];
        let ghost x0 = x as nat;
        let ghost out_before = out@;
        proof {
            lemma_count_prefix_le(src, x as u8, src.len());
            assert(sum_counts_upto(src, x0 + 1) == sum_counts_upto(src, x0) + count_of(
                src,
                x as u8,
            ));
            lemma_sum_counts_mono(src, x0 + 1, 256);
            lemma_sum_counts_total(src);
        }
        let mut emitted: usize = 0;
        while emitted < target
            invariant
                x < 256,
                emitted <= target,
                target == count_prefix(src, x as u8, src.len()),
                target <= src.len(),
                x0 == x as nat,
                out@.len() == out_before.len() + emitted,
                out@.len() + (target - emitted) <= src.len(),
                sorted_u8(out@),
                forall|k: int| 0 <= k < out@.len() ==> (out@[k] as int) <= x,
                forall|y: u8| y < x ==> count_of(out@, y) == count_of(src, y),
                forall|y: u8| y > x ==> count_of(out@, y) == 0,
                count_of(out@, x as u8) == emitted,
            decreases target - emitted,
        {
            let ghost out_prev = out@;
            out.push(x as u8);
            emitted = emitted + 1;
            proof {
                assert(out@ == out_prev.push(x as u8));
                assert forall|y: u8| #[trigger] count_of(out@, y) == count_of(out_prev, y)
                    + if y == x as u8 {
                    1nat
                } else {
                    0nat
                } by {
                    assert(out@.len() == out_prev.len() + 1);
                    assert(count_prefix(out@, y, out@.len()) == count_prefix(
                        out@,
                        y,
                        (out@.len() - 1) as nat,
                    ) + if out@[out@.len() - 1] == y {
                        1nat
                    } else {
                        0nat
                    });
                    lemma_count_prefix_frame(out_prev, out@, y, out_prev.len());
                }
            }
        }
        x = x + 1;
        proof {
            assert(out@.len() == out_before.len() + target);
            assert(sum_counts_upto(src, x as nat) == sum_counts_upto(src, x0) + count_of(
                src,
                x0 as u8,
            ));
            assert(out@.len() == sum_counts_upto(src, x as nat));
            assert forall|y: u8| y < x implies count_of(out@, y) == count_of(src, y) by {
                if y == (x - 1) as u8 {
                    assert(count_of(out@, y) == count_prefix(src, y, src.len()));
                }
            }
        }
    }
    proof {
        assert forall|y: u8| count_of(out@, y) == count_of(src, y) by {
            assert((y as int) < 256);
        }
        assert(out@.len() == sum_counts_upto(src, 256));
        lemma_sum_counts_total(src);
    }
    out
}

/// Two sequences that agree on a prefix count the same values there.
proof fn lemma_count_prefix_frame(a: Seq<u8>, b: Seq<u8>, x: u8, t: nat)
    requires
        t <= a.len(),
        t <= b.len(),
        forall|k: int| 0 <= k < t ==> a[k] == b[k],
    ensures
        count_prefix(a, x, t) == count_prefix(b, x, t),
    decreases t,
{
    if t > 0 {
        lemma_count_prefix_frame(a, b, x, (t - 1) as nat);
    }
}

/// The summed counts of the first `x` byte values of `s`.
pub open spec fn sum_counts_upto(s: Seq<u8>, x: nat) -> nat
    decreases x,
{
    if x == 0 {
        0
    } else {
        sum_counts_upto(s, (x - 1) as nat) + count_of(s, (x - 1) as u8)
    }
}

proof fn lemma_sum_counts_empty(s: Seq<u8>, x: nat)
    requires
        s.len() == 0,
    ensures
        sum_counts_upto(s, x) == 0,
    decreases x,
{
    if x > 0 {
        lemma_sum_counts_empty(s, (x - 1) as nat);
    }
}

proof fn lemma_sum_counts_push(s: Seq<u8>, e: u8, x: nat)
    requires
        x <= 256,
    ensures
        sum_counts_upto(s.push(e), x) == sum_counts_upto(s, x) + if (e as nat) < x {
            1nat
        } else {
            0nat
        },
    decreases x,
{
    if x > 0 {
        lemma_sum_counts_push(s, e, (x - 1) as nat);
        let y = (x - 1) as u8;
        let t = s.push(e);
        assert(t.len() == s.len() + 1);
        assert(count_prefix(t, y, t.len()) == count_prefix(t, y, (t.len() - 1) as nat) + if t[t.len()
            - 1] == y {
            1nat
        } else {
            0nat
        });
        lemma_count_prefix_frame(s, t, y, s.len());
    }
}

/// The counts of all 256 byte values sum to the sequence's length.
proof fn lemma_sum_counts_total(s: Seq<u8>)
    ensures
        sum_counts_upto(s, 256) == s.len(),
    decreases s.len(),
{
    if s.len() == 0 {
        lemma_sum_counts_empty(s, 256);
    } else {
        let s0 = s.drop_last();
        lemma_sum_counts_total(s0);
        lemma_sum_counts_push(s0, s.last(), 256);
        assert(s0.push(s.last()) =~= s);
    }
}

proof fn lemma_sum_counts_mono(s: Seq<u8>, x1: nat, x2: nat)
    requires
        x1 <= x2,
    ensures
        sum_counts_upto(s, x1) <= sum_counts_upto(s, x2),
    decreases x2,
{
    if x1 < x2 {
        lemma_sum_counts_mono(s, x1, (x2 - 1) as nat);
    }
}

/// Resolves the command-line options and the metafits values into complete
/// RTS parameters, or reports the first missing input.
pub fn rts_params(opts: RtsOptions, info: Option<MetafitsInfo>) -> (r: Result<RtsParams, RtsError>)
    requires
        opts.metafits is Some <==> info is Some,
        (opts.base_freq is None && info is Some) ==> {
            let i = info->Some_0;
            i.centre_freq_hz >= i.bandwidth_hz / 2 + i.fine_channel_width_hz / 2
        },
    ensures
        match r {
            Ok(p) => {
                &&& first_error(opts, info) is None
                &&& p.mode == chosen_mode(opts.job)
                &&& p.base_dir@ == opts.base_dir@
                &&& p.base_filename@ == opts.base_filename@
                &&& opt_text(p.metafits) == opt_text(opts.metafits)
                &&& p.use_cotter_flags == !opts.no_cotter_flags
                &&& p.source_catalogue_file@ == opts.srclist@
                &&& p.do_rfi_flagging == opts.rts_rfi_flagging
                &&& p.do_rx_corrections == !opts.dont_rx_correct
                &&& p.do_raw_data_corrections == !opts.dont_correct_raw_data
                &&& p.read_gpubox_direct == !opts.dont_read_gpubox_direct
                &&& p.read_all_from_single_file == !opts.dont_read_all_from_single_file
                &&& p.add_node_number_to_filename == opts.add_node_number
                &&& opt_text(p.fee_beam_file) == chosen_beam_file(opts)
                &&& p.obsid == chosen_obsid(opts, info)
                &&& p.obs_image_centre_ra@ == chosen_ra(opts, info)
                &&& p.obs_image_centre_dec@ == chosen_dec(opts, info)
                &&& opt_text(p.obs_pointing_centre_ha) == (if opts.metafits is Some {
                    None::<Seq<char>>
                } else {
                    opt_text(opts.ha_pointing_centre)
                })
                &&& opt_text(p.obs_pointing_centre_dec) == (if opts.metafits is Some {
                    None::<Seq<char>>
                } else {
                    opt_text(opts.dec_pointing_centre)
                })
                &&& p.corr_dump_time@ == chosen_corr_dump_time(opts, info)
                &&& p.corr_dumps_per_cadence == chosen_cdpc(opts, info)
                &&& p.num_integration_bins == chosen_bins(opts, info)
                &&& p.num_iterations == chosen_num_iterations(opts.job)
                &&& p.fine_channel_width_mhz@ == chosen_fine_channel_width(opts, info)
                &&& p.num_fine_channels == chosen_num_fine_channels(opts, info)
                &&& p.f_scrunch == opts.fscrunch
                &&& p.base_freq@ == chosen_base_freq(opts, info)
                &&& (match opts.subband_ids {
                    Some(s) => p.subband_ids@ == s@,
                    None => {
                        &&& sorted_u8(p.subband_ids@)
                        &&& info matches Some(i) ==> {
                            &&& p.subband_ids@.len() == i.gpubox_numbers@.len()
                            &&& forall|y: u8|
                                count_of(p.subband_ids@, y) == count_of(i.gpubox_numbers@, y)
                        }
                    },
                })
                &&& p.num_primary_cals == chosen_num_primary_cals(opts.job)
                &&& p.disable_srclist_vetos == opts.disable_srclist_vetos
                &&& p.write_vis_to_uvfits == chosen_write_vis(opts.job)
            },
            Err(e) => first_error(opts, info) == Some(e),
        },
{
    // Resolve the beam file: the explicit path wins, then the environment.
    let fee_beam_file: Option<String> = if opts.use_fee_beam {
        match opts.fee_beam_file {
            Some(f) => Some(f),
            None => match opts.beam_file_env {
                Some(e) => Some(e),
                None => {
                    return Err(RtsError::NoBeamFile);
                },
            },
        }
    } else {
        None
    };

    let obsid: u32 = match (opts.obsid, &info) {
        (Some(x), _) => x,
        (None, Some(i)) => i.obsid,
        (None, None) => {
            return Err(RtsError::NoObsid);
        },
    };

    // Timing: the built-in table keyed by the integration time, then any
    // command-line overrides.
    let known: bool = match &info {
        Some(i) => i.integration_time_ms == 500 || i.integration_time_ms == 1000
            || i.integration_time_ms == 2000,
        None => false,
    };
    let patch: bool = match &opts.job {
        RtsJob::Patch { .. } => true,
        RtsJob::Peel { .. } => false,
    };
    let (corr_dump_time, cdt_zero): (String, bool) = match opts.corr_dump_time {
        Some(rt) => (rt.text, rt.is_zero),
        None => match &info {
            Some(i) => if i.integration_time_ms == 500 {
                (String::from_str("0.5"), false)
            } else if i.integration_time_ms == 1000 {
                (String::from_str("1"), false)
            } else if i.integration_time_ms == 2000 {
                (String::from_str("2"), false)
            } else {
                (String::from_str("0"), true)
            },
            None => (String::from_str("0"), true),
        },
    };
    let cdpc: u32 = match opts.corr_dumps_per_cadence {
        Some(c) => c,
        None => match &info {
            Some(i) => if i.integration_time_ms == 500 {
                if patch {
                    128
                } else {
                    16
                }
            } else if i.integration_time_ms == 1000 {
                if patch {
                    64
                } else {
                    8
                }
            } else if i.integration_time_ms == 2000 {
                if patch {
                    32
                } else {
                    4
                }
            } else {
                0
            },
            None => 0,
        },
    };
    let bins: u32 = match opts.num_integration_bins {
        Some(c) => c,
        None => match &info {
            Some(i) => if i.integration_time_ms == 500 {
                if patch {
                    7
                } else {
                    5
                }
            } else if i.integration_time_ms == 1000 {
                if patch {
                    7
                } else {
                    3
                }
            } else if i.integration_time_ms == 2000 {
                if patch {
                    6
                } else {
                    3
                }
            } else {
                0
            },
            None => 0,
        },
    };
    if cdt_zero || cdpc == 0 || bins == 0 {
        return Err(RtsError::TimingIncomplete);
    }

    let num_fine_channels: u32 = match opts.num_fine_chans {
        Some(n) => n,
        None => match &info {
            Some(i) => if i.fine_channel_width_hz == 40000 {
                32
            } else if i.fine_channel_width_hz == 20000 {
                64
            } else if i.fine_channel_width_hz == 10000 {
                128
            } else {
                return Err(RtsError::UnhandledFineChannelWidth);
            },
            None => {
                return Err(RtsError::NoFineChannelCount);
            },
        },
    };

    let fine_channel_width_mhz: String = match opts.fine_chan_width {
        Some(t) => t,
        None => match &info {
            Some(i) => mhz_string(i.fine_channel_width_hz as u64),
            None => {
                return Err(RtsError::NoFineChannelWidth);
            },
        },
    };

    let base_freq: String = match opts.base_freq {
        Some(t) => t,
        None => match &info {
            Some(i) => {
                let hz: u64 = i.centre_freq_hz - i.bandwidth_hz / 2 - (i.fine_channel_width_hz
                    as u64) / 2;
                mhz_string(hz)
            },
            None => {
                return Err(RtsError::NoBaseFrequency);
            },
        },
    };

    let obs_image_centre_ra: String = match opts.force_ra {
        Some(r) => r,
        None => match &info {
            Some(i) => match &i.ra_phase_centre {
                Some(v) => v.clone(),
                None => i.ra_tile_pointing.clone(),
            },
            None => {
                return Err(RtsError::NoRaPointing);
            },
        },
    };

    let obs_image_centre_dec: String = match opts.force_dec {
        Some(r) => r,
        None => match &info {
            Some(i) => match &i.dec_phase_centre {
                Some(v) => v.clone(),
                None => i.dec_tile_pointing.clone(),
            },
            None => {
                return Err(RtsError::NoDecPointing);
            },
        },
    };

    // With a metafits the RTS reads the pointing centre itself; without
    // one, both coordinates must be given.
    let (obs_pointing_centre_ha, obs_pointing_centre_dec): (Option<String>, Option<String>) =
        if opts.metafits.is_some() {
        (None, None)
    } else {
        match (opts.ha_pointing_centre, opts.dec_pointing_centre) {
            (Some(ha), Some(dec)) => (Some(ha), Some(dec)),
            _ => {
                return Err(RtsError::NoPointingCentre);
            },
        }
    };

    let subband_ids: Vec<u8> = match opts.subband_ids {
        Some(s) => s,
        None => match &info {
            Some(i) => sort_u8(&i.gpubox_numbers),
            None => {
                return Err(RtsError::NoSubbands);
            },
        },
    };

    let (mode, num_primary_cals, num_iterations, write_vis_to_uvfits): (RtsMode, u32, u32, bool) =
        match opts.job {
        RtsJob::Patch { num_primary_cals, num_iterations, write_vis_to_uvfits } => (
            RtsMode::Patch,
            num_primary_cals,
            num_iterations,
            write_vis_to_uvfits,
        ),
        RtsJob::Peel {
            num_cals,
            num_peel,
            num_primary_cals,
            num_iterations,
            dont_write_vis_to_uvfits,
        } => (
            RtsMode::Peel {
                num_cals,
                num_peel: match num_peel {
                    Some(p) => p,
                    None => num_cals,
                },
            },
            if num_primary_cals < num_cals {
                num_primary_cals
            } else {
                num_cals
            },
            num_iterations,
            !dont_write_vis_to_uvfits,
        ),
    };

    Ok(
        RtsParams {
            mode,
            base_dir: opts.base_dir,
            base_filename: opts.base_filename,
            metafits: opts.metafits,
            use_cotter_flags: !opts.no_cotter_flags,
            source_catalogue_file: opts.srclist,
            do_rfi_flagging: opts.rts_rfi_flagging,
            do_rx_corrections: !opts.dont_rx_correct,
            do_raw_data_corrections: !opts.dont_correct_raw_data,
            read_gpubox_direct: !opts.dont_read_gpubox_direct,
            read_all_from_single_file: !opts.dont_read_all_from_single_file,
            add_node_number_to_filename: opts.add_node_number,
            fee_beam_file,
            obsid,
            obs_image_centre_ra,
            obs_image_centre_dec,
            obs_pointing_centre_ha,
            obs_pointing_centre_dec,
            corr_dump_time,
            corr_dumps_per_cadence: cdpc,
            num_integration_bins: bins,
            num_iterations,
            fine_channel_width_mhz,
            num_fine_channels,
            f_scrunch: opts.fscrunch,
            base_freq,
            subband_ids,
            num_primary_cals,
            disable_srclist_vetos: opts.disable_srclist_vetos,
            write_vis_to_uvfits,
        },
    )
}

} // verus!
