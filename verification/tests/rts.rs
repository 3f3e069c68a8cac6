//! RTS `.in` file rendering and parameter resolution.

use mongoose::numfmt::{join_commas_u8, mhz_string};
use mongoose::rts::{
    rts_params, sort_u8, MetafitsInfo, RealText, RtsError, RtsJob, RtsMode, RtsOptions, RtsParams,
};

fn patch_params(obsid: u32) -> RtsParams {
    RtsParams {
        mode: RtsMode::Patch,
        base_dir: String::from("."),
        base_filename: String::from("*_gpubox"),
        metafits: Some(String::from("cool.metafits")),
        use_cotter_flags: true,
        source_catalogue_file: String::from("cool_srclist.txt"),
        do_rfi_flagging: false,
        do_rx_corrections: true,
        do_raw_data_corrections: true,
        read_gpubox_direct: true,
        read_all_from_single_file: true,
        add_node_number_to_filename: false,
        fee_beam_file: None,
        obsid,
        obs_image_centre_ra: String::from("0"),
        obs_image_centre_dec: String::from("-27"),
        obs_pointing_centre_ha: None,
        obs_pointing_centre_dec: None,
        corr_dump_time: String::from("2"),
        corr_dumps_per_cadence: 32,
        num_integration_bins: 7,
        num_iterations: 1,
        fine_channel_width_mhz: String::from("0.04"),
        num_fine_channels: 32,
        f_scrunch: 2,
        base_freq: String::from("138.875"),
        subband_ids: (1..=24).collect(),
        num_primary_cals: 1,
        disable_srclist_vetos: false,
        write_vis_to_uvfits: false,
    }
}

#[test]
fn test_rts_patch_output() {
    let obsid = 1000000000;
    let params = patch_params(obsid);
    let output = params.to_in_file("0.1.0", "2021-01-01 00:00:00");

    assert!(output.contains("RTS in file to patch"));
    assert!(output.contains("generateDIjones=1\n"));
    assert!(output.contains("useStoredCalibrationFiles=0\n"));
    assert!(output.contains("NumberOfCalibrators=1\n"));
    assert!(output.contains("writeVisToUVFITS=0\n"));
    assert!(!output.contains("UpdateCalibratorAmplitudes"));
    assert!(!output.contains("NumberOfIonoCalibrators"));
    assert!(!output.contains("NumberOfSourcesToPeel"));

    // These things aren't related to the patch mode, but should match
    // because of what was set up above.
    assert!(output.contains("ReadMetafitsFile=1\n"));
    assert!(output.contains("MetafitsFilename=cool.metafits\n"));
    assert!(output.contains("ImportCotterFlags=1\n"));
    assert!(output.contains(&format!("ImportCotterBasename=./RTS_{}\n", obsid)));
    assert!(output.contains("SourceCatalogueFile=cool_srclist.txt\n"));
    assert!(output.contains("useFastPrimaryBeamModels=1\n"));
    assert!(output.contains("DisableSourcelistVetos=0\n"));
    assert!(output.contains("doRFIflagging=0\n"));
    assert!(output.contains(
        "SubBandIDs=1,2,3,4,5,6,7,8,9,10,11,12,13,14,15,16,17,18,19,20,21,22,23,24\n"
    ));
}

#[test]
fn test_rts_peel_output() {
    let obsid = 1000000000;
    let mut params = patch_params(obsid);
    params.mode = RtsMode::Peel {
        num_cals: 1000,
        num_peel: 1000,
    };
    params.use_cotter_flags = false;
    params.do_rfi_flagging = true;
    params.fee_beam_file = Some(String::from("/random/spot/beam_file.hdf5"));
    params.subband_ids = (1..=3).collect();
    params.num_primary_cals = 5;
    params.disable_srclist_vetos = true;
    params.write_vis_to_uvfits = true;
    let output = params.to_in_file("0.1.0", "2021-01-01 00:00:00");

    assert!(output.contains("RTS in file to peel"));
    assert!(output.contains("generateDIjones=0\n"));
    assert!(output.contains("useStoredCalibrationFiles=1\n"));
    assert!(output.contains("NumberOfCalibrators=5\n"));
    assert!(output.contains("writeVisToUVFITS=1\n"));
    assert!(output.contains("UpdateCalibratorAmplitudes=1\n"));
    assert!(output.contains("NumberOfIonoCalibrators=1000\n"));
    assert!(output.contains("NumberOfSourcesToPeel=1000\n"));

    // These things aren't related to the peel mode, but should match
    // because of what was set up above.
    assert!(output.contains("ReadMetafitsFile=1\n"));
    assert!(output.contains("MetafitsFilename=cool.metafits\n"));
    assert!(output.contains("ImportCotterFlags=0\n"));
    assert!(!output.contains(&format!("ImportCotterBasename=./RTS_{}\n", obsid)));
    assert!(output.contains("SourceCatalogueFile=cool_srclist.txt\n"));
    assert!(!output.contains("useFastPrimaryBeamModels=1\n"));
    assert!(output.contains("TileBeamType=1\n"));
    assert!(output.contains("hdf5Filename=/random/spot/beam_file.hdf5\n"));
    assert!(output.contains("DisableSourcelistVetos=1\n"));
    assert!(output.contains("doRFIflagging=1\n"));
    assert!(output.contains("SubBandIDs=1,2,3\n"));
}

fn base_options() -> RtsOptions {
    RtsOptions {
        job: RtsJob::Patch {
            num_primary_cals: 1,
            num_iterations: 1,
            write_vis_to_uvfits: false,
        },
        base_dir: String::from("/data/obs"),
        base_filename: String::from("*_gpubox"),
        metafits: Some(String::from("obs.metafits")),
        srclist: String::from("srclist.txt"),
        no_cotter_flags: false,
        rts_rfi_flagging: false,
        add_node_number: false,
        dont_rx_correct: false,
        dont_correct_raw_data: false,
        dont_read_gpubox_direct: false,
        dont_read_all_from_single_file: false,
        use_fee_beam: false,
        fee_beam_file: None,
        beam_file_env: None,
        obsid: None,
        corr_dump_time: None,
        corr_dumps_per_cadence: None,
        num_integration_bins: None,
        base_freq: None,
        num_fine_chans: None,
        fine_chan_width: None,
        subband_ids: None,
        force_ra: None,
        force_dec: None,
        ha_pointing_centre: None,
        dec_pointing_centre: None,
        fscrunch: 2,
        disable_srclist_vetos: false,
    }
}

fn metafits_info() -> MetafitsInfo {
    MetafitsInfo {
        obsid: 1065880128,
        integration_time_ms: 2000,
        fine_channel_width_hz: 40000,
        centre_freq_hz: 154_235_000,
        bandwidth_hz: 30_720_000,
        ra_phase_centre: None,
        ra_tile_pointing: String::from("0.749"),
        dec_phase_centre: Some(String::from("-26.7")),
        dec_tile_pointing: String::from("-27.0"),
        gpubox_numbers: vec![3, 1, 24, 2],
    }
}

#[test]
fn params_resolved_from_metafits() {
    let p = rts_params(base_options(), Some(metafits_info())).unwrap();
    assert_eq!(p.obsid, 1065880128);
    // The 2 s integration maps to the built-in patch timing.
    assert_eq!(p.corr_dump_time, "2");
    assert_eq!(p.corr_dumps_per_cadence, 32);
    assert_eq!(p.num_integration_bins, 6);
    // 40 kHz fine channels mean 32 channels of 0.04 MHz.
    assert_eq!(p.num_fine_channels, 32);
    assert_eq!(p.fine_channel_width_mhz, "0.04");
    // centre - bandwidth/2 - width/2, in exact MHz.
    assert_eq!(p.base_freq, "138.855");
    // The phase centre wins over the tile pointing where it exists.
    assert_eq!(p.obs_image_centre_ra, "0.749");
    assert_eq!(p.obs_image_centre_dec, "-26.7");
    // With a metafits, the RTS reads the pointing centre itself.
    assert_eq!(p.obs_pointing_centre_ha, None);
    assert_eq!(p.obs_pointing_centre_dec, None);
    // Subbands come from the gpubox numbers, sorted.
    assert_eq!(p.subband_ids, vec![1, 2, 3, 24]);
    assert!(p.use_cotter_flags);
    assert!(matches!(p.mode, RtsMode::Patch));
}

#[test]
fn peel_defaults_and_truncation() {
    let mut opts = base_options();
    opts.job = RtsJob::Peel {
        num_cals: 1000,
        num_peel: None,
        num_primary_cals: 2000,
        num_iterations: 14,
        dont_write_vis_to_uvfits: false,
    };
    let p = rts_params(opts, Some(metafits_info())).unwrap();
    // num_peel falls back to num_cals; primary calibrators are capped.
    assert_eq!(
        p.mode,
        RtsMode::Peel {
            num_cals: 1000,
            num_peel: 1000,
        }
    );
    assert_eq!(p.num_primary_cals, 1000);
    // Peel timing for 2 s integrations.
    assert_eq!(p.corr_dumps_per_cadence, 4);
    assert_eq!(p.num_integration_bins, 3);
    assert!(p.write_vis_to_uvfits);
}

#[test]
fn params_missing_inputs() {
    let mut opts = base_options();
    opts.metafits = None;
    assert_eq!(rts_params(opts, None).unwrap_err(), RtsError::NoObsid);

    let mut opts = base_options();
    opts.metafits = None;
    opts.obsid = Some(1000000000);
    assert_eq!(rts_params(opts, None).unwrap_err(), RtsError::TimingIncomplete);

    let mut opts = base_options();
    opts.use_fee_beam = true;
    assert_eq!(
        rts_params(opts, Some(metafits_info())).unwrap_err(),
        RtsError::NoBeamFile
    );
    let mut opts = base_options();
    opts.use_fee_beam = true;
    opts.beam_file_env = Some(String::from("/beams/mwa_full_embedded_element_pattern.h5"));
    let p = rts_params(opts, Some(metafits_info())).unwrap();
    assert_eq!(
        p.fee_beam_file.as_deref(),
        Some("/beams/mwa_full_embedded_element_pattern.h5")
    );

    let mut opts = base_options();
    opts.obsid = Some(1000000000);
    opts.metafits = None;
    opts.corr_dump_time = Some(RealText {
        text: String::from("2"),
        is_zero: false,
    });
    opts.corr_dumps_per_cadence = Some(32);
    opts.num_integration_bins = Some(6);
    assert_eq!(
        rts_params(opts, None).unwrap_err(),
        RtsError::NoFineChannelCount
    );

    let mut info = metafits_info();
    info.fine_channel_width_hz = 30000;
    assert_eq!(
        rts_params(base_options(), Some(info)).unwrap_err(),
        RtsError::UnhandledFineChannelWidth
    );

    // Without a metafits, both pointing-centre coordinates are needed.
    let mut opts = base_options();
    opts.metafits = None;
    opts.obsid = Some(1000000000);
    opts.corr_dump_time = Some(RealText {
        text: String::from("2"),
        is_zero: false,
    });
    opts.corr_dumps_per_cadence = Some(32);
    opts.num_integration_bins = Some(6);
    opts.num_fine_chans = Some(32);
    opts.fine_chan_width = Some(String::from("0.04"));
    opts.base_freq = Some(String::from("138.875"));
    opts.force_ra = Some(String::from("0"));
    opts.force_dec = Some(String::from("-27"));
    opts.ha_pointing_centre = Some(String::from("0"));
    assert_eq!(
        rts_params(opts, None).unwrap_err(),
        RtsError::NoPointingCentre
    );
}

#[test]
fn subband_sort_orders_and_keeps_values() {
    assert_eq!(sort_u8(&vec![3, 1, 24, 2, 1]), vec![1, 1, 2, 3, 24]);
    assert_eq!(sort_u8(&vec![]), Vec::<u8>::new());
}

#[test]
fn decimal_rendering() {
    assert_eq!(mhz_string(40000), "0.04");
    assert_eq!(mhz_string(138_875_000), "138.875");
    assert_eq!(mhz_string(30_720_000), "30.72");
    assert_eq!(mhz_string(1_000_000), "1");
    assert_eq!(mhz_string(0), "0");
    assert_eq!(join_commas_u8(&vec![1, 2, 3]), "1,2,3");
    assert_eq!(join_commas_u8(&vec![]), "");
    assert_eq!(join_commas_u8(&vec![7]), "7");
}
