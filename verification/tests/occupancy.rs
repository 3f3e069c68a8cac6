//! Flag-archive decoding and reflag-directive behaviour.

use mongoose::errors::{FormatError, ValueError};
use mongoose::flags::BitFlagArchive;
use mongoose::occupancy::{reflag_key_name, Occupancy, Threshold};

fn archive(
    channels: u32,
    antennas: u32,
    scans: u32,
    width: u32,
    raw: Vec<u8>,
) -> BitFlagArchive {
    BitFlagArchive::new(channels, antennas, scans, width, raw).unwrap()
}

#[test]
fn decode_small_archive() {
    // One antenna (one baseline), two scans, two bytes per row.
    // Row 0: 0b0000_0001 -> channel 7; 0xFF -> channels 8..=15.
    // Row 1: 0b1000_0000 -> channel 0; 0x00 -> nothing.
    let a = archive(16, 1, 2, 2, vec![0b0000_0001, 0xFF, 0b1000_0000, 0x00]);
    let counts = a.decode_channel_histograms();
    let expected = vec![1u32, 0, 0, 0, 0, 0, 0, 1, 1, 1, 1, 1, 1, 1, 1, 1];
    assert_eq!(counts, expected);

    // The summed counts stay within total_samples * channel_count.
    let total: u64 = counts.iter().map(|&c| c as u64).sum();
    assert!(total <= 2 * 16);
}

#[test]
fn decode_is_idempotent() {
    let a = archive(16, 2, 3, 2, vec![0xA5; 3 * 3 * 2]);
    let first = a.decode_channel_histograms();
    let second = a.decode_channel_histograms();
    assert_eq!(first, second);
}

#[test]
fn archive_validation() {
    assert!(matches!(
        BitFlagArchive::new(0, 1, 1, 1, vec![0]),
        Err(FormatError::BadDimensions)
    ));
    // 9 channels do not fit one byte per row.
    assert!(matches!(
        BitFlagArchive::new(9, 1, 1, 1, vec![0]),
        Err(FormatError::BadDimensions)
    ));
    // Buffer length must be baselines * scans * width.
    assert!(matches!(
        BitFlagArchive::new(8, 1, 2, 1, vec![0]),
        Err(FormatError::BufferLengthMismatch)
    ));
    // 100000 antennas give more samples than the counters can hold.
    assert!(matches!(
        BitFlagArchive::new(8, 100_000, 1000, 1, vec![]),
        Err(FormatError::TooManySamples)
    ));
    assert!(BitFlagArchive::new(8, 1, 2, 1, vec![0, 0]).is_ok());
}

#[test]
fn test_1065880128() {
    // The per-channel flag counts of observation 1065880128's first coarse
    // band, with every sample flagged in the edge and centre channels.
    let expected = vec![
        1849343u32, 1849343, 155462, 152424, 150517, 149608, 149075, 149136, 149204, 149260,
        149317, 149354, 149279, 149515, 149632, 149908, 1849343, 149780, 149466, 149242, 149163,
        148877, 148873, 148811, 148693, 148713, 148771, 149406, 150996, 152602, 1849343, 1849343,
    ];
    let occ = Occupancy {
        mwaf_file: String::from("1065880128_01.mwaf"),
        flag_counts_per_channel: expected.clone(),
        total_samples_per_channel: 1_849_343,
    };

    // With a threshold of 0.8, exactly the edge and centre channels are
    // reflagged, with ordinals in ascending channel order.
    let directive = occ
        .reflag(Threshold { numer: 8, denom: 10 })
        .unwrap();
    let marked: Vec<(u32, u32)> = directive.iter().map(|e| (e.ordinal, e.channel)).collect();
    assert_eq!(marked, vec![(0, 0), (1, 1), (2, 16), (3, 30), (4, 31)]);

    // The written keys are REFLG_00 .. REFLG_04; REFLG_05 must not exist.
    let keys: Vec<String> = directive
        .iter()
        .map(|e| reflag_key_name(e.ordinal))
        .collect();
    assert_eq!(
        keys,
        vec!["REFLG_00", "REFLG_01", "REFLG_02", "REFLG_03", "REFLG_04"]
    );
    assert_eq!(directive.len(), 5);
}

#[test]
fn reflag_threshold_is_strict() {
    let occ = Occupancy {
        mwaf_file: String::new(),
        flag_counts_per_channel: vec![8, 9, 10],
        total_samples_per_channel: 10,
    };
    // 8/10 does not strictly exceed 0.8; 9/10 and 10/10 do.
    let directive = occ.reflag(Threshold { numer: 8, denom: 10 }).unwrap();
    let marked: Vec<u32> = directive.iter().map(|e| e.channel).collect();
    assert_eq!(marked, vec![1, 2]);

    // A threshold of exactly 1 is allowed and nothing exceeds it.
    let directive = occ.reflag(Threshold { numer: 1, denom: 1 }).unwrap();
    assert!(directive.is_empty());
}

#[test]
fn reflag_threshold_range() {
    let occ = Occupancy {
        mwaf_file: String::new(),
        flag_counts_per_channel: vec![1],
        total_samples_per_channel: 1,
    };
    assert_eq!(
        occ.reflag(Threshold { numer: 0, denom: 10 }),
        Err(ValueError::ThresholdOutOfRange)
    );
    assert_eq!(
        occ.reflag(Threshold { numer: 11, denom: 10 }),
        Err(ValueError::ThresholdOutOfRange)
    );
}

#[test]
fn reflag_key_names_pad_to_two_digits() {
    assert_eq!(reflag_key_name(0), "REFLG_00");
    assert_eq!(reflag_key_name(7), "REFLG_07");
    assert_eq!(reflag_key_name(42), "REFLG_42");
    assert_eq!(reflag_key_name(123), "REFLG_123");
}

#[test]
fn occupancy_from_archive() {
    let a = archive(8, 1, 4, 1, vec![0b1000_0000, 0, 0b1000_0000, 0b0000_0001]);
    let occ = Occupancy::new(&a, String::from("test.mwaf"));
    assert_eq!(occ.total_samples_per_channel, 4);
    assert_eq!(occ.flag_counts_per_channel, vec![2, 0, 0, 0, 0, 0, 0, 1]);
    assert_eq!(occ.mwaf_file, "test.mwaf");
}
