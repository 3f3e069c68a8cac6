//! Container layout: baseline encoding, header cards, antenna table and
//! body records.

use mongoose::errors::ValueError;
use mongoose::uvfits::{
    build_vis_row, compute_num_baselines, encode_uvfits_baseline, reorder_polarizations,
    uvfits_antenna_table, uvfits_primary_header_cards, CardValue, ComplexBits, StationXyzText,
};

#[test]
fn test_encode_uvfits_baseline() {
    assert_eq!(encode_uvfits_baseline(1, 2), 258);
    // The extended encoding: 1 * 2048 + 300 + 65536.
    assert_eq!(encode_uvfits_baseline(1, 300), 67884);
    assert_eq!(encode_uvfits_baseline(255, 255), 255 * 256 + 255);
    assert_eq!(encode_uvfits_baseline(256, 256), 256 * 2048 + 256 + 65536);
}

#[test]
fn test_compute_num_baselines() {
    assert_eq!(compute_num_baselines(8256, 1), 8256);
    assert_eq!(compute_num_baselines(8256 * 56, 56), 8256);
}

fn card_key(c: &mongoose::uvfits::HeaderCard) -> &str {
    c.key.as_str()
}

#[test]
fn primary_header_layout() {
    let cards = uvfits_primary_header_cards(
        40000,
        15,
        String::from("154235000"),
        String::from("0.0"),
        String::from("-27.0"),
        String::from("2456580.5"),
        String::from("2013-10-15T00:00:00.0"),
        None,
        String::from("mongoose"),
        String::from("v0.1.0"),
    );
    assert_eq!(cards.len(), 45);
    assert_eq!(card_key(&cards[0]), "BSCALE");
    assert!(matches!(&cards[0].value, CardValue::Real(t) if t == "1.0"));

    // The five group parameters in order, unit scales, and only DATE with a
    // non-zero zero-offset.
    let ptypes: Vec<&str> = cards
        .iter()
        .filter(|c| c.key.starts_with("PTYPE"))
        .map(|c| match &c.value {
            CardValue::Text(t) => t.as_str(),
            _ => panic!("PTYPE must be text"),
        })
        .collect();
    assert_eq!(ptypes, vec!["UU", "VV", "WW", "BASELINE", "DATE"]);
    for c in cards.iter().filter(|c| c.key.starts_with("PZERO")) {
        match (&c.key[..], &c.value) {
            ("PZERO5", CardValue::Real(t)) => assert_eq!(t, "2456580.5"),
            (_, CardValue::Real(t)) => assert_eq!(t, "0.0"),
            _ => panic!("PZERO must be real"),
        }
    }

    // The reference channel is 1-based.
    let crpix4 = cards.iter().find(|c| c.key == "CRPIX4").unwrap();
    assert!(matches!(crpix4.value, CardValue::Int(16)));

    // An absent object name falls back to "Undefined".
    let object = cards.iter().find(|c| c.key == "OBJECT").unwrap();
    assert!(matches!(&object.value, CardValue::Text(t) if t == "Undefined"));

    let epoch = cards.iter().find(|c| c.key == "EPOCH").unwrap();
    assert!(matches!(&epoch.value, CardValue::Real(t) if t == "2000.0"));
}

fn xyz(x: &str, y: &str, z: &str) -> StationXyzText {
    StationXyzText {
        x: String::from(x),
        y: String::from(y),
        z: String::from(z),
    }
}

#[test]
fn antenna_table_stations_are_one_based() {
    let names: Vec<String> = ["Tile011", "Tile012", "Tile013"]
        .iter()
        .map(|s| String::from(*s))
        .collect();
    let positions = vec![
        xyz("1.0", "2.0", "3.0"),
        xyz("4.0", "5.0", "6.0"),
        xyz("7.0", "8.0", "9.0"),
    ];
    let table = uvfits_antenna_table(
        0,
        String::from("-2559454.08"),
        String::from("5095372.14"),
        String::from("-2849057.18"),
        String::from("154235000"),
        String::from("25.0"),
        String::from("2013-10-15T00:00:00.0"),
        names.clone(),
        positions,
    )
    .unwrap();

    // One row per antenna, station numbers exactly 1..=names.len() in file
    // order.
    assert_eq!(table.rows.len(), names.len());
    for (i, row) in table.rows.iter().enumerate() {
        assert_eq!(row.station_number, i as i32 + 1);
        assert_eq!(row.name, names[i]);
        assert_eq!(row.mount, 0);
        assert_eq!(row.pol_a_type, "X");
        assert_eq!(row.pol_a_angle_deg, 0);
        assert_eq!(row.pol_b_type, "Y");
        assert_eq!(row.pol_b_angle_deg, 90);
    }
    assert_eq!(table.rows[1].position.y, "5.0");

    // The fixed array-level scalars.
    let iatutc = table.cards.iter().find(|c| c.key == "IATUTC").unwrap();
    assert!(matches!(&iatutc.value, CardValue::Real(t) if t == "33.0"));
    let hand = table.cards.iter().find(|c| c.key == "XYZHAND").unwrap();
    assert!(matches!(&hand.value, CardValue::Text(t) if t == "RIGHT"));
}

#[test]
fn antenna_table_reports_geodetic_failure() {
    let err = uvfits_antenna_table(
        3,
        String::new(),
        String::new(),
        String::new(),
        String::new(),
        String::new(),
        String::new(),
        vec![],
        vec![],
    )
    .unwrap_err();
    assert_eq!(err.status, 3);
}

#[test]
fn vis_row_layout_and_validation() {
    // One channel: 12 samples.
    let samples: Vec<u32> = (0..12).map(|i| f32::to_bits(i as f32)).collect();
    let row = build_vis_row(
        f32::to_bits(0.5),
        f32::to_bits(-0.5),
        f32::to_bits(0.25),
        258f32.to_bits(),
        f32::to_bits(0.125),
        &samples,
        1,
    )
    .unwrap();
    assert_eq!(row.len(), 5 + 12);
    assert_eq!(f32::from_bits(row[0]), 0.5);
    assert_eq!(f32::from_bits(row[1]), -0.5);
    assert_eq!(f32::from_bits(row[3]), 258.0);
    assert_eq!(&row[5..], &samples[..]);

    // A wrong sample count is rejected.
    assert!(matches!(
        build_vis_row(0, 0, 0, 0, 0, &samples, 2),
        Err(ValueError::SampleLengthMismatch)
    ));
}

#[test]
fn reorder_interleaves_xx_yy_xy_yx() {
    let c = |re: f32, im: f32| ComplexBits {
        re: re.to_bits(),
        im: im.to_bits(),
    };
    let xx = vec![c(1.0, 2.0), c(13.0, 14.0)];
    let xy = vec![c(3.0, 4.0), c(15.0, 16.0)];
    let yx = vec![c(5.0, 6.0), c(17.0, 18.0)];
    let yy = vec![c(7.0, 8.0), c(19.0, 20.0)];
    let wxx = vec![9f32.to_bits(), 21f32.to_bits()];
    let wxy = vec![10f32.to_bits(), 22f32.to_bits()];
    let wyx = vec![11f32.to_bits(), 23f32.to_bits()];
    let wyy = vec![12f32.to_bits(), 24f32.to_bits()];

    let out = reorder_polarizations(&xx, &xy, &yx, &yy, &wxx, &wxy, &wyx, &wyy).unwrap();
    let floats: Vec<f32> = out.iter().map(|&b| f32::from_bits(b)).collect();
    assert_eq!(
        floats,
        vec![
            1.0, 2.0, 9.0, 7.0, 8.0, 12.0, 3.0, 4.0, 10.0, 5.0, 6.0, 11.0, // channel 0
            13.0, 14.0, 21.0, 19.0, 20.0, 24.0, 15.0, 16.0, 22.0, 17.0, 18.0, 23.0, // channel 1
        ]
    );

    // Columns of differing length are rejected.
    let short = vec![c(0.0, 0.0)];
    assert!(matches!(
        reorder_polarizations(&xx, &short, &yx, &yy, &wxx, &wxy, &wyx, &wyy),
        Err(ValueError::PolarisationLengthMismatch)
    ));
}
