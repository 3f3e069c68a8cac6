//! Merging per-tile dipole delays.

use mongoose::delays::merge_delays;

#[test]
fn delays_fill_from_later_tiles() {
    // The first tile has a dead dipole (32) at slot 1; the second tile
    // heals it.
    let tiles = vec![
        vec![4, 32, 6, 8, 4, 6, 6, 8, 4, 6, 6, 8, 4, 6, 6, 8],
        vec![4, 6, 6, 8, 4, 6, 6, 8, 4, 6, 6, 8, 4, 6, 6, 8],
    ];
    let merged = merge_delays(&tiles);
    assert_eq!(merged, vec![4, 6, 6, 8, 4, 6, 6, 8, 4, 6, 6, 8, 4, 6, 6, 8]);
}

#[test]
fn delays_stop_at_first_complete_tile() {
    // The first tile already fills every slot, so the second tile's
    // different values are never read.
    let tiles = vec![vec![1; 16], vec![2; 16]];
    assert_eq!(merge_delays(&tiles), vec![1; 16]);
}

#[test]
fn delays_all_flagged_stay_flagged() {
    let tiles = vec![vec![32; 16], vec![32; 16]];
    assert_eq!(merge_delays(&tiles), vec![32; 16]);
    assert_eq!(merge_delays(&vec![]), vec![32; 16]);
}
