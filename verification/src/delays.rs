//! Merging per-tile dipole delays.
//!
//! A metafits file can record the observation's delays as all 32, the code
//! for "flagged".  The true delays can be recovered from the per-tile
//! listings: walk the tiles in order, let each listed delay other than 32
//! fill its dipole's slot, and stop after the first tile that leaves every
//! slot filled (a single dead dipole in one tile is healed by the next).

use vstd::prelude::*;

verus! {

/// Every dipole slot holds a delay other than the flag value 32.
pub open spec fn all_filled(d: Seq<u32>) -> bool {
    forall|i: int| 0 <= i < d.len() ==> d[i] != 32
}

/// One tile applied to the current slots: each listed delay other than 32
/// replaces the slot's value.
pub open spec fn apply_tile(cur: Seq<u32>, tile: Seq<u32>) -> Seq<u32> {
    Seq::new(
        cur.len(),
        |i: int|
            if i < tile.len() && tile[i] != 32 {
                tile[i]
            } else {
                cur[i]
            },
    )
}

/// The 16 merged delays after the first `t` tiles: start from all 32,
/// apply tiles in order, and ignore every tile after the first one that
/// leaves all slots filled.
pub open spec fn merged_delays(tiles: Seq<Seq<u32>>, t: nat) -> Seq<u32>
    decreases t,
{
    if t == 0 {
        Seq::new(16, |i: int| 32u32)
    } else {
        let prev = merged_delays(tiles, (t - 1) as nat);
        if all_filled(prev) {
            prev
        } else {
            apply_tile(prev, tiles[t - 1])
        }
    }
}

proof fn lemma_merged_stable(tiles: Seq<Seq<u32>>, t1: nat, t2: nat)
    requires
        t1 <= t2,
        all_filled(merged_delays(tiles, t1)),
    ensures
        merged_delays(tiles, t2) == merged_delays(tiles, t1),
    decreases t2,
{
    if t1 < t2 {
        lemma_merged_stable(tiles, t1, (t2 - 1) as nat);
    }
}

/// Merges the tiles' listed delays into the observation's 16 delays.
pub fn merge_delays(tile_delays: &Vec<Vec<u32>>) -> (r: Vec<u32>)
    ensures
        r@.len() == 16,
        r@ == merged_delays(
            tile_delays@.map_values(|v: Vec<u32>| v@),
            tile_delays@.len(),
        ),
{
    let ghost tiles = tile_delays@.map_values(|v: Vec<u32>| v@);
    let n = tile_delays.len();
    let mut delays: Vec<u32> = Vec::new();
    let mut z: usize = 0;
    while z < 16
        invariant
            z <= 16,
            delays@.len() == z,
            forall|j: int| 0 <= j < z ==> delays@[j] == 32,
        decreases 16 - z,
    {
        delays.push(32);
        z = z + 1;
    }
    proof {
        assert(delays@ =~= merged_delays(tiles, 0));
        assert(delays@[0] == 32);
        assert(!all_filled(delays@));
    }
    let mut t: usize = 0;
    while t < n
        invariant_except_break
            t <= n,
            n == tile_delays@.len(),
            tiles == tile_delays@.map_values(|v: Vec<u32>| v@),
            delays@.len() == 16,
            delays@ == merged_delays(tiles, t as nat),
            !all_filled(delays@),
        ensures
            delays@.len() == 16,
            delays@ == merged_delays(tiles, n as nat),
        decreases n - t,
    {
        let ghost prev = delays@;
        let tile = &tile_delays[t];
        let m: usize = if tile.len() < 16 {
            tile.len()
        } else {
            16
        };
        let mut i: usize = 0;
        while i < m
            invariant
                i <= m,
                m <= 16,
                m <= tile@.len(),
                prev.len() == 16,
                delays@.len() == 16,
                forall|j: int| 0 <= j < i ==> delays@[j] == apply_tile(prev, tile@)[j],
                forall|j: int| i <= j < 16 ==> delays@[j] == prev[j],
            decreases m - i,
        {
            if tile[i] != 32 {
                delays[i] = tile[i];
            }
            i = i + 1;
        }
        t = t + 1;
        proof {
            assert forall|j: int| 0 <= j < 16 implies delays@[j] == apply_tile(prev, tile@)[j] by {
                if j >= m {
                    assert(j >= tile@.len());
                }
            }
            assert(delays@ =~= apply_tile(prev, tile@));
            assert(tiles[t - 1] == tile@);
            assert(delays@ == merged_delays(tiles, t as nat));
        }
        // Stop as soon as every slot is filled.
        let mut filled = true;
        let mut k: usize = 0;
        while k < 16
            invariant
                k <= 16,
                delays@.len() == 16,
                filled <==> (forall|j: int| 0 <= j < k ==> delays@[j] != 32),
            decreases 16 - k,
        {
            if delays[k] == 32 {
                filled = false;
            }
            k = k + 1;
        }
        if filled {
            proof {
                assert(all_filled(delays@));
                lemma_merged_stable(tiles, t as nat, n as nat);
            }
            break;
        }
    }
    delays
}

} // verus!
