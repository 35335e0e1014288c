//! The spawn selector: where the hunter and the prey start a round.
//!
//! The two starting tiles are drawn from the plain tiles of the map. A draw
//! names two places in the list of plain tiles; it is taken if the places
//! differ and the tiles lie at least three steps apart, and is otherwise
//! thrown away for another.

use crate::maps::{cell, valid_map, MAPS, MAP_COUNT};
use crate::types::{abs_diff, manhattan, RoundSetup, MIN_SPAWN_DISTANCE};
use vstd::prelude::*;

verus! {

/// The plain cells of a map among its first `n` cells, as flat indices in
/// rising order.
pub open spec fn plain_cells(map_index: int, n: nat) -> Seq<u32>
    decreases n,
{
    if n == 0 {
        Seq::empty()
    } else {
        let before = plain_cells(map_index, (n - 1) as nat);
        if cell(map_index, n - 1) == 0 {
            before.push((n - 1) as u32)
        } else {
            before
        }
    }
}

/// The round that a draw of the places `a` and `b` gives on a map, or
/// `None` where the draw is thrown away: where the map is not in the pool, a
/// place is past the end of the list, the two places are the same, or the
/// two tiles lie closer than three steps.
pub open spec fn spawn_of(map_index: u32, a: int, b: int) -> Option<RoundSetup> {
    let plains = plain_cells(map_index as int, 64);
    if valid_map(map_index as int) && 0 <= a < plains.len() && 0 <= b < plains.len() && a != b
        && manhattan(
        plains[a] as int % 8,
        plains[a] as int / 8,
        plains[b] as int % 8,
        plains[b] as int / 8,
    ) >= 3 {
        Some(
            RoundSetup {
                map_index: map_index,
                hunter_x: (plains[a] % 8) as u32,
                hunter_y: (plains[a] / 8) as u32,
                prey_x: (plains[b] % 8) as u32,
                prey_y: (plains[b] / 8) as u32,
            },
        )
    } else {
        None
    }
}

/// The list of plain cells is no longer than the cells looked at, and each
/// entry is the index of a plain cell.
pub proof fn lemma_plain_cells(map_index: int, n: nat)
    requires
        n <= 64,
    ensures
        plain_cells(map_index, n).len() <= n,
        (forall|i: int|
            0 <= i < plain_cells(map_index, n).len() ==> {
                &&& (#[trigger] plain_cells(map_index, n)[i]) < n
                &&& cell(map_index, plain_cells(map_index, n)[i] as int) == 0
            }),
    decreases n,
{
    if n > 0 {
        lemma_plain_cells(map_index, (n - 1) as nat);
    }
}

/// Lists the plain cells of a map as flat indices in rising order.
pub fn plains_indices(map_index: u32) -> (plains: Vec<u32>)
    requires
        map_index < 20,
    ensures
        plains@ == plain_cells(map_index as int, 64),
        plains@.len() <= 64,
{
    let mut plains: Vec<u32> = Vec::new();
    let mut i: u32 = 0;
    while i < 64
        invariant
            i <= 64,
            map_index < 20,
            plains@ == plain_cells(map_index as int, i as nat),
        decreases 64 - i,
    {
        if MAPS[map_index as usize][i as usize] == 0 {
            plains.push(i);
        }
        i += 1;
    }
    proof {
        lemma_plain_cells(map_index as int, 64);
    }
    plains
}

/// The number of plain tiles of a map: the number of places that a draw
/// can name.
pub fn plains_count(map_index: u32) -> (count: u64)
    requires
        map_index < 20,
    ensures
        count == plain_cells(map_index as int, 64).len(),
        count <= 64,
{
    let plains: Vec<u32> = plains_indices(map_index);
    plains.len() as u64
}

/// Decides on a draw of the places `a` and `b` in the list of plain tiles:
/// the hunter starts on the tile at `a` and the prey on the tile at `b`,
/// unless the draw is thrown away.
pub fn spawn_from_samples(map_index: u32, a: u64, b: u64) -> (r: Option<RoundSetup>)
    ensures
        r == spawn_of(map_index, a as int, b as int),
        (match r {
            Some(setup) => setup.wf(),
            None => true,
        }),
{
    if map_index >= MAP_COUNT {
        return None;
    }
    let plains: Vec<u32> = plains_indices(map_index);
    let count: u64 = plains.len() as u64;
    if a >= count || b >= count || a == b {
        return None;
    }
    proof {
        lemma_plain_cells(map_index as int, 64);
    }
    let idx_a: u32 = plains[a as usize];
    let idx_b: u32 = plains[b as usize];
    let ax: u32 = idx_a % 8;
    let ay: u32 = idx_a / 8;
    let bx: u32 = idx_b % 8;
    let by: u32 = idx_b / 8;
    let dist: u32 = abs_diff(ax, bx) + abs_diff(ay, by);
    if dist >= MIN_SPAWN_DISTANCE {
        Some(RoundSetup { map_index: map_index, hunter_x: ax, hunter_y: ay, prey_x: bx, prey_y: by })
    } else {
        None
    }
}

} // verus!
