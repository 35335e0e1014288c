use zk_hunt::maps::{jungle_at, terrain, GRID_SIZE};
use zk_hunt::spawn::{plains_count, plains_indices, spawn_from_samples};
use zk_hunt::{abs_diff, Error, GamePhase, RoundSetup, Terrain, MAPS, MAP_COUNT};

#[test]
fn terrain_reads_the_grid_row_by_row() {
    // First row of the first map: plain, plain, jungle.
    assert_eq!(terrain(0, 0, 0), Some(Terrain::Plain));
    assert_eq!(terrain(0, 1, 0), Some(Terrain::Plain));
    assert_eq!(terrain(0, 2, 0), Some(Terrain::Jungle));
    // Second row starts plain, jungle.
    assert_eq!(terrain(0, 0, 1), Some(Terrain::Plain));
    assert_eq!(terrain(0, 1, 1), Some(Terrain::Jungle));
    // Column and row are not interchangeable: (0, 2) is jungle, (2, 0) too,
    // but (3, 1) is plain while (1, 3) is jungle.
    assert_eq!(terrain(0, 3, 1), Some(Terrain::Plain));
    assert_eq!(terrain(0, 1, 3), Some(Terrain::Jungle));
    // The border map is jungle all around.
    assert_eq!(terrain(3, 0, 0), Some(Terrain::Jungle));
    assert_eq!(terrain(3, 7, 7), Some(Terrain::Jungle));
    assert_eq!(terrain(3, 1, 1), Some(Terrain::Plain));
}

#[test]
fn terrain_fails_off_the_grid_and_off_the_pool() {
    assert_eq!(terrain(0, 8, 0), None);
    assert_eq!(terrain(0, 0, 8), None);
    assert_eq!(terrain(20, 0, 0), None);
    assert_eq!(terrain(u32::MAX, u32::MAX, u32::MAX), None);
    assert_eq!(terrain(19, 7, 7), Some(Terrain::Plain));
}

#[test]
fn terrain_agrees_with_the_table_everywhere() {
    assert_eq!(GRID_SIZE, 8);
    assert_eq!(MAP_COUNT, 20);
    for m in 0..MAP_COUNT {
        for y in 0..8u32 {
            for x in 0..8u32 {
                let cell = MAPS[m as usize][(y * 8 + x) as usize];
                assert!(cell == 0 || cell == 1);
                assert_eq!(jungle_at(m, x, y), cell == 1);
                let expected = if cell == 1 { Terrain::Jungle } else { Terrain::Plain };
                assert_eq!(terrain(m, x, y), Some(expected));
            }
        }
    }
}

#[test]
fn plains_are_listed_in_rising_order() {
    for m in 0..MAP_COUNT {
        let plains = plains_indices(m);
        let expected: Vec<u32> =
            (0..64u32).filter(|i| MAPS[m as usize][*i as usize] == 0).collect();
        assert_eq!(plains, expected);
        assert_eq!(plains_count(m), expected.len() as u64);
        assert!(plains_count(m) >= 2);
    }
    assert_eq!(plains_indices(0)[..6].to_vec(), vec![0, 1, 5, 6, 7, 8]);
}

#[test]
fn spawn_takes_the_tiles_at_the_drawn_places() {
    // On the first map the places 0 and 2 are the tiles (0, 0) and (5, 0).
    let setup = spawn_from_samples(0, 0, 2).unwrap();
    assert_eq!(
        setup,
        RoundSetup { map_index: 0, hunter_x: 0, hunter_y: 0, prey_x: 5, prey_y: 0 }
    );
    // The hunter gets the first place, the prey the second.
    let setup = spawn_from_samples(0, 2, 0).unwrap();
    assert_eq!(
        setup,
        RoundSetup { map_index: 0, hunter_x: 5, hunter_y: 0, prey_x: 0, prey_y: 0 }
    );
    // Place 5 is cell 8, the tile (0, 1); the tile (2, 2) is cell 18, exactly
    // three steps away.
    let plains = plains_indices(0);
    let at = plains.iter().position(|c| *c == 18).unwrap() as u64;
    let setup = spawn_from_samples(0, 5, at).unwrap();
    assert_eq!(
        setup,
        RoundSetup { map_index: 0, hunter_x: 0, hunter_y: 1, prey_x: 2, prey_y: 2 }
    );
}

#[test]
fn spawn_throws_away_bad_draws() {
    // The same place twice.
    assert_eq!(spawn_from_samples(0, 3, 3), None);
    // Tiles closer than three steps: (0, 0) and (1, 0); (0, 0) and (0, 1).
    assert_eq!(spawn_from_samples(0, 0, 1), None);
    assert_eq!(spawn_from_samples(0, 0, 5), None);
    // Exactly two steps: (5, 0) and (7, 0).
    assert_eq!(spawn_from_samples(0, 2, 4), None);
    // A place past the end of the list.
    let count = plains_count(0);
    assert_eq!(spawn_from_samples(0, count, 0), None);
    assert_eq!(spawn_from_samples(0, 0, count), None);
    assert_eq!(spawn_from_samples(0, u64::MAX, 0), None);
    // A map that is not in the pool.
    assert_eq!(spawn_from_samples(20, 0, 2), None);
    assert!(spawn_from_samples(0, count - 1, 0).is_some());
}

#[test]
fn every_taken_draw_is_a_valid_setup() {
    for m in 0..MAP_COUNT {
        let count = plains_count(m);
        let mut taken = 0;
        for a in 0..count {
            for b in 0..count {
                match spawn_from_samples(m, a, b) {
                    Some(s) => {
                        taken += 1;
                        assert!(s.is_well_formed());
                        assert_eq!(s.map_index, m);
                        assert_eq!(jungle_at(m, s.hunter_x, s.hunter_y), false);
                        assert_eq!(jungle_at(m, s.prey_x, s.prey_y), false);
                        let d = abs_diff(s.hunter_x, s.prey_x) + abs_diff(s.hunter_y, s.prey_y);
                        assert!(d >= 3);
                        assert!((s.hunter_x, s.hunter_y) != (s.prey_x, s.prey_y));
                    }
                    None => {}
                }
            }
        }
        assert!(taken > 0);
    }
}

#[test]
fn setups_are_tested_for_validity() {
    let good = RoundSetup { map_index: 1, hunter_x: 0, hunter_y: 0, prey_x: 7, prey_y: 0 };
    assert!(good.is_well_formed());
    assert!(!RoundSetup { map_index: 20, ..good }.is_well_formed());
    assert!(!RoundSetup { hunter_x: 8, ..good }.is_well_formed());
    assert!(!RoundSetup { prey_y: 8, ..good }.is_well_formed());
    // (2, 1) is jungle on the second map.
    assert!(!RoundSetup { hunter_x: 2, hunter_y: 1, ..good }.is_well_formed());
    assert!(!RoundSetup { prey_x: 3, prey_y: 2, ..good }.is_well_formed());
    // Two steps apart is too close, three is enough.
    assert!(!RoundSetup { prey_x: 2, ..good }.is_well_formed());
    assert!(RoundSetup { prey_x: 3, ..good }.is_well_formed());
    assert!(RoundSetup { prey_x: 0, prey_y: 3, ..good }.is_well_formed());
}

#[test]
fn abs_diff_is_the_distance_either_way() {
    assert_eq!(abs_diff(3, 7), 4);
    assert_eq!(abs_diff(7, 3), 4);
    assert_eq!(abs_diff(5, 5), 0);
    assert_eq!(abs_diff(0, u32::MAX), u32::MAX);
    assert_eq!(abs_diff(u32::MAX, 0), u32::MAX);
}

#[test]
fn errors_and_phases_keep_their_numbers() {
    let errors = [
        Error::GameNotFound,
        Error::NotPlayer,
        Error::WrongPhase,
        Error::NotHunter,
        Error::NotPrey,
        Error::OutOfBounds,
        Error::InvalidMove,
        Error::NotJungle,
        Error::ProofFailed,
        Error::GameAlreadyEnded,
        Error::NotAdjacentJungle,
        Error::SearchPending,
        Error::NoPowerSearches,
        Error::PreyNotHidden,
        Error::PreyAlreadyHidden,
        Error::IsJungle,
        Error::NoEMP,
        Error::EmpTargetHidden,
        Error::EmpOutOfRange,
        Error::NoDashes,
        Error::PreyFrozen,
    ];
    for (i, e) in errors.iter().enumerate() {
        assert_eq!(e.code(), i as u32 + 1);
    }
    let phases = [
        GamePhase::WaitingForPlayer2,
        GamePhase::HunterTurn,
        GamePhase::PreyTurn,
        GamePhase::SearchPending,
        GamePhase::Ended,
    ];
    for (i, p) in phases.iter().enumerate() {
        assert_eq!(p.code(), i as u32);
    }
}
