use soroban_sdk::{Bytes, Env};
use zk_hunt::binder::{
    bytes32_equal, check_enter_jungle, check_jungle_move, check_search_response, extract_bytes32,
    extract_u8, field32_is, field_is,
};

fn numbered(len: usize) -> Vec<u8> {
    (0..len).map(|i| (i % 251) as u8).collect()
}

/// A move proof: header, old commitment, new commitment, map number.
fn move_blob(old: &[u8; 32], new: &[u8; 32], map_id: u8) -> Vec<u8> {
    let mut blob = vec![0u8; 100];
    blob[3] = 3;
    blob[4..36].copy_from_slice(old);
    blob[36..68].copy_from_slice(new);
    blob[99] = map_id;
    blob
}

/// A search response: header, commitment, nine columns, nine rows.
fn search_blob(commitment: &[u8; 32], tiles: &[(u32, u32)]) -> Vec<u8> {
    let mut blob = vec![0u8; 612];
    blob[3] = 19;
    blob[4..36].copy_from_slice(commitment);
    for i in 0..9 {
        let (x, y) = if i < tiles.len() {
            (tiles[i].0 as u8, tiles[i].1 as u8)
        } else {
            (255, 255)
        };
        blob[36 + 32 * i + 31] = x;
        blob[324 + 32 * i + 31] = y;
    }
    blob
}

fn commitment(seed: u8) -> [u8; 32] {
    let mut c = [0u8; 32];
    for i in 0..32 {
        c[i] = seed.wrapping_add(i as u8);
    }
    c
}

#[test]
fn extract_bytes32_reads_the_field_at_the_offset() {
    let env = Env::default();
    let raw = numbered(100);
    let proof = Bytes::from_slice(&env, &raw);
    let at4 = extract_bytes32(&proof, 4).unwrap();
    assert_eq!(&at4[..], &raw[4..36]);
    let at36 = extract_bytes32(&proof, 36).unwrap();
    assert_eq!(&at36[..], &raw[36..68]);
    let at68 = extract_bytes32(&proof, 68).unwrap();
    assert_eq!(&at68[..], &raw[68..100]);
    let at0 = extract_bytes32(&proof, 0).unwrap();
    assert_eq!(&at0[..], &raw[0..32]);
}

#[test]
fn extract_bytes32_fails_where_the_blob_ends_early() {
    let env = Env::default();
    let proof = Bytes::from_slice(&env, &numbered(100));
    assert_eq!(extract_bytes32(&proof, 69), None);
    assert_eq!(extract_bytes32(&proof, 100), None);
    assert_eq!(extract_bytes32(&proof, 101), None);
    assert_eq!(extract_bytes32(&proof, u32::MAX), None);
    let empty = Bytes::new(&env);
    assert_eq!(extract_bytes32(&empty, 0), None);
    let short = Bytes::from_slice(&env, &numbered(31));
    assert_eq!(extract_bytes32(&short, 0), None);
}

#[test]
fn extract_u8_reads_the_last_byte_of_the_field() {
    let env = Env::default();
    let raw = numbered(100);
    let proof = Bytes::from_slice(&env, &raw);
    assert_eq!(extract_u8(&proof, 68), Some(raw[99]));
    assert_eq!(extract_u8(&proof, 36), Some(raw[67]));
    assert_eq!(extract_u8(&proof, 0), Some(raw[31]));
    assert_eq!(extract_u8(&proof, 69), None);
    assert_eq!(extract_u8(&proof, u32::MAX - 10), None);
    let short = Bytes::from_slice(&env, &raw[..99]);
    assert_eq!(extract_u8(&short, 68), None);
}

#[test]
fn bytes32_equal_compares_every_byte() {
    let a = commitment(1);
    let mut b = commitment(1);
    assert!(bytes32_equal(&a, &b));
    b[31] ^= 1;
    assert!(!bytes32_equal(&a, &b));
    b[31] ^= 1;
    b[0] ^= 0x80;
    assert!(!bytes32_equal(&a, &b));
}

#[test]
fn field_checks_compare_with_the_expected_value() {
    let env = Env::default();
    let new = commitment(9);
    let proof = Bytes::from_slice(&env, &move_blob(&commitment(1), &new, 17));
    assert!(field32_is(&proof, 36, &new));
    assert!(!field32_is(&proof, 4, &new));
    assert!(!field32_is(&proof, 90, &new));
    assert!(field_is(&proof, 68, 17));
    assert!(!field_is(&proof, 68, 16));
    assert!(!field_is(&proof, 68, 17 + 256));
    assert!(!field_is(&proof, 69, 17));
}

#[test]
fn enter_jungle_binding_accepts_matching_fields() {
    let env = Env::default();
    let new = commitment(7);
    let proof = Bytes::from_slice(&env, &move_blob(&[0u8; 32], &new, 5));
    assert!(check_enter_jungle(&proof, &new, 5));
    // The old commitment is not bound on entry.
    let other_old = Bytes::from_slice(&env, &move_blob(&commitment(200), &new, 5));
    assert!(check_enter_jungle(&other_old, &new, 5));
}

#[test]
fn enter_jungle_binding_rejects_any_changed_bound_byte() {
    let env = Env::default();
    let new = commitment(7);
    let good = move_blob(&[0u8; 32], &new, 5);
    for i in (36..68).chain(99..100) {
        let mut bad = good.clone();
        bad[i] ^= 0x01;
        let proof = Bytes::from_slice(&env, &bad);
        assert!(!check_enter_jungle(&proof, &new, 5), "byte {}", i);
    }
    let proof = Bytes::from_slice(&env, &good);
    assert!(!check_enter_jungle(&proof, &commitment(8), 5));
    assert!(!check_enter_jungle(&proof, &new, 6));
    let short = Bytes::from_slice(&env, &good[..99]);
    assert!(!check_enter_jungle(&short, &new, 5));
    let tiny = Bytes::from_slice(&env, &good[..64]);
    assert!(!check_enter_jungle(&tiny, &new, 5));
}

#[test]
fn jungle_move_binding_checks_old_new_and_map() {
    let env = Env::default();
    let old = commitment(3);
    let new = commitment(77);
    let good = move_blob(&old, &new, 19);
    let proof = Bytes::from_slice(&env, &good);
    assert!(check_jungle_move(&proof, &old, &new, 19));
    assert!(!check_jungle_move(&proof, &new, &old, 19));
    assert!(!check_jungle_move(&proof, &old, &new, 18));
    for i in (4..68).chain(99..100) {
        let mut bad = good.clone();
        bad[i] = bad[i].wrapping_add(1);
        let proof = Bytes::from_slice(&env, &bad);
        assert!(!check_jungle_move(&proof, &old, &new, 19), "byte {}", i);
    }
    // Bytes outside the bound fields do not matter.
    let mut free = good.clone();
    free[0] = 9;
    free[70] = 9;
    let proof = Bytes::from_slice(&env, &free);
    assert!(check_jungle_move(&proof, &old, &new, 19));
}

#[test]
fn search_response_binding_matches_tiles_in_order() {
    let env = Env::default();
    let c = commitment(11);
    let tiles = vec![(2u32, 1u32), (1, 1), (2, 0)];
    let good = search_blob(&c, &tiles);
    let proof = Bytes::from_slice(&env, &good);
    assert!(check_search_response(&proof, &c, &tiles));
    // Another order of the same tiles is another search.
    let swapped = vec![(1u32, 1u32), (2, 1), (2, 0)];
    assert!(!check_search_response(&proof, &c, &swapped));
    // One tile fewer or one more is another search.
    assert!(!check_search_response(&proof, &c, &tiles[..2].to_vec()));
    let mut more = tiles.clone();
    more.push((3, 0));
    assert!(!check_search_response(&proof, &c, &more));
    // Another commitment.
    assert!(!check_search_response(&proof, &commitment(12), &tiles));
}

#[test]
fn search_response_binding_wants_padding_after_the_tiles() {
    let env = Env::default();
    let c = commitment(11);
    let none: Vec<(u32, u32)> = Vec::new();
    let proof = Bytes::from_slice(&env, &search_blob(&c, &none));
    assert!(check_search_response(&proof, &c, &none));
    let one = vec![(5u32, 6u32)];
    let good = search_blob(&c, &one);
    for slot in 1..9 {
        let mut bad = good.clone();
        bad[36 + 32 * slot + 31] = 0;
        assert!(!check_search_response(&Bytes::from_slice(&env, &bad), &c, &one));
        let mut bad = good.clone();
        bad[324 + 32 * slot + 31] = 254;
        assert!(!check_search_response(&Bytes::from_slice(&env, &bad), &c, &one));
    }
    let full: Vec<(u32, u32)> = (0..9).map(|i| (i % 8, 7 - i % 8)).collect();
    let proof = Bytes::from_slice(&env, &search_blob(&c, &full));
    assert!(check_search_response(&proof, &c, &full));
}

#[test]
fn search_response_binding_rejects_any_changed_bound_byte() {
    let env = Env::default();
    let c = commitment(40);
    let tiles = vec![(4u32, 4u32), (3, 4)];
    let good = search_blob(&c, &tiles);
    let mut bound: Vec<usize> = (4..36).collect();
    for slot in 0..9 {
        bound.push(36 + 32 * slot + 31);
        bound.push(324 + 32 * slot + 31);
    }
    for i in bound {
        let mut bad = good.clone();
        bad[i] ^= 0x10;
        let proof = Bytes::from_slice(&env, &bad);
        assert!(!check_search_response(&proof, &c, &tiles), "byte {}", i);
    }
    let short = Bytes::from_slice(&env, &good[..611]);
    assert!(!check_search_response(&short, &c, &tiles));
}
