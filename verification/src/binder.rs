//! The proof binder: the public inputs that a proof blob carries at fixed
//! offsets, and the checks that tie them to the session record.
//!
//! A blob starts with a four-byte header. After it come 32-byte fields. A
//! field that holds a small number holds it in its last byte.

use vstd::prelude::*;

verus! {

/// `soroban_sdk::Bytes`, the byte string in which a proof arrives. Nothing is
/// known of a value but what the items below say.
#[verifier::external_type_specification]
#[verifier::external_body]
pub struct ExBytes(soroban_sdk::Bytes);

/// The bytes that a `soroban_sdk::Bytes` holds, first to last.
pub uninterp spec fn blob_bytes(b: soroban_sdk::Bytes) -> Seq<u8>;

/// `soroban_sdk::Bytes::len` returns the number of bytes held.
pub assume_specification[ soroban_sdk::Bytes::len ](b: &soroban_sdk::Bytes) -> (n: u32)
    ensures
        n == blob_bytes(*b).len(),
;

/// `soroban_sdk::Bytes::get` returns the byte at position `i`, or `None`
/// where `i` is not below the length.
pub assume_specification[ soroban_sdk::Bytes::get ](
    b: &soroban_sdk::Bytes,
    i: u32,
) -> (r: Option<u8>)
    ensures
        (r == if i < blob_bytes(*b).len() {
            Some(blob_bytes(*b)[i as int])
        } else {
            None::<u8>
        }),
;

/// Offset of the first 32-byte field: the commitment that the proof starts
/// from.
pub const OLD_COMMITMENT_OFFSET: u32 = 4;

/// Offset of the second 32-byte field of a move proof: the commitment that
/// the proof arrives at.
pub const NEW_COMMITMENT_OFFSET: u32 = 36;

/// Offset of the field of a move proof that holds the map's number.
pub const MAP_ID_OFFSET: u32 = 68;

/// Offset of the first of the nine fields of a search response that hold
/// the searched columns.
pub const SEARCHED_X_OFFSET: u32 = 36;

/// Offset of the first of the nine fields of a search response that hold
/// the searched rows.
pub const SEARCHED_Y_OFFSET: u32 = 324;

/// Width of a field.
pub const FIELD_SIZE: u32 = 32;

/// Number of tile slots in a search response.
pub const SEARCH_SLOTS: u32 = 9;

/// What fills a tile slot that stands for no tile.
pub const SLOT_PADDING: u32 = 255;

/// The 32-byte field that starts at `offset`, or `None` where the blob ends
/// before the field does.
pub open spec fn field32(blob: Seq<u8>, offset: int) -> Option<Seq<u8>> {
    if 0 <= offset && offset + 32 <= blob.len() {
        Some(blob.subrange(offset, offset + 32))
    } else {
        None
    }
}

/// The small number held by the field that starts at `offset`: its last
/// byte, or `None` where the blob ends before the field does.
pub open spec fn field_byte(blob: Seq<u8>, offset: int) -> Option<u8> {
    if 0 <= offset && offset + 32 <= blob.len() {
        Some(blob[offset + 31])
    } else {
        None
    }
}

/// Whether the field that starts at `offset` holds the number `value`.
pub open spec fn field_holds(blob: Seq<u8>, offset: int, value: int) -> bool {
    match field_byte(blob, offset) {
        Some(b) => b as int == value,
        None => false,
    }
}

/// Whether a blob is bound to an entry into the jungle: it arrives at
/// `new_commitment` on map `map_index`.
pub open spec fn enter_jungle_bound(blob: Seq<u8>, new_commitment: Seq<u8>, map_index: int) -> bool {
    &&& field32(blob, 36) == Some(new_commitment)
    &&& field_holds(blob, 68, map_index)
}

/// Whether a blob is bound to a move inside the jungle: it starts from
/// `old_commitment` and arrives at `new_commitment` on map `map_index`.
pub open spec fn jungle_move_bound(
    blob: Seq<u8>,
    old_commitment: Seq<u8>,
    new_commitment: Seq<u8>,
    map_index: int,
) -> bool {
    &&& field32(blob, 4) == Some(old_commitment)
    &&& field32(blob, 36) == Some(new_commitment)
    &&& field_holds(blob, 68, map_index)
}

/// The column that slot `i` of a search response must hold.
pub open spec fn slot_x(tiles: Seq<(u32, u32)>, i: int) -> int {
    if 0 <= i < tiles.len() {
        tiles[i].0 as int
    } else {
        255
    }
}

/// The row that slot `i` of a search response must hold.
pub open spec fn slot_y(tiles: Seq<(u32, u32)>, i: int) -> int {
    if 0 <= i < tiles.len() {
        tiles[i].1 as int
    } else {
        255
    }
}

/// Whether slot `i` of a search response answers for the searched tiles.
pub open spec fn slot_bound(blob: Seq<u8>, tiles: Seq<(u32, u32)>, i: int) -> bool {
    &&& field_holds(blob, 36 + 32 * i, slot_x(tiles, i))
    &&& field_holds(blob, 324 + 32 * i, slot_y(tiles, i))
}

/// Whether a blob is bound to a search: it speaks of `commitment`, its
/// slots hold the searched tiles in their order, and every slot after them
/// holds the padding.
pub open spec fn search_response_bound(
    blob: Seq<u8>,
    commitment: Seq<u8>,
    tiles: Seq<(u32, u32)>,
) -> bool {
    &&& field32(blob, 4) == Some(commitment)
    &&& forall|i: int| 0 <= i < 9 ==> #[trigger] slot_bound(blob, tiles, i)
}

/// Reads the 32-byte field that starts at `offset`.
pub fn extract_bytes32(proof: &soroban_sdk::Bytes, offset: u32) -> (r: Option<[u8; 32]>)
    ensures
        (match r {
            Some(a) => field32(blob_bytes(*proof), offset as int) == Some(a@),
            None => field32(blob_bytes(*proof), offset as int) is None,
        }),
{
    let len: u32 = proof.len();
    if offset > len || len - offset < FIELD_SIZE {
        return None;
    }
    let mut arr: [u8; 32] = [0u8; 32];
    let mut i: u32 = 0;
    while i < 32
        invariant
            i <= 32,
            len == blob_bytes(*proof).len(),
            offset + 32 <= len,
            forall|j: int| 0 <= j < i ==> arr@[j] == blob_bytes(*proof)[offset + j],
        decreases 32 - i,
    {
        match proof.get(offset + i) {
            Some(b) => {
                arr[i as usize] = b;
            },
            None => {
                return None;
            },
        }
        i += 1;
    }
    assert(arr@ =~= blob_bytes(*proof).subrange(offset as int, offset + 32));
    Some(arr)
}

/// Reads the small number held by the field that starts at `offset`.
pub fn extract_u8(proof: &soroban_sdk::Bytes, offset: u32) -> (r: Option<u8>)
    ensures
        r == field_byte(blob_bytes(*proof), offset as int),
{
    let len: u32 = proof.len();
    if offset > len || len - offset < FIELD_SIZE {
        return None;
    }
    proof.get(offset + 31)
}

/// Whether two 32-byte values are the same.
pub fn bytes32_equal(a: &[u8; 32], b: &[u8; 32]) -> (r: bool)
    ensures
        r == (a@ == b@),
{
    let mut i: usize = 0;
    while i < 32
        invariant
            i <= 32,
            forall|j: int| 0 <= j < i ==> a@[j] == b@[j],
        decreases 32 - i,
    {
        if a[i] != b[i] {
            return false;
        }
        i += 1;
    }
    assert(a@ =~= b@);
    true
}

/// Whether the 32-byte field at `offset` equals `expected`.
pub fn field32_is(proof: &soroban_sdk::Bytes, offset: u32, expected: &[u8; 32]) -> (r: bool)
    ensures
        r == (field32(blob_bytes(*proof), offset as int) == Some(expected@)),
{
    match extract_bytes32(proof, offset) {
        Some(found) => bytes32_equal(&found, expected),
        None => false,
    }
}

/// Whether the field at `offset` holds the number `value`.
pub fn field_is(proof: &soroban_sdk::Bytes, offset: u32, value: u32) -> (r: bool)
    ensures
        r == field_holds(blob_bytes(*proof), offset as int, value as int),
{
    match extract_u8(proof, offset) {
        Some(b) => b as u32 == value,
        None => false,
    }
}

/// Checks the public inputs of a proof of entry into the jungle.
pub fn check_enter_jungle(
    proof: &soroban_sdk::Bytes,
    new_commitment: &[u8; 32],
    map_index: u32,
) -> (r: bool)
    ensures
        r == enter_jungle_bound(blob_bytes(*proof), new_commitment@, map_index as int),
{
    field32_is(proof, NEW_COMMITMENT_OFFSET, new_commitment) && field_is(
        proof,
        MAP_ID_OFFSET,
        map_index,
    )
}

/// Checks the public inputs of a proof of a move inside the jungle.
pub fn check_jungle_move(
    proof: &soroban_sdk::Bytes,
    old_commitment: &[u8; 32],
    new_commitment: &[u8; 32],
    map_index: u32,
) -> (r: bool)
    ensures
        r == jungle_move_bound(
            blob_bytes(*proof),
            old_commitment@,
            new_commitment@,
            map_index as int,
        ),
{
    field32_is(proof, OLD_COMMITMENT_OFFSET, old_commitment) && field32_is(
        proof,
        NEW_COMMITMENT_OFFSET,
        new_commitment,
    ) && field_is(proof, MAP_ID_OFFSET, map_index)
}

/// Checks the public inputs of a response to a search.
pub fn check_search_response(
    proof: &soroban_sdk::Bytes,
    commitment: &[u8; 32],
    tiles: &Vec<(u32, u32)>,
) -> (r: bool)
    ensures
        r == search_response_bound(blob_bytes(*proof), commitment@, tiles@),
{
    if !field32_is(proof, OLD_COMMITMENT_OFFSET, commitment) {
        return false;
    }
    let mut i: u32 = 0;
    while i < SEARCH_SLOTS
        invariant
            i <= 9,
            forall|j: int| 0 <= j < i ==> #[trigger] slot_bound(blob_bytes(*proof), tiles@, j),
        decreases 9 - i,
    {
        let (want_x, want_y): (u32, u32) = if (i as usize) < tiles.len() {
            tiles[i as usize]
        } else {
            (SLOT_PADDING, SLOT_PADDING)
        };
        let x_ok: bool = field_is(proof, SEARCHED_X_OFFSET + i * FIELD_SIZE, want_x);
        let y_ok: bool = field_is(proof, SEARCHED_Y_OFFSET + i * FIELD_SIZE, want_y);
        if !x_ok || !y_ok {
            assert(!slot_bound(blob_bytes(*proof), tiles@, i as int));
            return false;
        }
        i += 1;
    }
    true
}

} // verus!
