//! The data of a match: errors, phases, identities and the session record,
//! each with the mathematical model that the contracts speak of.

use crate::maps::{in_bounds, is_jungle, is_plain, jungle_at, valid_map, GRID_SIZE, MAP_COUNT};
use vstd::prelude::*;

verus! {

/// A prey that completes this many turns wins the round.
pub const MAX_TURNS: u32 = 10;

/// Power searches a hunter has at the start of a round.
pub const POWER_SEARCHES_INITIAL: u32 = 2;

/// EMP charges a hunter has at the start of a round.
pub const EMP_USES_INITIAL: u32 = 1;

/// Dashes a prey has at the start of a round.
pub const DASHES_INITIAL: u32 = 2;

/// Rounds of a freshly created match.
pub const TOTAL_ROUNDS: u32 = 2;

/// Least Manhattan distance between the two spawn tiles.
pub const MIN_SPAWN_DISTANCE: u32 = 3;

/// Most tiles a single search can cover.
pub const MAX_SEARCHED_TILES: usize = 9;

/// Why an action was rejected.
#[derive(Clone, Copy, Debug, PartialEq, Eq, Structural)]
pub enum Error {
    GameNotFound,
    NotPlayer,
    WrongPhase,
    NotHunter,
    NotPrey,
    OutOfBounds,
    InvalidMove,
    NotJungle,
    ProofFailed,
    GameAlreadyEnded,
    NotAdjacentJungle,
    SearchPending,
    NoPowerSearches,
    PreyNotHidden,
    PreyAlreadyHidden,
    IsJungle,
    NoEMP,
    EmpTargetHidden,
    EmpOutOfRange,
    NoDashes,
    PreyFrozen,
}

impl Error {
    /// The number under which the error is reported to callers.
    pub open spec fn spec_code(self) -> u32 {
        match self {
            Error::GameNotFound => 1,
            Error::NotPlayer => 2,
            Error::WrongPhase => 3,
            Error::NotHunter => 4,
            Error::NotPrey => 5,
            Error::OutOfBounds => 6,
            Error::InvalidMove => 7,
            Error::NotJungle => 8,
            Error::ProofFailed => 9,
            Error::GameAlreadyEnded => 10,
            Error::NotAdjacentJungle => 11,
            Error::SearchPending => 12,
            Error::NoPowerSearches => 13,
            Error::PreyNotHidden => 14,
            Error::PreyAlreadyHidden => 15,
            Error::IsJungle => 16,
            Error::NoEMP => 17,
            Error::EmpTargetHidden => 18,
            Error::EmpOutOfRange => 19,
            Error::NoDashes => 20,
            Error::PreyFrozen => 21,
        }
    }

    /// The number under which the error is reported to callers.
    pub fn code(self) -> (c: u32)
        ensures
            c == self.spec_code(),
            1 <= c <= 21,
    {
        match self {
            Error::GameNotFound => 1,
            Error::NotPlayer => 2,
            Error::WrongPhase => 3,
            Error::NotHunter => 4,
            Error::NotPrey => 5,
            Error::OutOfBounds => 6,
            Error::InvalidMove => 7,
            Error::NotJungle => 8,
            Error::ProofFailed => 9,
            Error::GameAlreadyEnded => 10,
            Error::NotAdjacentJungle => 11,
            Error::SearchPending => 12,
            Error::NoPowerSearches => 13,
            Error::PreyNotHidden => 14,
            Error::PreyAlreadyHidden => 15,
            Error::IsJungle => 16,
            Error::NoEMP => 17,
            Error::EmpTargetHidden => 18,
            Error::EmpOutOfRange => 19,
            Error::NoDashes => 20,
            Error::PreyFrozen => 21,
        }
    }
}

/// Where a match stands.
#[derive(Clone, Copy, Debug, PartialEq, Eq, Structural)]
pub enum GamePhase {
    WaitingForPlayer2,
    HunterTurn,
    PreyTurn,
    SearchPending,
    Ended,
}

impl GamePhase {
    /// The number under which the phase is stored.
    pub open spec fn spec_code(self) -> u32 {
        match self {
            GamePhase::WaitingForPlayer2 => 0,
            GamePhase::HunterTurn => 1,
            GamePhase::PreyTurn => 2,
            GamePhase::SearchPending => 3,
            GamePhase::Ended => 4,
        }
    }

    /// The number under which the phase is stored.
    pub fn code(self) -> (c: u32)
        ensures
            c == self.spec_code(),
    {
        match self {
            GamePhase::WaitingForPlayer2 => 0,
            GamePhase::HunterTurn => 1,
            GamePhase::PreyTurn => 2,
            GamePhase::SearchPending => 3,
            GamePhase::Ended => 4,
        }
    }
}

/// The keys under which a deployment keeps its records.
#[derive(Clone, Copy, Debug, PartialEq, Eq, Structural)]
pub enum DataKey {
    Game(u32),
    Admin,
    MoveVk,
    SearchVk,
    NextSessionId,
    GameHubAddress,
}

/// A participant, named by the 56 characters of their address.
#[derive(Clone, Copy, Debug, PartialEq, Eq)]
pub struct Player {
    pub strkey: [u8; 56],
}

impl View for Player {
    type V = Seq<u8>;

    open spec fn view(&self) -> Seq<u8> {
        self.strkey@
    }
}

impl Player {
    /// The participant with the given address.
    pub fn new(strkey: [u8; 56]) -> (p: Player)
        ensures
            p@ == strkey@,
    {
        Player { strkey }
    }

    /// Whether two participants are the same one.
    pub fn same_as(&self, other: &Player) -> (r: bool)
        ensures
            r == (self@ == other@),
    {
        let mut i: usize = 0;
        while i < 56
            invariant
                i <= 56,
                forall|j: int| 0 <= j < i ==> self.strkey@[j] == other.strkey@[j],
            decreases 56 - i,
        {
            if self.strkey[i] != other.strkey[i] {
                return false;
            }
            i += 1;
        }
        assert(self.strkey@ =~= other.strkey@);
        true
    }
}

/// The map and the two starting tiles of a round.
#[derive(Clone, Copy, Debug, PartialEq, Eq, Structural)]
pub struct RoundSetup {
    pub map_index: u32,
    pub hunter_x: u32,
    pub hunter_y: u32,
    pub prey_x: u32,
    pub prey_y: u32,
}

/// The distance between two coordinates on one axis.
pub open spec fn spec_abs_diff(a: int, b: int) -> int {
    if a > b {
        a - b
    } else {
        b - a
    }
}

/// The number of orthogonal steps between two tiles.
pub open spec fn manhattan(x1: int, y1: int, x2: int, y2: int) -> int {
    spec_abs_diff(x1, x2) + spec_abs_diff(y1, y2)
}

/// The number of king's steps between two tiles.
pub open spec fn chebyshev(x1: int, y1: int, x2: int, y2: int) -> int {
    if spec_abs_diff(x1, x2) > spec_abs_diff(y1, y2) {
        spec_abs_diff(x1, x2)
    } else {
        spec_abs_diff(y1, y2)
    }
}

/// The distance between two coordinates on one axis.
pub fn abs_diff(a: u32, b: u32) -> (d: u32)
    ensures
        d == spec_abs_diff(a as int, b as int),
{
    if a > b {
        a - b
    } else {
        b - a
    }
}

impl RoundSetup {
    /// A setup names a map of the pool and two plain tiles of it that lie at
    /// least three steps apart.
    pub open spec fn wf(self) -> bool {
        &&& valid_map(self.map_index as int)
        &&& in_bounds(self.hunter_x as int, self.hunter_y as int)
        &&& in_bounds(self.prey_x as int, self.prey_y as int)
        &&& is_plain(self.map_index as int, self.hunter_x as int, self.hunter_y as int)
        &&& is_plain(self.map_index as int, self.prey_x as int, self.prey_y as int)
        &&& manhattan(
            self.hunter_x as int,
            self.hunter_y as int,
            self.prey_x as int,
            self.prey_y as int,
        ) >= 3
    }

    /// Tests whether the setup is well formed.
    pub fn is_well_formed(&self) -> (r: bool)
        ensures
            r == self.wf(),
    {
        if self.map_index >= MAP_COUNT || self.hunter_x >= GRID_SIZE || self.hunter_y >= GRID_SIZE
            || self.prey_x >= GRID_SIZE || self.prey_y >= GRID_SIZE {
            return false;
        }
        if jungle_at(self.map_index, self.hunter_x, self.hunter_y) {
            return false;
        }
        if jungle_at(self.map_index, self.prey_x, self.prey_y) {
            return false;
        }
        let dx: u32 = abs_diff(self.hunter_x, self.prey_x);
        let dy: u32 = abs_diff(self.hunter_y, self.prey_y);
        dx + dy >= MIN_SPAWN_DISTANCE
    }
}

/// The record of one match.
#[derive(Clone, Debug, PartialEq, Eq)]
pub struct Game {
    /// Who hunts in the current round.
    pub hunter: Player,
    /// Who is hunted in the current round.
    pub prey: Player,
    pub hunter_x: u32,
    pub hunter_y: u32,
    /// The prey's last public tile; stale while the prey is hidden.
    pub prey_x: u32,
    pub prey_y: u32,
    pub prey_is_hidden: bool,
    /// Stands for the prey's tile while it is hidden.
    pub prey_commitment: [u8; 32],
    pub phase: GamePhase,
    pub turn_number: u32,
    pub power_searches_remaining: u32,
    /// The tiles of the pending search, in the order they were recorded.
    pub searched_tiles: Vec<(u32, u32)>,
    pub winner: Option<Player>,
    /// Who created the match.
    pub player1: Player,
    /// Who joined it.
    pub player2: Player,
    pub round: u32,
    pub total_rounds: u32,
    pub player1_score: u32,
    pub player2_score: u32,
    pub map_index: u32,
    pub emp_uses_remaining: u32,
    pub prey_is_frozen: bool,
    pub prey_dash_remaining: u32,
}

/// What a `Game` holds, as mathematical values.
pub struct GameModel {
    pub hunter: Seq<u8>,
    pub prey: Seq<u8>,
    pub hunter_x: u32,
    pub hunter_y: u32,
    pub prey_x: u32,
    pub prey_y: u32,
    pub prey_is_hidden: bool,
    pub prey_commitment: Seq<u8>,
    pub phase: GamePhase,
    pub turn_number: u32,
    pub power_searches_remaining: u32,
    pub searched_tiles: Seq<(u32, u32)>,
    pub winner: Option<Seq<u8>>,
    pub player1: Seq<u8>,
    pub player2: Seq<u8>,
    pub round: u32,
    pub total_rounds: u32,
    pub player1_score: u32,
    pub player2_score: u32,
    pub map_index: u32,
    pub emp_uses_remaining: u32,
    pub prey_is_frozen: bool,
    pub prey_dash_remaining: u32,
}

/// The commitment of a prey that is not hidden: thirty-two zero bytes.
pub open spec fn no_commitment() -> Seq<u8> {
    Seq::new(32, |i: int| 0u8)
}

/// The winner of a finished match: whoever scored more, nobody on a tie.
pub open spec fn decided_winner(
    player1: Seq<u8>,
    player2: Seq<u8>,
    player1_score: int,
    player2_score: int,
) -> Option<Seq<u8>> {
    if player1_score > player2_score {
        Some(player1)
    } else if player2_score > player1_score {
        Some(player2)
    } else {
        None
    }
}

impl GameModel {
    /// Rounds that each player hunts.
    pub open spec fn rounds_per_side(self) -> int {
        self.total_rounds as int / 2
    }

    /// Every tile of the pending search is a jungle tile of the current map.
    pub open spec fn searched_tiles_are_jungle(self) -> bool {
        forall|i: int|
            0 <= i < self.searched_tiles.len() ==> {
                &&& in_bounds(
                    (#[trigger] self.searched_tiles[i]).0 as int,
                    self.searched_tiles[i].1 as int,
                )
                &&& is_jungle(
                    self.map_index as int,
                    self.searched_tiles[i].0 as int,
                    self.searched_tiles[i].1 as int,
                )
            }
    }

    /// The creator hunts in the first half of the match, the joiner in the
    /// second.
    pub open spec fn roles_follow_round(self) -> bool {
        if self.round as int <= self.rounds_per_side() {
            self.hunter == self.player1 && self.prey == self.player2
        } else {
            self.hunter == self.player2 && self.prey == self.player1
        }
    }

    /// What holds of every record that the actions produce.
    pub open spec fn wf(self) -> bool {
        &&& in_bounds(self.hunter_x as int, self.hunter_y as int)
        &&& in_bounds(self.prey_x as int, self.prey_y as int)
        &&& valid_map(self.map_index as int)
        &&& self.total_rounds >= 2
        &&& self.total_rounds % 2 == 0
        &&& 1 <= self.round <= self.total_rounds
        &&& self.power_searches_remaining <= 2
        &&& self.emp_uses_remaining <= 1
        &&& self.prey_dash_remaining <= 2
        &&& self.prey_commitment.len() == 32
        &&& self.searched_tiles.len() <= 9
        &&& self.searched_tiles_are_jungle()
        &&& self.phase != GamePhase::SearchPending ==> self.searched_tiles.len() == 0
        &&& self.phase == GamePhase::SearchPending ==> self.prey_is_hidden
        &&& self.roles_follow_round()
        &&& match self.phase {
            GamePhase::Ended => {
                &&& self.round == self.total_rounds
                &&& self.player1_score + self.player2_score == self.total_rounds
                &&& self.turn_number <= 11
                &&& self.winner == decided_winner(
                    self.player1,
                    self.player2,
                    self.player1_score as int,
                    self.player2_score as int,
                )
            },
            GamePhase::WaitingForPlayer2 => {
                &&& self.round == 1
                &&& self.player1_score + self.player2_score == 0
                &&& self.turn_number == 0
                &&& self.winner is None
            },
            _ => {
                &&& self.player1_score + self.player2_score == self.round - 1
                &&& 1 <= self.turn_number <= 10
                &&& self.winner is None
            },
        }
    }
}

impl View for Game {
    type V = GameModel;

    open spec fn view(&self) -> GameModel {
        GameModel {
            hunter: self.hunter@,
            prey: self.prey@,
            hunter_x: self.hunter_x,
            hunter_y: self.hunter_y,
            prey_x: self.prey_x,
            prey_y: self.prey_y,
            prey_is_hidden: self.prey_is_hidden,
            prey_commitment: self.prey_commitment@,
            phase: self.phase,
            turn_number: self.turn_number,
            power_searches_remaining: self.power_searches_remaining,
            searched_tiles: self.searched_tiles@,
            winner: match self.winner {
                Some(p) => Some(p@),
                None => None,
            },
            player1: self.player1@,
            player2: self.player2@,
            round: self.round,
            total_rounds: self.total_rounds,
            player1_score: self.player1_score,
            player2_score: self.player2_score,
            map_index: self.map_index,
            emp_uses_remaining: self.emp_uses_remaining,
            prey_is_frozen: self.prey_is_frozen,
            prey_dash_remaining: self.prey_dash_remaining,
        }
    }
}

impl Game {
    /// Tests whether every tile of the pending search is a jungle tile of
    /// the current map.
    fn searched_tiles_are_jungle(&self) -> (r: bool)
        requires
            valid_map(self.map_index as int),
        ensures
            r == self@.searched_tiles_are_jungle(),
    {
        let mut i: usize = 0;
        while i < self.searched_tiles.len()
            invariant
                i <= self.searched_tiles@.len(),
                valid_map(self.map_index as int),
                forall|j: int|
                    0 <= j < i ==> {
                        &&& in_bounds(
                            (#[trigger] self.searched_tiles@[j]).0 as int,
                            self.searched_tiles@[j].1 as int,
                        )
                        &&& is_jungle(
                            self.map_index as int,
                            self.searched_tiles@[j].0 as int,
                            self.searched_tiles@[j].1 as int,
                        )
                    },
            decreases self.searched_tiles@.len() - i,
        {
            let tile: (u32, u32) = self.searched_tiles[i];
            assert(self@.searched_tiles[i as int] == tile);
            if tile.0 >= GRID_SIZE || tile.1 >= GRID_SIZE {
                return false;
            }
            if !jungle_at(self.map_index, tile.0, tile.1) {
                return false;
            }
            i += 1;
        }
        true
    }

    /// Tests whether the roles are bound as the round demands.
    fn roles_follow_round(&self) -> (r: bool)
        ensures
            r == self@.roles_follow_round(),
    {
        if self.round <= self.total_rounds / 2 {
            self.hunter.same_as(&self.player1) && self.prey.same_as(&self.player2)
        } else {
            self.hunter.same_as(&self.player2) && self.prey.same_as(&self.player1)
        }
    }

    /// Tests whether the recorded winner is the one that the scores decide.
    fn winner_is_decided(&self) -> (r: bool)
        ensures
            r == (self@.winner == decided_winner(
                self@.player1,
                self@.player2,
                self@.player1_score as int,
                self@.player2_score as int,
            )),
    {
        match self.winner {
            Some(w) => {
                if self.player1_score > self.player2_score {
                    w.same_as(&self.player1)
                } else if self.player2_score > self.player1_score {
                    w.same_as(&self.player2)
                } else {
                    false
                }
            },
            None => self.player1_score == self.player2_score,
        }
    }

    /// Tests whether the record is one that the actions can have produced.
    pub fn is_well_formed(&self) -> (r: bool)
        ensures
            r == self@.wf(),
    {
        if self.hunter_x >= GRID_SIZE || self.hunter_y >= GRID_SIZE || self.prey_x >= GRID_SIZE
            || self.prey_y >= GRID_SIZE || self.map_index >= MAP_COUNT {
            return false;
        }
        if self.total_rounds < 2 || self.total_rounds % 2 != 0 || self.round < 1 || self.round
            > self.total_rounds {
            return false;
        }
        if self.power_searches_remaining > POWER_SEARCHES_INITIAL || self.emp_uses_remaining
            > EMP_USES_INITIAL || self.prey_dash_remaining > DASHES_INITIAL {
            return false;
        }
        if self.searched_tiles.len() > MAX_SEARCHED_TILES || !self.searched_tiles_are_jungle() {
            return false;
        }
        let pending: bool = matches!(self.phase, GamePhase::SearchPending);
        if !pending && self.searched_tiles.len() != 0 {
            return false;
        }
        if pending && !self.prey_is_hidden {
            return false;
        }
        if !self.roles_follow_round() {
            return false;
        }
        let total_score: u64 = self.player1_score as u64 + self.player2_score as u64;
        match self.phase {
            GamePhase::Ended => {
                self.round == self.total_rounds && total_score == self.total_rounds as u64
                    && self.turn_number <= MAX_TURNS + 1 && self.winner_is_decided()
            },
            GamePhase::WaitingForPlayer2 => {
                self.round == 1 && total_score == 0 && self.turn_number == 0
                    && self.winner.is_none()
            },
            _ => {
                total_score == (self.round - 1) as u64 && 1 <= self.turn_number
                    && self.turn_number <= MAX_TURNS && self.winner.is_none()
            },
        }
    }
}

} // verus!
