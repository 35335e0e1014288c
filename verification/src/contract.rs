//! The actions of the game, each checked against the rules.

use crate::binder::{blob_bytes, check_enter_jungle, check_jungle_move, check_search_response};
use crate::maps::{jungle_at, GRID_SIZE};
use crate::rules::{
    check, lemma_scanned, lemma_step_preserves_wf, round_ended, scan_offset, scanned, step,
    step_in_round, turn_advanced, verification_key, Action, ActionKind, Role,
};
use crate::types::{
    abs_diff, no_commitment, DataKey, Error, Game, GameModel, GamePhase, Player, RoundSetup,
    DASHES_INITIAL, EMP_USES_INITIAL, MAX_TURNS, POWER_SEARCHES_INITIAL, TOTAL_ROUNDS,
};
use vstd::prelude::*;

verus! {

/// The game: every action that a player can take on a record.
pub struct ZkHuntContract;

/// Whether a call left the record and returned as the rules say: on
/// success the record is the one that the rules name, on failure it is
/// untouched and the error is the one that the rules name.
pub open spec fn follows(
    before: GameModel,
    after: GameModel,
    returned: Result<(), Error>,
    ruled: Result<GameModel, Error>,
) -> bool {
    match ruled {
        Ok(g) => returned is Ok && after == g,
        Err(e) => returned == Err::<(), Error>(e) && after == before,
    }
}

/// Whether a round of the record can be scored without a score running
/// past the largest number that it can hold.
pub open spec fn scores_fit(g: GameModel) -> bool {
    g.player1_score < u32::MAX && g.player2_score < u32::MAX
}

impl ZkHuntContract {
    /// Ends the current round. The point goes to the fixed identity that
    /// holds the winning role. After the last round the match is decided;
    /// after any other the next round starts on `next`, with the roles
    /// swapped if it is the first round of the second half.
    pub fn end_round(game: &mut Game, hunter_won_round: bool, next: &RoundSetup)
        requires
            scores_fit(old(game)@),
        ensures
            final(game)@ == round_ended(old(game)@, hunter_won_round, *next),
    {
        let winner_is_player1: bool = if hunter_won_round {
            game.hunter.same_as(&game.player1)
        } else {
            game.prey.same_as(&game.player1)
        };
        if winner_is_player1 {
            game.player1_score += 1;
        } else {
            game.player2_score += 1;
        }
        if game.round >= game.total_rounds {
            if game.player1_score > game.player2_score {
                game.winner = Some(game.player1);
            } else if game.player2_score > game.player1_score {
                game.winner = Some(game.player2);
            } else {
                game.winner = None;
            }
            game.searched_tiles = Vec::new();
            game.phase = GamePhase::Ended;
            return ;
        }
        game.round += 1;
        if game.round == game.total_rounds / 2 + 1 {
            let old_hunter: Player = game.hunter;
            game.hunter = game.prey;
            game.prey = old_hunter;
        }
        game.map_index = next.map_index;
        game.hunter_x = next.hunter_x;
        game.hunter_y = next.hunter_y;
        game.prey_x = next.prey_x;
        game.prey_y = next.prey_y;
        game.prey_is_hidden = false;
        game.prey_commitment = [0u8; 32];
        game.turn_number = 1;
        game.power_searches_remaining = POWER_SEARCHES_INITIAL;
        game.searched_tiles = Vec::new();
        game.emp_uses_remaining = EMP_USES_INITIAL;
        game.prey_is_frozen = false;
        game.prey_dash_remaining = DASHES_INITIAL;
        game.phase = GamePhase::HunterTurn;
        proof {
            assert(game.prey_commitment@ =~= no_commitment());
            assert(game.searched_tiles@ =~= Seq::empty());
        }
    }

    /// Counts the turn that the prey has just used. The hunter is next,
    /// unless the prey has outlasted the tenth turn and wins the round.
    pub fn check_prey_survival(game: &mut Game, next: &RoundSetup)
        requires
            scores_fit(old(game)@),
            old(game)@.turn_number < u32::MAX,
        ensures
            final(game)@ == turn_advanced(old(game)@, *next),
    {
        game.turn_number += 1;
        if game.turn_number > MAX_TURNS {
            Self::end_round(game, false, next);
        } else {
            game.phase = GamePhase::HunterTurn;
        }
    }

    /// The hunter steps to `(x, y)`, a tile at most one step away. Stepping
    /// onto a prey that is not hidden wins the round.
    pub fn hunter_move(game: &mut Game, x: u32, y: u32, next: &RoundSetup) -> (r: Result<(), Error>)
        requires
            old(game)@.wf(),
            next.wf(),
        ensures
            follows(
                old(game)@,
                final(game)@,
                r,
                step(old(game)@, (Action::HunterMove { x, y }), true, *next),
            ),
            final(game)@.wf(),
    {
        proof {
            lemma_step_preserves_wf(game@, (Action::HunterMove { x, y }), true, *next);
        }
        if !matches!(game.phase, GamePhase::HunterTurn) {
            return Err(Error::WrongPhase);
        }
        if x >= GRID_SIZE || y >= GRID_SIZE {
            return Err(Error::OutOfBounds);
        }
        let dx: u32 = abs_diff(x, game.hunter_x);
        let dy: u32 = abs_diff(y, game.hunter_y);
        if dx + dy > 1 {
            return Err(Error::InvalidMove);
        }
        game.hunter_x = x;
        game.hunter_y = y;
        if !game.prey_is_hidden && game.hunter_x == game.prey_x && game.hunter_y == game.prey_y {
            Self::end_round(game, true, next);
            return Ok(());
        }
        game.phase = GamePhase::PreyTurn;
        Ok(())
    }

    /// The hunter searches the jungle tile `(x, y)`, which lies next to
    /// them, diagonals included. The prey must be hidden.
    pub fn hunter_search(game: &mut Game, x: u32, y: u32) -> (r: Result<(), Error>)
        requires
            old(game)@.wf(),
        ensures
            follows(
                old(game)@,
                final(game)@,
                r,
                step_in_round(old(game)@, (Action::HunterSearch { x, y })),
            ),
            final(game)@.wf(),
    {
        if !matches!(game.phase, GamePhase::HunterTurn) {
            return Err(Error::WrongPhase);
        }
        if !game.prey_is_hidden {
            return Err(Error::PreyNotHidden);
        }
        if x >= GRID_SIZE || y >= GRID_SIZE {
            return Err(Error::OutOfBounds);
        }
        let dx: u32 = abs_diff(x, game.hunter_x);
        let dy: u32 = abs_diff(y, game.hunter_y);
        if dx > 1 || dy > 1 {
            return Err(Error::InvalidMove);
        }
        if !jungle_at(game.map_index, x, y) {
            return Err(Error::NotJungle);
        }
        let mut tiles: Vec<(u32, u32)> = Vec::new();
        tiles.push((x, y));
        game.searched_tiles = tiles;
        game.phase = GamePhase::SearchPending;
        proof {
            assert(game.searched_tiles@ =~= seq![(x, y)]);
        }
        Ok(())
    }

    /// The `i`-th tile of the neighbourhood that a power search scans, as
    /// an offset from the hunter.
    pub fn scan_offset_of(i: u32) -> (o: (i32, i32))
        requires
            i < 9,
        ensures
            (o.0 as int, o.1 as int) == scan_offset(i as int),
    {
        match i {
            0 => (0, 0),
            1 => (-1, 0),
            2 => (1, 0),
            3 => (0, -1),
            4 => (0, 1),
            5 => (-1, -1),
            6 => (1, -1),
            7 => (-1, 1),
            _ => (1, 1),
        }
    }

    /// The jungle tiles in the neighbourhood of `(hx, hy)`, in scanning
    /// order.
    pub fn scan_neighbourhood(map_index: u32, hx: u32, hy: u32) -> (tiles: Vec<(u32, u32)>)
        requires
            map_index < 20,
            hx < 8,
            hy < 8,
        ensures
            tiles@ == scanned(map_index as int, hx as int, hy as int, 9),
    {
        let mut tiles: Vec<(u32, u32)> = Vec::new();
        let mut i: u32 = 0;
        while i < 9
            invariant
                i <= 9,
                map_index < 20,
                hx < 8,
                hy < 8,
                tiles@ == scanned(map_index as int, hx as int, hy as int, i as nat),
            decreases 9 - i,
        {
            let o: (i32, i32) = Self::scan_offset_of(i);
            let nx: i32 = hx as i32 + o.0;
            let ny: i32 = hy as i32 + o.1;
            if nx >= 0 && nx < 8 && ny >= 0 && ny < 8 {
                if jungle_at(map_index, nx as u32, ny as u32) {
                    tiles.push((nx as u32, ny as u32));
                }
            }
            i += 1;
        }
        tiles
    }

    /// The hunter spends a power search on every jungle tile around them.
    /// The prey must be hidden.
    pub fn hunter_power_search(game: &mut Game) -> (r: Result<(), Error>)
        requires
            old(game)@.wf(),
        ensures
            follows(
                old(game)@,
                final(game)@,
                r,
                step_in_round(old(game)@, Action::HunterPowerSearch),
            ),
            final(game)@.wf(),
    {
        proof {
            lemma_scanned(game.map_index as int, game.hunter_x as int, game.hunter_y as int, 9);
        }
        if !matches!(game.phase, GamePhase::HunterTurn) {
            return Err(Error::WrongPhase);
        }
        if !game.prey_is_hidden {
            return Err(Error::PreyNotHidden);
        }
        if game.power_searches_remaining == 0 {
            return Err(Error::NoPowerSearches);
        }
        let tiles: Vec<(u32, u32)> = Self::scan_neighbourhood(
            game.map_index,
            game.hunter_x,
            game.hunter_y,
        );
        game.power_searches_remaining -= 1;
        game.searched_tiles = tiles;
        game.phase = GamePhase::SearchPending;
        Ok(())
    }

    /// The hunter freezes a prey that is not hidden for its next turn, and
    /// keeps the turn.
    pub fn hunter_emp(game: &mut Game) -> (r: Result<(), Error>)
        requires
            old(game)@.wf(),
        ensures
            follows(
                old(game)@,
                final(game)@,
                r,
                step_in_round(old(game)@, Action::HunterEmp),
            ),
            final(game)@.wf(),
    {
        if !matches!(game.phase, GamePhase::HunterTurn) {
            return Err(Error::WrongPhase);
        }
        if game.emp_uses_remaining == 0 {
            return Err(Error::NoEMP);
        }
        if game.prey_is_hidden {
            return Err(Error::EmpTargetHidden);
        }
        game.prey_is_frozen = true;
        game.emp_uses_remaining -= 1;
        Ok(())
    }

    /// The prey steps to the plain tile `(x, y)`, at most one step from its
    /// last public tile, and is no longer hidden.
    pub fn prey_move_public(game: &mut Game, x: u32, y: u32, next: &RoundSetup) -> (r: Result<
        (),
        Error,
    >)
        requires
            old(game)@.wf(),
            next.wf(),
        ensures
            follows(
                old(game)@,
                final(game)@,
                r,
                step(old(game)@, (Action::PreyMovePublic { x, y }), true, *next),
            ),
            final(game)@.wf(),
    {
        proof {
            lemma_step_preserves_wf(game@, (Action::PreyMovePublic { x, y }), true, *next);
        }
        if !matches!(game.phase, GamePhase::PreyTurn) {
            return Err(Error::WrongPhase);
        }
        if game.prey_is_frozen {
            return Err(Error::PreyFrozen);
        }
        if x >= GRID_SIZE || y >= GRID_SIZE {
            return Err(Error::OutOfBounds);
        }
        if jungle_at(game.map_index, x, y) {
            return Err(Error::IsJungle);
        }
        let dx: u32 = abs_diff(x, game.prey_x);
        let dy: u32 = abs_diff(y, game.prey_y);
        if dx + dy > 1 {
            return Err(Error::InvalidMove);
        }
        game.prey_x = x;
        game.prey_y = y;
        game.prey_is_hidden = false;
        Self::check_prey_survival(game, next);
        Ok(())
    }

    /// The prey spends a dash to run to the plain tile `(x, y)`, at most
    /// two steps from its last public tile, and is no longer hidden.
    pub fn prey_dash_public(game: &mut Game, x: u32, y: u32, next: &RoundSetup) -> (r: Result<
        (),
        Error,
    >)
        requires
            old(game)@.wf(),
            next.wf(),
        ensures
            follows(
                old(game)@,
                final(game)@,
                r,
                step(old(game)@, (Action::PreyDashPublic { x, y }), true, *next),
            ),
            final(game)@.wf(),
    {
        proof {
            lemma_step_preserves_wf(game@, (Action::PreyDashPublic { x, y }), true, *next);
        }
        if !matches!(game.phase, GamePhase::PreyTurn) {
            return Err(Error::WrongPhase);
        }
        if game.prey_is_frozen {
            return Err(Error::PreyFrozen);
        }
        if game.prey_dash_remaining == 0 {
            return Err(Error::NoDashes);
        }
        if x >= GRID_SIZE || y >= GRID_SIZE {
            return Err(Error::OutOfBounds);
        }
        if jungle_at(game.map_index, x, y) {
            return Err(Error::IsJungle);
        }
        let dx: u32 = abs_diff(x, game.prey_x);
        let dy: u32 = abs_diff(y, game.prey_y);
        if dx + dy > 2 {
            return Err(Error::InvalidMove);
        }
        game.prey_dash_remaining -= 1;
        game.prey_x = x;
        game.prey_y = y;
        game.prey_is_hidden = false;
        Self::check_prey_survival(game, next);
        Ok(())
    }

    /// The hidden prey steps out onto the plain tile `(x, y)` and gives up
    /// its commitment.
    pub fn prey_exit_jungle(game: &mut Game, x: u32, y: u32, next: &RoundSetup) -> (r: Result<
        (),
        Error,
    >)
        requires
            old(game)@.wf(),
            next.wf(),
        ensures
            follows(
                old(game)@,
                final(game)@,
                r,
                step(old(game)@, (Action::PreyExitJungle { x, y }), true, *next),
            ),
            final(game)@.wf(),
    {
        proof {
            lemma_step_preserves_wf(game@, (Action::PreyExitJungle { x, y }), true, *next);
        }
        if !matches!(game.phase, GamePhase::PreyTurn) {
            return Err(Error::WrongPhase);
        }
        if game.prey_is_frozen {
            return Err(Error::PreyFrozen);
        }
        if !game.prey_is_hidden {
            return Err(Error::PreyNotHidden);
        }
        if x >= GRID_SIZE || y >= GRID_SIZE {
            return Err(Error::OutOfBounds);
        }
        if jungle_at(game.map_index, x, y) {
            return Err(Error::IsJungle);
        }
        game.prey_x = x;
        game.prey_y = y;
        game.prey_is_hidden = false;
        game.prey_commitment = [0u8; 32];
        proof {
            assert(game.prey_commitment@ =~= no_commitment());
        }
        Self::check_prey_survival(game, next);
        Ok(())
    }

    /// The frozen prey lets its turn pass and thaws.
    pub fn prey_pass_frozen(game: &mut Game, next: &RoundSetup) -> (r: Result<(), Error>)
        requires
            old(game)@.wf(),
            next.wf(),
        ensures
            follows(
                old(game)@,
                final(game)@,
                r,
                step(old(game)@, Action::PreyPassFrozen, true, *next),
            ),
            final(game)@.wf(),
    {
        proof {
            lemma_step_preserves_wf(game@, Action::PreyPassFrozen, true, *next);
        }
        if !matches!(game.phase, GamePhase::PreyTurn) {
            return Err(Error::WrongPhase);
        }
        if !game.prey_is_frozen {
            return Err(Error::WrongPhase);
        }
        game.prey_is_frozen = false;
        Self::check_prey_survival(game, next);
        Ok(())
    }

    /// Checks an entry into the jungle before its proof goes to the
    /// verifier, and names the key that the proof must be held against.
    pub fn check_prey_enter_jungle(
        game: &Game,
        new_commitment: &[u8; 32],
        proof: &soroban_sdk::Bytes,
    ) -> (r: Result<DataKey, Error>)
        requires
            game@.wf(),
        ensures
            (r == match check(
                game@,
                (Action::PreyEnterJungle {
                    new_commitment: new_commitment@,
                    proof: blob_bytes(*proof),
                }),
            ) {
                Some(e) => Err::<DataKey, Error>(e),
                None => Ok(DataKey::MoveVk),
            }),
    {
        if !matches!(game.phase, GamePhase::PreyTurn) {
            return Err(Error::WrongPhase);
        }
        if game.prey_is_frozen {
            return Err(Error::PreyFrozen);
        }
        if game.prey_is_hidden {
            return Err(Error::PreyAlreadyHidden);
        }
        if !check_enter_jungle(proof, new_commitment, game.map_index) {
            return Err(Error::ProofFailed);
        }
        Ok(DataKey::MoveVk)
    }

    /// The prey hides in the jungle behind `new_commitment`. `accepted` is
    /// the verifier's verdict on `proof`; it counts only once every other
    /// check has passed.
    pub fn prey_enter_jungle(
        game: &mut Game,
        new_commitment: &[u8; 32],
        proof: &soroban_sdk::Bytes,
        accepted: bool,
        next: &RoundSetup,
    ) -> (r: Result<(), Error>)
        requires
            old(game)@.wf(),
            next.wf(),
        ensures
            follows(
                old(game)@,
                final(game)@,
                r,
                step(
                    old(game)@,
                    (Action::PreyEnterJungle {
                        new_commitment: new_commitment@,
                        proof: blob_bytes(*proof),
                    }),
                    accepted,
                    *next,
                ),
            ),
            final(game)@.wf(),
    {
        proof {
            lemma_step_preserves_wf(
                game@,
                (Action::PreyEnterJungle {
                    new_commitment: new_commitment@,
                    proof: blob_bytes(*proof),
                }),
                accepted,
                *next,
            );
        }
        match Self::check_prey_enter_jungle(game, new_commitment, proof) {
            Err(e) => {
                return Err(e);
            },
            Ok(_) => {},
        }
        if !accepted {
            return Err(Error::ProofFailed);
        }
        game.prey_commitment = *new_commitment;
        game.prey_is_hidden = true;
        Self::check_prey_survival(game, next);
        Ok(())
    }

    /// Checks a move inside the jungle before its proof goes to the
    /// verifier, and names the key that the proof must be held against.
    pub fn check_prey_move_jungle(
        game: &Game,
        new_commitment: &[u8; 32],
        proof: &soroban_sdk::Bytes,
    ) -> (r: Result<DataKey, Error>)
        requires
            game@.wf(),
        ensures
            (r == match check(
                game@,
                (Action::PreyMoveJungle {
                    new_commitment: new_commitment@,
                    proof: blob_bytes(*proof),
                }),
            ) {
                Some(e) => Err::<DataKey, Error>(e),
                None => Ok(DataKey::MoveVk),
            }),
    {
        if !matches!(game.phase, GamePhase::PreyTurn) {
            return Err(Error::WrongPhase);
        }
        if game.prey_is_frozen {
            return Err(Error::PreyFrozen);
        }
        if !game.prey_is_hidden {
            return Err(Error::PreyNotHidden);
        }
        if !check_jungle_move(proof, &game.prey_commitment, new_commitment, game.map_index) {
            return Err(Error::ProofFailed);
        }
        Ok(DataKey::MoveVk)
    }

    /// The hidden prey moves and replaces its commitment. `accepted` is the
    /// verifier's verdict on `proof`; it counts only once every other check
    /// has passed.
    pub fn prey_move_jungle(
        game: &mut Game,
        new_commitment: &[u8; 32],
        proof: &soroban_sdk::Bytes,
        accepted: bool,
        next: &RoundSetup,
    ) -> (r: Result<(), Error>)
        requires
            old(game)@.wf(),
            next.wf(),
        ensures
            follows(
                old(game)@,
                final(game)@,
                r,
                step(
                    old(game)@,
                    (Action::PreyMoveJungle {
                        new_commitment: new_commitment@,
                        proof: blob_bytes(*proof),
                    }),
                    accepted,
                    *next,
                ),
            ),
            final(game)@.wf(),
    {
        proof {
            lemma_step_preserves_wf(
                game@,
                (Action::PreyMoveJungle {
                    new_commitment: new_commitment@,
                    proof: blob_bytes(*proof),
                }),
                accepted,
                *next,
            );
        }
        match Self::check_prey_move_jungle(game, new_commitment, proof) {
            Err(e) => {
                return Err(e);
            },
            Ok(_) => {},
        }
        if !accepted {
            return Err(Error::ProofFailed);
        }
        game.prey_commitment = *new_commitment;
        Self::check_prey_survival(game, next);
        Ok(())
    }

    /// Checks a response to the pending search before its proof goes to the
    /// verifier. `Ok(Some(key))` names the key that the proof must be held
    /// against; `Ok(None)` says that the prey concedes and nothing is to be
    /// verified.
    pub fn check_respond_search(game: &Game, proof: &soroban_sdk::Bytes) -> (r: Result<
        Option<DataKey>,
        Error,
    >)
        requires
            game@.wf(),
        ensures
            (r == match check(game@, (Action::RespondSearch { proof: blob_bytes(*proof) })) {
                Some(e) => Err::<Option<DataKey>, Error>(e),
                None => Ok(verification_key((Action::RespondSearch { proof: blob_bytes(*proof) }))),
            }),
    {
        if !matches!(game.phase, GamePhase::SearchPending) {
            return Err(Error::WrongPhase);
        }
        if proof.len() == 0 {
            return Ok(None);
        }
        if !check_search_response(proof, &game.prey_commitment, &game.searched_tiles) {
            return Err(Error::ProofFailed);
        }
        Ok(Some(DataKey::SearchVk))
    }

    /// The prey answers the pending search. An empty proof concedes the
    /// round to the hunter. Any other proof must answer for exactly the
    /// searched tiles; `accepted` is the verifier's verdict on it, which
    /// counts only once every other check has passed. A good answer clears
    /// the search and costs the prey no turn.
    pub fn respond_search(
        game: &mut Game,
        proof: &soroban_sdk::Bytes,
        accepted: bool,
        next: &RoundSetup,
    ) -> (r: Result<(), Error>)
        requires
            old(game)@.wf(),
            next.wf(),
        ensures
            follows(
                old(game)@,
                final(game)@,
                r,
                step(
                    old(game)@,
                    (Action::RespondSearch { proof: blob_bytes(*proof) }),
                    accepted,
                    *next,
                ),
            ),
            final(game)@.wf(),
    {
        proof {
            lemma_step_preserves_wf(
                game@,
                (Action::RespondSearch { proof: blob_bytes(*proof) }),
                accepted,
                *next,
            );
        }
        match Self::check_respond_search(game, proof) {
            Err(e) => {
                return Err(e);
            },
            Ok(None) => {
                Self::end_round(game, true, next);
                return Ok(());
            },
            Ok(Some(_)) => {},
        }
        if !accepted {
            return Err(Error::ProofFailed);
        }
        game.searched_tiles = Vec::new();
        game.phase = GamePhase::PreyTurn;
        Ok(())
    }

    /// The hunter claims the round because the search went unanswered.
    /// Returns the winner of the match where this decided it, and otherwise
    /// whoever hunts next.
    pub fn claim_catch(game: &mut Game, next: &RoundSetup) -> (r: Result<Player, Error>)
        requires
            old(game)@.wf(),
            next.wf(),
        ensures
            (match step(old(game)@, Action::ClaimCatch, true, *next) {
                Ok(g) => {
                    &&& final(game)@ == g
                    &&& r is Ok
                    &&& r->Ok_0@ == match g.winner {
                        Some(w) => w,
                        None => g.hunter,
                    }
                },
                Err(e) => r == Err::<Player, Error>(e) && final(game)@ == old(game)@,
            }),
            final(game)@.wf(),
    {
        proof {
            lemma_step_preserves_wf(game@, Action::ClaimCatch, true, *next);
        }
        if !matches!(game.phase, GamePhase::SearchPending) {
            return Err(Error::WrongPhase);
        }
        Self::end_round(game, true, next);
        match game.winner {
            Some(w) => Ok(w),
            None => Ok(game.hunter),
        }
    }

    /// Opens a match. The creator hunts first; until somebody joins, the
    /// creator also stands in for the prey.
    pub fn create_game(hunter: Player, setup: &RoundSetup) -> (game: Game)
        requires
            setup.wf(),
        ensures
            game@ == created(hunter@, *setup),
            game@.wf(),
    {
        let game = Game {
            hunter: hunter,
            prey: hunter,
            hunter_x: setup.hunter_x,
            hunter_y: setup.hunter_y,
            prey_x: setup.prey_x,
            prey_y: setup.prey_y,
            prey_is_hidden: false,
            prey_commitment: [0u8; 32],
            phase: GamePhase::WaitingForPlayer2,
            turn_number: 0,
            power_searches_remaining: POWER_SEARCHES_INITIAL,
            searched_tiles: Vec::new(),
            winner: None,
            player1: hunter,
            player2: hunter,
            round: 1,
            total_rounds: TOTAL_ROUNDS,
            player1_score: 0,
            player2_score: 0,
            map_index: setup.map_index,
            emp_uses_remaining: EMP_USES_INITIAL,
            prey_is_frozen: false,
            prey_dash_remaining: DASHES_INITIAL,
        };
        proof {
            assert(game.prey_commitment@ =~= no_commitment());
            assert(game@.searched_tiles =~= Seq::empty());
        }
        game
    }

    /// The second player takes the seat of the prey, and the first round
    /// begins with the hunter's turn.
    pub fn join_game(game: &mut Game, prey: Player) -> (r: Result<(), Error>)
        requires
            old(game)@.wf(),
        ensures
            follows(
                old(game)@,
                final(game)@,
                r,
                step_in_round(old(game)@, (Action::Join { prey: prey@ })),
            ),
            final(game)@.wf(),
    {
        if !matches!(game.phase, GamePhase::WaitingForPlayer2) {
            return Err(Error::WrongPhase);
        }
        game.prey = prey;
        game.player2 = prey;
        game.phase = GamePhase::HunterTurn;
        game.turn_number = 1;
        Ok(())
    }

    /// Hands out the record that the store holds under a session's number,
    /// or reports that there is none.
    pub fn get_game(stored: Option<Game>) -> (r: Result<Game, Error>)
        ensures
            (match stored {
                Some(g) => r == Ok::<Game, Error>(g),
                None => r == Err::<Game, Error>(Error::GameNotFound),
            }),
    {
        match stored {
            Some(g) => Ok(g),
            None => Err(Error::GameNotFound),
        }
    }

    /// The number of the next session and the number to keep for the one
    /// after it. The first session of a store that holds no number yet is
    /// session one.
    pub fn next_session_id(stored: Option<u32>) -> (r: (u32, u32))
        requires
            stored != Some(u32::MAX),
        ensures
            (r.0 == match stored {
                Some(id) => id,
                None => 1u32,
            }),
            r.1 == r.0 + 1,
    {
        let session_id: u32 = match stored {
            Some(id) => id,
            None => 1,
        };
        (session_id, session_id + 1)
    }

    /// Who must authorise an action of the given name on a record: the
    /// holder of the acting role. For joining it is whoever joins, who is not
    /// in the record yet, and the answer is `None`.
    pub fn required_signer(game: &Game, kind: ActionKind) -> (p: Option<Player>)
        ensures
            (match p {
                Some(signer) => kind != ActionKind::Join && signer@ == match kind.spec_acting_role() {
                    Role::Hunter => game@.hunter,
                    Role::Prey => game@.prey,
                },
                None => kind == ActionKind::Join,
            }),
    {
        if matches!(kind, ActionKind::Join) {
            return None;
        }
        match kind.acting_role() {
            Role::Hunter => Some(game.hunter),
            Role::Prey => Some(game.prey),
        }
    }

    /// Whether the first player is reported as the winner when a match has
    /// ended: they are unless the second player scored more.
    pub fn player1_reported_winner(game: &Game) -> (r: bool)
        ensures
            r == (game@.player1_score >= game@.player2_score),
    {
        game.player1_score >= game.player2_score
    }
}

/// The record of a match that has just been opened by `hunter` on `setup`.
pub open spec fn created(hunter: Seq<u8>, setup: RoundSetup) -> GameModel {
    GameModel {
        hunter: hunter,
        prey: hunter,
        hunter_x: setup.hunter_x,
        hunter_y: setup.hunter_y,
        prey_x: setup.prey_x,
        prey_y: setup.prey_y,
        prey_is_hidden: false,
        prey_commitment: no_commitment(),
        phase: GamePhase::WaitingForPlayer2,
        turn_number: 0,
        power_searches_remaining: 2,
        searched_tiles: Seq::empty(),
        winner: None,
        player1: hunter,
        player2: hunter,
        round: 1,
        total_rounds: 2,
        player1_score: 0,
        player2_score: 0,
        map_index: setup.map_index,
        emp_uses_remaining: 1,
        prey_is_frozen: false,
        prey_dash_remaining: 2,
    }
}

} // verus!
