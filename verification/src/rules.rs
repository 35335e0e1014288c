//! The rules of the game as mathematics: which action is legal in which
//! record, and what record it leaves behind.

use crate::binder::{enter_jungle_bound, jungle_move_bound, search_response_bound};
use crate::maps::{in_bounds, is_jungle, is_plain};
use crate::types::{
    chebyshev, decided_winner, manhattan, no_commitment, DataKey, Error, GameModel, GamePhase,
    RoundSetup,
};
use vstd::prelude::*;

verus! {

/// What a player may ask for.
pub enum Action {
    /// The second player takes the seat of the prey.
    Join { prey: Seq<u8> },
    /// The hunter steps to `(x, y)`.
    HunterMove { x: u32, y: u32 },
    /// The hunter searches the jungle tile `(x, y)`.
    HunterSearch { x: u32, y: u32 },
    /// The hunter searches every jungle tile around them.
    HunterPowerSearch,
    /// The hunter freezes the prey for its next turn.
    HunterEmp,
    /// The prey steps to the plain tile `(x, y)`.
    PreyMovePublic { x: u32, y: u32 },
    /// The prey runs to the plain tile `(x, y)`.
    PreyDashPublic { x: u32, y: u32 },
    /// The prey hides in the jungle behind `new_commitment`.
    PreyEnterJungle { new_commitment: Seq<u8>, proof: Seq<u8> },
    /// The hidden prey moves and replaces its commitment.
    PreyMoveJungle { new_commitment: Seq<u8>, proof: Seq<u8> },
    /// The hidden prey steps out onto the plain tile `(x, y)`.
    PreyExitJungle { x: u32, y: u32 },
    /// The frozen prey lets its turn pass.
    PreyPassFrozen,
    /// The prey answers the pending search; an empty proof concedes.
    RespondSearch { proof: Seq<u8> },
    /// The hunter claims the round because the search went unanswered.
    ClaimCatch,
}

/// The `i`-th tile of the neighbourhood that a power search scans, as an
/// offset from the hunter: the centre, then left, right, up and down, then
/// up-left, up-right, down-left and down-right.
pub open spec fn scan_offset(i: int) -> (int, int) {
    if i == 0 {
        (0, 0)
    } else if i == 1 {
        (-1, 0)
    } else if i == 2 {
        (1, 0)
    } else if i == 3 {
        (0, -1)
    } else if i == 4 {
        (0, 1)
    } else if i == 5 {
        (-1, -1)
    } else if i == 6 {
        (1, -1)
    } else if i == 7 {
        (-1, 1)
    } else {
        (1, 1)
    }
}

/// The jungle tiles among the first `n` tiles of the neighbourhood of
/// `(hx, hy)`, in scanning order.
pub open spec fn scanned(map_index: int, hx: int, hy: int, n: nat) -> Seq<(u32, u32)>
    decreases n,
{
    if n == 0 {
        Seq::empty()
    } else {
        let before = scanned(map_index, hx, hy, (n - 1) as nat);
        let x = hx + scan_offset(n - 1).0;
        let y = hy + scan_offset(n - 1).1;
        if in_bounds(x, y) && is_jungle(map_index, x, y) {
            before.push((x as u32, y as u32))
        } else {
            before
        }
    }
}

/// The tiles that a power search records.
pub open spec fn power_search_tiles(g: GameModel) -> Seq<(u32, u32)> {
    scanned(g.map_index as int, g.hunter_x as int, g.hunter_y as int, 9)
}

/// The record after a round has been scored for the fixed identity that
/// holds the winning role.
pub open spec fn scored(g: GameModel, hunter_won: bool) -> GameModel {
    let winner = if hunter_won {
        g.hunter
    } else {
        g.prey
    };
    if winner == g.player1 {
        GameModel { player1_score: (g.player1_score + 1) as u32, ..g }
    } else {
        GameModel { player2_score: (g.player2_score + 1) as u32, ..g }
    }
}

/// Whether the round that starts after round `round` is the one in which
/// the roles are swapped.
pub open spec fn swaps_after(g: GameModel) -> bool {
    g.round + 1 == g.rounds_per_side() + 1
}

/// The record after the current round has ended. The last round finishes
/// the match; any other is followed by a fresh round on `next`.
pub open spec fn round_ended(g: GameModel, hunter_won: bool, next: RoundSetup) -> GameModel {
    let s = scored(g, hunter_won);
    if s.round >= s.total_rounds {
        GameModel {
            winner: decided_winner(
                s.player1,
                s.player2,
                s.player1_score as int,
                s.player2_score as int,
            ),
            phase: GamePhase::Ended,
            searched_tiles: Seq::empty(),
            ..s
        }
    } else {
        GameModel {
            round: (s.round + 1) as u32,
            hunter: if swaps_after(s) {
                s.prey
            } else {
                s.hunter
            },
            prey: if swaps_after(s) {
                s.hunter
            } else {
                s.prey
            },
            map_index: next.map_index,
            hunter_x: next.hunter_x,
            hunter_y: next.hunter_y,
            prey_x: next.prey_x,
            prey_y: next.prey_y,
            prey_is_hidden: false,
            prey_commitment: no_commitment(),
            turn_number: 1,
            power_searches_remaining: 2,
            searched_tiles: Seq::empty(),
            emp_uses_remaining: 1,
            prey_is_frozen: false,
            prey_dash_remaining: 2,
            phase: GamePhase::HunterTurn,
            ..s
        }
    }
}

/// The record after the prey has used up a turn: the hunter is next, unless
/// the prey has now outlasted the tenth turn and wins the round.
pub open spec fn turn_advanced(g: GameModel, next: RoundSetup) -> GameModel {
    let counted = GameModel { turn_number: (g.turn_number + 1) as u32, ..g };
    if counted.turn_number > 10 {
        round_ended(counted, false, next)
    } else {
        GameModel { phase: GamePhase::HunterTurn, ..counted }
    }
}

/// The actions by name, without what they carry.
#[derive(Clone, Copy, Debug, PartialEq, Eq, Structural)]
pub enum ActionKind {
    Join,
    HunterMove,
    HunterSearch,
    HunterPowerSearch,
    HunterEmp,
    PreyMovePublic,
    PreyDashPublic,
    PreyEnterJungle,
    PreyMoveJungle,
    PreyExitJungle,
    PreyPassFrozen,
    RespondSearch,
    ClaimCatch,
}

/// The two sides of a round.
#[derive(Clone, Copy, Debug, PartialEq, Eq, Structural)]
pub enum Role {
    Hunter,
    Prey,
}

impl Action {
    /// The name of the action.
    pub open spec fn kind(self) -> ActionKind {
        match self {
            Action::Join { .. } => ActionKind::Join,
            Action::HunterMove { .. } => ActionKind::HunterMove,
            Action::HunterSearch { .. } => ActionKind::HunterSearch,
            Action::HunterPowerSearch => ActionKind::HunterPowerSearch,
            Action::HunterEmp => ActionKind::HunterEmp,
            Action::PreyMovePublic { .. } => ActionKind::PreyMovePublic,
            Action::PreyDashPublic { .. } => ActionKind::PreyDashPublic,
            Action::PreyEnterJungle { .. } => ActionKind::PreyEnterJungle,
            Action::PreyMoveJungle { .. } => ActionKind::PreyMoveJungle,
            Action::PreyExitJungle { .. } => ActionKind::PreyExitJungle,
            Action::PreyPassFrozen => ActionKind::PreyPassFrozen,
            Action::RespondSearch { .. } => ActionKind::RespondSearch,
            Action::ClaimCatch => ActionKind::ClaimCatch,
        }
    }
}

impl ActionKind {
    /// The phase in which the action may be taken.
    pub open spec fn spec_required_phase(self) -> GamePhase {
        match self {
            ActionKind::Join => GamePhase::WaitingForPlayer2,
            ActionKind::HunterMove => GamePhase::HunterTurn,
            ActionKind::HunterSearch => GamePhase::HunterTurn,
            ActionKind::HunterPowerSearch => GamePhase::HunterTurn,
            ActionKind::HunterEmp => GamePhase::HunterTurn,
            ActionKind::PreyMovePublic => GamePhase::PreyTurn,
            ActionKind::PreyDashPublic => GamePhase::PreyTurn,
            ActionKind::PreyEnterJungle => GamePhase::PreyTurn,
            ActionKind::PreyMoveJungle => GamePhase::PreyTurn,
            ActionKind::PreyExitJungle => GamePhase::PreyTurn,
            ActionKind::PreyPassFrozen => GamePhase::PreyTurn,
            ActionKind::RespondSearch => GamePhase::SearchPending,
            ActionKind::ClaimCatch => GamePhase::SearchPending,
        }
    }

    /// The phase in which the action may be taken.
    pub fn required_phase(self) -> (phase: GamePhase)
        ensures
            phase == self.spec_required_phase(),
    {
        match self {
            ActionKind::Join => GamePhase::WaitingForPlayer2,
            ActionKind::HunterMove => GamePhase::HunterTurn,
            ActionKind::HunterSearch => GamePhase::HunterTurn,
            ActionKind::HunterPowerSearch => GamePhase::HunterTurn,
            ActionKind::HunterEmp => GamePhase::HunterTurn,
            ActionKind::PreyMovePublic => GamePhase::PreyTurn,
            ActionKind::PreyDashPublic => GamePhase::PreyTurn,
            ActionKind::PreyEnterJungle => GamePhase::PreyTurn,
            ActionKind::PreyMoveJungle => GamePhase::PreyTurn,
            ActionKind::PreyExitJungle => GamePhase::PreyTurn,
            ActionKind::PreyPassFrozen => GamePhase::PreyTurn,
            ActionKind::RespondSearch => GamePhase::SearchPending,
            ActionKind::ClaimCatch => GamePhase::SearchPending,
        }
    }

    /// The side that takes the action. Whoever joins takes the side of the
    /// prey.
    pub open spec fn spec_acting_role(self) -> Role {
        match self {
            ActionKind::HunterMove => Role::Hunter,
            ActionKind::HunterSearch => Role::Hunter,
            ActionKind::HunterPowerSearch => Role::Hunter,
            ActionKind::HunterEmp => Role::Hunter,
            ActionKind::ClaimCatch => Role::Hunter,
            _ => Role::Prey,
        }
    }

    /// The side that takes the action. Whoever joins takes the side of the
    /// prey.
    pub fn acting_role(self) -> (role: Role)
        ensures
            role == self.spec_acting_role(),
    {
        match self {
            ActionKind::HunterMove => Role::Hunter,
            ActionKind::HunterSearch => Role::Hunter,
            ActionKind::HunterPowerSearch => Role::Hunter,
            ActionKind::HunterEmp => Role::Hunter,
            ActionKind::ClaimCatch => Role::Hunter,
            _ => Role::Prey,
        }
    }
}

/// The phase in which an action may be taken.
pub open spec fn required_phase(a: Action) -> GamePhase {
    a.kind().spec_required_phase()
}

/// The first rule that an action breaks, if it breaks one. These are the
/// checks made before any proof is handed to the verifier.
pub open spec fn check(g: GameModel, a: Action) -> Option<Error> {
    if g.phase != required_phase(a) {
        Some(Error::WrongPhase)
    } else {
        match a {
            Action::Join { .. } => None,
            Action::HunterMove { x, y } => {
                if !in_bounds(x as int, y as int) {
                    Some(Error::OutOfBounds)
                } else if manhattan(x as int, y as int, g.hunter_x as int, g.hunter_y as int) > 1 {
                    Some(Error::InvalidMove)
                } else {
                    None
                }
            },
            Action::HunterSearch { x, y } => {
                if !g.prey_is_hidden {
                    Some(Error::PreyNotHidden)
                } else if !in_bounds(x as int, y as int) {
                    Some(Error::OutOfBounds)
                } else if chebyshev(x as int, y as int, g.hunter_x as int, g.hunter_y as int) > 1 {
                    Some(Error::InvalidMove)
                } else if !is_jungle(g.map_index as int, x as int, y as int) {
                    Some(Error::NotJungle)
                } else {
                    None
                }
            },
            Action::HunterPowerSearch => {
                if !g.prey_is_hidden {
                    Some(Error::PreyNotHidden)
                } else if g.power_searches_remaining == 0 {
                    Some(Error::NoPowerSearches)
                } else {
                    None
                }
            },
            Action::HunterEmp => {
                if g.emp_uses_remaining == 0 {
                    Some(Error::NoEMP)
                } else if g.prey_is_hidden {
                    Some(Error::EmpTargetHidden)
                } else {
                    None
                }
            },
            Action::PreyMovePublic { x, y } => {
                if g.prey_is_frozen {
                    Some(Error::PreyFrozen)
                } else if !in_bounds(x as int, y as int) {
                    Some(Error::OutOfBounds)
                } else if !is_plain(g.map_index as int, x as int, y as int) {
                    Some(Error::IsJungle)
                } else if manhattan(x as int, y as int, g.prey_x as int, g.prey_y as int) > 1 {
                    Some(Error::InvalidMove)
                } else {
                    None
                }
            },
            Action::PreyDashPublic { x, y } => {
                if g.prey_is_frozen {
                    Some(Error::PreyFrozen)
                } else if g.prey_dash_remaining == 0 {
                    Some(Error::NoDashes)
                } else if !in_bounds(x as int, y as int) {
                    Some(Error::OutOfBounds)
                } else if !is_plain(g.map_index as int, x as int, y as int) {
                    Some(Error::IsJungle)
                } else if manhattan(x as int, y as int, g.prey_x as int, g.prey_y as int) > 2 {
                    Some(Error::InvalidMove)
                } else {
                    None
                }
            },
            Action::PreyEnterJungle { new_commitment, proof } => {
                if g.prey_is_frozen {
                    Some(Error::PreyFrozen)
                } else if g.prey_is_hidden {
                    Some(Error::PreyAlreadyHidden)
                } else if !enter_jungle_bound(proof, new_commitment, g.map_index as int) {
                    Some(Error::ProofFailed)
                } else {
                    None
                }
            },
            Action::PreyMoveJungle { new_commitment, proof } => {
                if g.prey_is_frozen {
                    Some(Error::PreyFrozen)
                } else if !g.prey_is_hidden {
                    Some(Error::PreyNotHidden)
                } else if !jungle_move_bound(
                    proof,
                    g.prey_commitment,
                    new_commitment,
                    g.map_index as int,
                ) {
                    Some(Error::ProofFailed)
                } else {
                    None
                }
            },
            Action::PreyExitJungle { x, y } => {
                if g.prey_is_frozen {
                    Some(Error::PreyFrozen)
                } else if !g.prey_is_hidden {
                    Some(Error::PreyNotHidden)
                } else if !in_bounds(x as int, y as int) {
                    Some(Error::OutOfBounds)
                } else if !is_plain(g.map_index as int, x as int, y as int) {
                    Some(Error::IsJungle)
                } else {
                    None
                }
            },
            Action::PreyPassFrozen => {
                if !g.prey_is_frozen {
                    Some(Error::WrongPhase)
                } else {
                    None
                }
            },
            Action::RespondSearch { proof } => {
                if proof.len() == 0 {
                    None
                } else if !search_response_bound(proof, g.prey_commitment, g.searched_tiles) {
                    Some(Error::ProofFailed)
                } else {
                    None
                }
            },
            Action::ClaimCatch => None,
        }
    }
}

/// The key that the verifier must hold a proof against, for the actions
/// that carry a proof to be verified.
pub open spec fn verification_key(a: Action) -> Option<DataKey> {
    match a {
        Action::PreyEnterJungle { .. } => Some(DataKey::MoveVk),
        Action::PreyMoveJungle { .. } => Some(DataKey::MoveVk),
        Action::RespondSearch { proof } => if proof.len() == 0 {
            None
        } else {
            Some(DataKey::SearchVk)
        },
        _ => None,
    }
}

/// Whether an action can never end a round: joining, searching and
/// freezing leave the round as it is.
pub open spec fn stays_in_round(a: Action) -> bool {
    match a {
        Action::Join { .. } => true,
        Action::HunterSearch { .. } => true,
        Action::HunterPowerSearch => true,
        Action::HunterEmp => true,
        _ => false,
    }
}

/// The record that a legal action leaves behind where the action cannot end
/// a round.
pub open spec fn applied_in_round(g: GameModel, a: Action) -> GameModel {
    match a {
        Action::Join { prey } => GameModel {
            prey: prey,
            player2: prey,
            phase: GamePhase::HunterTurn,
            turn_number: 1,
            ..g
        },
        Action::HunterSearch { x, y } => GameModel {
            searched_tiles: seq![(x, y)],
            phase: GamePhase::SearchPending,
            ..g
        },
        Action::HunterPowerSearch => GameModel {
            power_searches_remaining: (g.power_searches_remaining - 1) as u32,
            searched_tiles: power_search_tiles(g),
            phase: GamePhase::SearchPending,
            ..g
        },
        Action::HunterEmp => GameModel {
            prey_is_frozen: true,
            emp_uses_remaining: (g.emp_uses_remaining - 1) as u32,
            ..g
        },
        _ => g,
    }
}

/// The record that a legal action leaves behind. `next` is where the next
/// round is played, should the action end the current one.
pub open spec fn applied(g: GameModel, a: Action, next: RoundSetup) -> GameModel {
    match a {
        Action::Join { .. } => applied_in_round(g, a),
        Action::HunterSearch { .. } => applied_in_round(g, a),
        Action::HunterPowerSearch => applied_in_round(g, a),
        Action::HunterEmp => applied_in_round(g, a),
        Action::HunterMove { x, y } => {
            let moved = GameModel { hunter_x: x, hunter_y: y, ..g };
            if !g.prey_is_hidden && x == g.prey_x && y == g.prey_y {
                round_ended(moved, true, next)
            } else {
                GameModel { phase: GamePhase::PreyTurn, ..moved }
            }
        },
        Action::PreyMovePublic { x, y } => turn_advanced(
            GameModel { prey_x: x, prey_y: y, prey_is_hidden: false, ..g },
            next,
        ),
        Action::PreyDashPublic { x, y } => turn_advanced(
            GameModel {
                prey_dash_remaining: (g.prey_dash_remaining - 1) as u32,
                prey_x: x,
                prey_y: y,
                prey_is_hidden: false,
                ..g
            },
            next,
        ),
        Action::PreyEnterJungle { new_commitment, proof } => turn_advanced(
            GameModel { prey_commitment: new_commitment, prey_is_hidden: true, ..g },
            next,
        ),
        Action::PreyMoveJungle { new_commitment, proof } => turn_advanced(
            GameModel { prey_commitment: new_commitment, ..g },
            next,
        ),
        Action::PreyExitJungle { x, y } => turn_advanced(
            GameModel {
                prey_x: x,
                prey_y: y,
                prey_is_hidden: false,
                prey_commitment: no_commitment(),
                ..g
            },
            next,
        ),
        Action::PreyPassFrozen => turn_advanced(GameModel { prey_is_frozen: false, ..g }, next),
        Action::RespondSearch { proof } => {
            if proof.len() == 0 {
                round_ended(g, true, next)
            } else {
                GameModel { searched_tiles: Seq::empty(), phase: GamePhase::PreyTurn, ..g }
            }
        },
        Action::ClaimCatch => round_ended(g, true, next),
    }
}

/// What an action that cannot end a round does to a record.
pub open spec fn step_in_round(g: GameModel, a: Action) -> Result<GameModel, Error> {
    match check(g, a) {
        Some(e) => Err(e),
        None => Ok(applied_in_round(g, a)),
    }
}

/// What an action does to a record. `accepted` is the verifier's verdict on
/// the proof that the action carries; it is looked at only after every other
/// check has passed, and only for an action that needs one.
pub open spec fn step(g: GameModel, a: Action, accepted: bool, next: RoundSetup) -> Result<
    GameModel,
    Error,
> {
    match check(g, a) {
        Some(e) => Err(e),
        None => if verification_key(a) is Some && !accepted {
            Err(Error::ProofFailed)
        } else {
            Ok(applied(g, a, next))
        },
    }
}

/// Whether an action is well formed: a commitment is thirty-two bytes long.
pub open spec fn action_wf(a: Action) -> bool {
    match a {
        Action::PreyEnterJungle { new_commitment, .. } => new_commitment.len() == 32,
        Action::PreyMoveJungle { new_commitment, .. } => new_commitment.len() == 32,
        _ => true,
    }
}

/// The power search scans at most nine tiles, all of them jungle tiles of
/// the grid.
pub proof fn lemma_scanned(map_index: int, hx: int, hy: int, n: nat)
    ensures
        scanned(map_index, hx, hy, n).len() <= n,
        (forall|i: int|
            0 <= i < scanned(map_index, hx, hy, n).len() ==> {
                &&& in_bounds(
                    (#[trigger] scanned(map_index, hx, hy, n)[i]).0 as int,
                    scanned(map_index, hx, hy, n)[i].1 as int,
                )
                &&& is_jungle(
                    map_index,
                    scanned(map_index, hx, hy, n)[i].0 as int,
                    scanned(map_index, hx, hy, n)[i].1 as int,
                )
            }),
    decreases n,
{
    if n > 0 {
        lemma_scanned(map_index, hx, hy, (n - 1) as nat);
    }
}

/// Every legal action leaves a well-formed record behind.
pub proof fn lemma_step_preserves_wf(g: GameModel, a: Action, accepted: bool, next: RoundSetup)
    requires
        g.wf(),
        next.wf(),
        action_wf(a),
    ensures
        (match step(g, a, accepted, next) {
            Ok(r) => r.wf(),
            Err(_) => true,
        }),
{
    if step(g, a, accepted, next) is Ok {
        let r = applied(g, a, next);
        lemma_scanned(g.map_index as int, g.hunter_x as int, g.hunter_y as int, 9);
        assert(no_commitment().len() == 32);
        assert(r.wf());
    }
}

} // verus!
