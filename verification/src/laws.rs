//! What holds of every match, proved from the rules.

use crate::binder::slot_bound;
use crate::contract::created;
use crate::maps::{in_bounds, is_jungle, is_plain};
use crate::rules::{
    action_wf, check, lemma_scanned, lemma_step_preserves_wf, round_ended, stays_in_round, step,
    step_in_round, verification_key, Action,
};
use crate::types::{manhattan, no_commitment, Error, GameModel, GamePhase, RoundSetup};
use vstd::prelude::*;

verus! {

/// Every accepted move covers no more than the action's reach: one step
/// for a move of the hunter or the prey, two for a dash. Where the round
/// goes on, the mover then stands on the tile it asked for.
pub proof fn accepted_moves_are_adjacent(
    g: GameModel,
    a: Action,
    accepted: bool,
    next: RoundSetup,
)
    requires
        step(g, a, accepted, next) is Ok,
    ensures
        (match a {
            Action::HunterMove { x, y } => {
                &&& manhattan(g.hunter_x as int, g.hunter_y as int, x as int, y as int) <= 1
                &&& step(g, a, accepted, next)->Ok_0.round == g.round ==> {
                    &&& step(g, a, accepted, next)->Ok_0.hunter_x == x
                    &&& step(g, a, accepted, next)->Ok_0.hunter_y == y
                }
            },
            Action::PreyMovePublic { x, y } => {
                &&& manhattan(g.prey_x as int, g.prey_y as int, x as int, y as int) <= 1
                &&& step(g, a, accepted, next)->Ok_0.round == g.round ==> {
                    &&& step(g, a, accepted, next)->Ok_0.prey_x == x
                    &&& step(g, a, accepted, next)->Ok_0.prey_y == y
                }
            },
            Action::PreyDashPublic { x, y } => {
                &&& manhattan(g.prey_x as int, g.prey_y as int, x as int, y as int) <= 2
                &&& step(g, a, accepted, next)->Ok_0.round == g.round ==> {
                    &&& step(g, a, accepted, next)->Ok_0.prey_x == x
                    &&& step(g, a, accepted, next)->Ok_0.prey_y == y
                }
            },
            _ => true,
        }),
{
}

/// The prey only ever steps onto the grid's plain tiles, whether it moves,
/// dashes or leaves the jungle, and the hunter only ever searches jungle
/// tiles of the grid.
pub proof fn accepted_targets_have_the_right_terrain(
    g: GameModel,
    a: Action,
    accepted: bool,
    next: RoundSetup,
)
    requires
        step(g, a, accepted, next) is Ok,
    ensures
        (match a {
            Action::PreyMovePublic { x, y } => in_bounds(x as int, y as int) && is_plain(
                g.map_index as int,
                x as int,
                y as int,
            ),
            Action::PreyDashPublic { x, y } => in_bounds(x as int, y as int) && is_plain(
                g.map_index as int,
                x as int,
                y as int,
            ),
            Action::PreyExitJungle { x, y } => in_bounds(x as int, y as int) && is_plain(
                g.map_index as int,
                x as int,
                y as int,
            ),
            Action::HunterSearch { x, y } => {
                &&& in_bounds(x as int, y as int)
                &&& is_jungle(g.map_index as int, x as int, y as int)
                &&& step(g, a, accepted, next)->Ok_0.searched_tiles == seq![(x, y)]
            },
            Action::HunterPowerSearch => {
                let tiles = step(g, a, accepted, next)->Ok_0.searched_tiles;
                forall|i: int|
                    0 <= i < tiles.len() ==> {
                        &&& in_bounds((#[trigger] tiles[i]).0 as int, tiles[i].1 as int)
                        &&& is_jungle(g.map_index as int, tiles[i].0 as int, tiles[i].1 as int)
                    }
            },
            _ => true,
        }),
{
    lemma_scanned(g.map_index as int, g.hunter_x as int, g.hunter_y as int, 9);
}

/// A prey that is hidden after an action has not had its public tile
/// touched by it: an action that writes the public tile always shows the
/// prey, and an action that hides it leaves the public tile as it was.
pub proof fn hidden_prey_keeps_its_public_tile(
    g: GameModel,
    a: Action,
    accepted: bool,
    next: RoundSetup,
)
    requires
        step(g, a, accepted, next) is Ok,
        step(g, a, accepted, next)->Ok_0.prey_is_hidden,
    ensures
        step(g, a, accepted, next)->Ok_0.prey_x == g.prey_x,
        step(g, a, accepted, next)->Ok_0.prey_y == g.prey_y,
{
}

/// Whether an action carries a proof that goes to the verifier.
pub open spec fn carries_proof(a: Action) -> bool {
    verification_key(a) is Some
}

/// An action whose proof is bound to the record is accepted exactly when
/// the verifier accepts the proof.
pub proof fn bound_proof_stands_with_the_verifier(
    g: GameModel,
    a: Action,
    accepted: bool,
    next: RoundSetup,
)
    requires
        carries_proof(a),
        check(g, a) is None,
    ensures
        step(g, a, accepted, next) is Ok <==> accepted,
        !accepted ==> step(g, a, accepted, next) == Err::<GameModel, Error>(Error::ProofFailed),
{
}

/// An action that fails a check fails whatever the verifier would have
/// said: the checks come first.
pub proof fn checks_come_before_the_verifier(g: GameModel, a: Action, next: RoundSetup)
    requires
        check(g, a) is Some,
    ensures
        step(g, a, true, next) == step(g, a, false, next),
        step(g, a, true, next) == Err::<GameModel, Error>(check(g, a)->Some_0),
{
}

/// The proof that an action carries.
pub open spec fn proof_of(a: Action) -> Seq<u8> {
    match a {
        Action::PreyEnterJungle { proof, .. } => proof,
        Action::PreyMoveJungle { proof, .. } => proof,
        Action::RespondSearch { proof } => proof,
        _ => Seq::empty(),
    }
}

/// The action with another proof in place of its own.
pub open spec fn with_proof(a: Action, proof: Seq<u8>) -> Action {
    match a {
        Action::PreyEnterJungle { new_commitment, .. } => Action::PreyEnterJungle {
            new_commitment,
            proof,
        },
        Action::PreyMoveJungle { new_commitment, .. } => Action::PreyMoveJungle {
            new_commitment,
            proof,
        },
        Action::RespondSearch { .. } => Action::RespondSearch { proof },
        _ => a,
    }
}

/// Whether byte `i` of a blob lies in the 32-byte field at `offset`.
pub open spec fn in_field32(i: int, offset: int) -> bool {
    offset <= i < offset + 32
}

/// Whether byte `i` of a search response is the one that holds the column
/// or the row of slot `k`.
pub open spec fn is_slot_byte(i: int, k: int) -> bool {
    i == 36 + 32 * k + 31 || i == 324 + 32 * k + 31
}

/// Whether byte `i` of the proof of an action belongs to a public input
/// that is bound to the record.
pub open spec fn is_bound_byte(a: Action, i: int) -> bool {
    match a {
        Action::PreyEnterJungle { .. } => in_field32(i, 36) || i == 68 + 31,
        Action::PreyMoveJungle { .. } => in_field32(i, 4) || in_field32(i, 36) || i == 68 + 31,
        Action::RespondSearch { .. } => in_field32(i, 4) || (exists|k: int|
            0 <= k < 9 && #[trigger] is_slot_byte(i, k)),
        _ => false,
    }
}

/// Changing one byte of a bound public input turns an action that passed
/// every check into one that fails them, before the verifier is asked.
pub proof fn changed_bound_byte_is_rejected(
    g: GameModel,
    a: Action,
    i: int,
    byte: u8,
    accepted: bool,
    next: RoundSetup,
)
    requires
        carries_proof(a),
        check(g, a) is None,
        is_bound_byte(a, i),
        byte != proof_of(a)[i],
    ensures
        check(g, with_proof(a, proof_of(a).update(i, byte))) == Some(Error::ProofFailed),
        step(g, with_proof(a, proof_of(a).update(i, byte)), accepted, next) == Err::<
            GameModel,
            Error,
        >(Error::ProofFailed),
{
    let blob = proof_of(a);
    let changed = blob.update(i, byte);
    match a {
        Action::PreyEnterJungle { new_commitment, proof } => {
            assert(blob.len() >= 100);
            if in_field32(i, 36) {
                assert(changed.subrange(36, 68)[i - 36] != blob.subrange(36, 68)[i - 36]);
            }
        },
        Action::PreyMoveJungle { new_commitment, proof } => {
            assert(blob.len() >= 100);
            if in_field32(i, 4) {
                assert(changed.subrange(4, 36)[i - 4] != blob.subrange(4, 36)[i - 4]);
            } else if in_field32(i, 36) {
                assert(changed.subrange(36, 68)[i - 36] != blob.subrange(36, 68)[i - 36]);
            }
        },
        Action::RespondSearch { proof } => {
            assert(slot_bound(blob, g.searched_tiles, 8));
            assert(blob.len() >= 612);
            assert(changed.len() > 0);
            if in_field32(i, 4) {
                assert(changed.subrange(4, 36)[i - 4] != blob.subrange(4, 36)[i - 4]);
            } else {
                let k = choose|k: int| 0 <= k < 9 && #[trigger] is_slot_byte(i, k);
                assert(slot_bound(blob, g.searched_tiles, k));
                assert(!slot_bound(changed, g.searched_tiles, k));
            }
        },
        _ => {},
    }
}

/// For an action that cannot end a round, neither the verifier's verdict
/// nor the place of the next round plays a part.
pub proof fn actions_within_a_round_need_no_verdict_and_no_next(
    g: GameModel,
    a: Action,
    accepted: bool,
    next: RoundSetup,
)
    requires
        stays_in_round(a),
    ensures
        step(g, a, accepted, next) == step_in_round(g, a),
{
}

/// Whether an action costs the prey a turn.
pub open spec fn costs_a_turn(a: Action) -> bool {
    match a {
        Action::PreyMovePublic { .. } => true,
        Action::PreyDashPublic { .. } => true,
        Action::PreyEnterJungle { .. } => true,
        Action::PreyMoveJungle { .. } => true,
        Action::PreyExitJungle { .. } => true,
        Action::PreyPassFrozen => true,
        _ => false,
    }
}

/// Whether the round of `before` has been scored for whoever was its prey.
pub open spec fn prey_took_the_round(before: GameModel, after: GameModel) -> bool {
    if before.prey == before.player1 {
        after.player1_score == before.player1_score + 1 && after.player2_score
            == before.player2_score
    } else {
        after.player2_score == before.player2_score + 1 && after.player1_score
            == before.player1_score
    }
}

/// The turn counter of a round never passes ten: while a match is on it
/// lies between one and ten, every turn of the prey raises it by one, and
/// the turn that would take it past ten ends the round for the prey.
pub proof fn turns_are_bounded(g: GameModel, a: Action, accepted: bool, next: RoundSetup)
    requires
        g.wf(),
        next.wf(),
        action_wf(a),
        step(g, a, accepted, next) is Ok,
    ensures
        ({
            let r = step(g, a, accepted, next)->Ok_0;
            &&& r.phase != GamePhase::Ended ==> r.turn_number <= 10
            &&& costs_a_turn(a) && g.turn_number < 10 ==> {
                &&& r.turn_number == g.turn_number + 1
                &&& r.round == g.round
                &&& r.phase == GamePhase::HunterTurn
            }
            &&& costs_a_turn(a) && g.turn_number == 10 ==> {
                &&& prey_took_the_round(g, r)
                &&& r.phase == GamePhase::Ended || (r.round == g.round + 1 && r.turn_number == 1)
            }
        }),
{
    lemma_step_preserves_wf(g, a, accepted, next);
}

/// One thing that happens in a match: an action, the verifier's verdict on
/// its proof, and the place of the next round should the action end the
/// current one.
pub struct Event {
    pub action: Action,
    pub accepted: bool,
    pub next: RoundSetup,
}

/// The record after a run of events. An action that is rejected leaves the
/// record as it was.
pub open spec fn play(g: GameModel, events: Seq<Event>) -> GameModel
    decreases events.len(),
{
    if events.len() == 0 {
        g
    } else {
        let before = play(g, events.drop_last());
        match step(before, events.last().action, events.last().accepted, events.last().next) {
            Ok(after) => after,
            Err(_) => before,
        }
    }
}

/// Whether every event of a run is well formed.
pub open spec fn events_wf(events: Seq<Event>) -> bool {
    forall|i: int|
        0 <= i < events.len() ==> (#[trigger] events[i]).next.wf() && action_wf(events[i].action)
}

/// However a match is played, its record stays well formed.
pub proof fn every_record_is_well_formed(g: GameModel, events: Seq<Event>)
    requires
        g.wf(),
        events_wf(events),
    ensures
        play(g, events).wf(),
    decreases events.len(),
{
    if events.len() > 0 {
        let earlier = events.drop_last();
        assert forall|i: int| 0 <= i < earlier.len() implies (#[trigger] earlier[i]).next.wf()
            && action_wf(earlier[i].action) by {
            assert(earlier[i] == events[i]);
        }
        every_record_is_well_formed(g, earlier);
        let last = events.last();
        assert(last == events[events.len() - 1]);
        lemma_step_preserves_wf(play(g, earlier), last.action, last.accepted, last.next);
    }
}

/// A match that has just been opened has a well-formed record.
pub proof fn new_match_is_well_formed(hunter: Seq<u8>, setup: RoundSetup)
    requires
        setup.wf(),
    ensures
        created(hunter, setup).wf(),
{
    assert(no_commitment().len() == 32);
}

/// Every round gives exactly one point: while a match is on, the scores
/// add up to the number of rounds that are over, and when it has ended they
/// add up to the number of its rounds.
pub proof fn scores_add_up(g: GameModel, events: Seq<Event>)
    requires
        g.wf(),
        events_wf(events),
    ensures
        ({
            let r = play(g, events);
            if r.phase == GamePhase::Ended {
                r.player1_score + r.player2_score == r.total_rounds
            } else {
                r.player1_score + r.player2_score == r.round - 1
            }
        }),
{
    every_record_is_well_formed(g, events);
}

/// The roles are swapped exactly when the first round of the second half
/// begins: the end of a round that is not the last swaps them if the round
/// that follows has the number `total_rounds / 2 + 1`, and leaves them alone
/// otherwise. That number lies above one and within the match, and the round
/// number rises by one with every round, so it is reached once.
pub proof fn roles_swap_at_half_time(g: GameModel, hunter_won: bool, next: RoundSetup)
    requires
        g.wf(),
        g.round < g.total_rounds,
    ensures
        ({
            let r = round_ended(g, hunter_won, next);
            &&& r.round == g.round + 1
            &&& 1 < g.total_rounds / 2 + 1 <= g.total_rounds
            &&& r.round == g.total_rounds / 2 + 1 ==> r.hunter == g.prey && r.prey == g.hunter
            &&& r.round != g.total_rounds / 2 + 1 ==> r.hunter == g.hunter && r.prey == g.prey
            &&& r.player1 == g.player1 && r.player2 == g.player2
        }),
{
}

/// However a match is played, the creator hunts in every round of its
/// first half and the joiner in every round of its second half.
pub proof fn roles_follow_the_round(g: GameModel, events: Seq<Event>)
    requires
        g.wf(),
        events_wf(events),
    ensures
        ({
            let r = play(g, events);
            if r.round <= r.total_rounds / 2 {
                r.hunter == r.player1 && r.prey == r.player2
            } else {
                r.hunter == r.player2 && r.prey == r.player1
            }
        }),
{
    every_record_is_well_formed(g, events);
}

/// No action is taken outside its phase, and a match that has ended takes
/// no action at all.
pub proof fn actions_keep_to_their_phase(g: GameModel, a: Action, accepted: bool, next: RoundSetup)
    ensures
        step(g, a, accepted, next) is Ok ==> g.phase == a.kind().spec_required_phase(),
        g.phase == GamePhase::Ended ==> step(g, a, accepted, next) == Err::<GameModel, Error>(
            Error::WrongPhase,
        ),
{
}

/// Once the second player has joined, the two identities and the number of
/// rounds stay as they are, and the round number never falls: it stays, or
/// rises by one when a round ends.
pub proof fn identities_are_fixed(g: GameModel, a: Action, accepted: bool, next: RoundSetup)
    requires
        step(g, a, accepted, next) is Ok,
    ensures
        ({
            let r = step(g, a, accepted, next)->Ok_0;
            &&& r.player1 == g.player1
            &&& !(a is Join) ==> r.player2 == g.player2
            &&& r.total_rounds == g.total_rounds
            &&& r.round == g.round || r.round == g.round + 1
        }),
{
}

/// However a match is played, its turn counter never passes ten while the
/// match is on.
pub proof fn turn_counter_stays_within_ten(g: GameModel, events: Seq<Event>)
    requires
        g.wf(),
        events_wf(events),
    ensures
        play(g, events).phase != GamePhase::Ended ==> play(g, events).turn_number <= 10,
{
    every_record_is_well_formed(g, events);
}

} // verus!
