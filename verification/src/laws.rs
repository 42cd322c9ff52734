//! Laws of the arbiter that relate several operations or hold of every
//! reachable state, each proved from the public invariant and outcome model.

use vstd::prelude::*;

use crate::contract::BattleshipContract;
use crate::game::{
    commit_outcome, game_inv, game_log_inv, hits_by, move_wf, slot_of, Digest, Error, GameState,
    GameStatus, PlayerId, TOTAL_SHIP_CELLS,
};

verus! {

/// Game ids are dense and strictly increasing: the first game has id 1, and
/// of any two games the one created later has the strictly larger id.
pub proof fn lemma_game_ids_strictly_increasing(c: &BattleshipContract, i: int, j: int)
    requires
        c.wf(),
        0 <= i < j < c.games@.len(),
    ensures
        c.games@[0].game_id == 1,
        c.games@[i].game_id < c.games@[j].game_id,
{
}

/// Hit counters never pass the fleet threshold: before completion both stay
/// strictly below it, and on completion the winner's counter is exactly the
/// threshold while the loser's is still below it.
pub proof fn lemma_hits_capped_and_winner_exact(c: &BattleshipContract, game_id: u32)
    requires
        c.wf(),
        c.has_game(game_id),
    ensures
        c.game_at(game_id).p1_hits <= TOTAL_SHIP_CELLS,
        c.game_at(game_id).p2_hits <= TOTAL_SHIP_CELLS,
        c.game_at(game_id).status != GameStatus::Complete ==> c.game_at(game_id).p1_hits
            < TOTAL_SHIP_CELLS && c.game_at(game_id).p2_hits < TOTAL_SHIP_CELLS,
        c.game_at(game_id).winner == Some(1u32) ==> c.game_at(game_id).p1_hits
            == TOTAL_SHIP_CELLS && c.game_at(game_id).p2_hits < TOTAL_SHIP_CELLS,
        c.game_at(game_id).winner == Some(2u32) ==> c.game_at(game_id).p2_hits
            == TOTAL_SHIP_CELLS && c.game_at(game_id).p1_hits < TOTAL_SHIP_CELLS,
        c.game_at(game_id).winner is Some <==> c.game_at(game_id).status == GameStatus::Complete,
{
    assert(game_log_inv(c.games@[game_id - 1], c.ledgers@[game_id - 1]@));
}

/// The record is exactly what its ledger shows: each hit counter equals the
/// number of ledger entries claiming a hit by that player, the move counter
/// equals the ledger's length, and every entry is an on-board attack by one
/// of the two participants.
pub proof fn lemma_record_matches_ledger(c: &BattleshipContract, game_id: u32)
    requires
        c.wf(),
        c.has_game(game_id),
    ensures
        c.game_at(game_id).p1_hits == hits_by(c.log_at(game_id), c.game_at(game_id).player1),
        c.game_at(game_id).player2 matches Some(p2) ==> c.game_at(game_id).p2_hits == hits_by(
            c.log_at(game_id),
            p2,
        ),
        c.game_at(game_id).move_count == c.log_at(game_id).len(),
        forall|i: int|
            0 <= i < c.log_at(game_id).len() ==> move_wf(
                #[trigger] c.log_at(game_id)[i],
                c.game_at(game_id),
            ),
{
    assert(game_log_inv(c.games@[game_id - 1], c.ledgers@[game_id - 1]@));
}

/// Turns strictly alternate: the move ledger of a game never shows the same
/// slot attacking twice in a row, and while the game is running the slot that
/// moved last is never the one on turn.
pub proof fn lemma_ledger_turns_alternate(c: &BattleshipContract, game_id: u32, i: int)
    requires
        c.wf(),
        c.has_game(game_id),
        0 <= i,
        i + 1 < c.log_at(game_id).len(),
    ensures
        c.log_at(game_id)[i].attacker != c.log_at(game_id)[i + 1].attacker,
        c.game_at(game_id).status == GameStatus::Active ==> slot_of(
            c.game_at(game_id),
            c.log_at(game_id).last().attacker,
        ) != c.game_at(game_id).current_turn,
{
    assert(game_log_inv(c.games@[game_id - 1], c.ledgers@[game_id - 1]@));
}

/// A second commitment from the same slot is always rejected as
/// `BoardAlreadyCommitted`, whatever value it submits, as long as the game is
/// still waiting on the other slot. (Once both slots have committed the game
/// has left `Placing`, and any further commitment is rejected earlier, as
/// `GameNotReady`.)
pub proof fn lemma_commit_idempotent_rejecting(
    g: GameState,
    player: PlayerId,
    first: Digest,
    second: Digest,
)
    requires
        game_inv(g),
        commit_outcome(g, player, first) is Ok,
        commit_outcome(g, player, first)->Ok_0.status == GameStatus::Placing,
    ensures
        commit_outcome(commit_outcome(g, player, first)->Ok_0, player, second) == Err::<
            GameState,
            Error,
        >(Error::BoardAlreadyCommitted),
{
}

} // verus!
