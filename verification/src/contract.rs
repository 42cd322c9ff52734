//! The authoritative store of every game: a registry of records plus one
//! append-only move ledger per game, with the public operation surface.
//!
//! Ids are dense and strictly increasing from 1, so game `id` lives at index
//! `id - 1`. Every operation is a single read-modify-write of one record; a
//! rejected operation changes nothing at all.

use vstd::prelude::*;

use crate::game::{
    apply_attack, apply_commit, apply_join, attack_outcome, commit_outcome, fresh_game,
    game_log_inv, join_outcome, lemma_alternating_push, lemma_hits_by_push, new_game_record,
    slot_of, status_rank, Digest, Error, GameState, GameStatus, Move, PlayerId,
};

verus! {

/// The arbiter: every game record and every move ledger, keyed by game id.
pub struct BattleshipContract {
    /// Game records; the record of game `id` is at index `id - 1`.
    pub games: Vec<GameState>,
    /// Move ledgers, indexed like `games`.
    pub ledgers: Vec<Vec<Move>>,
}

impl BattleshipContract {
    /// Well-formedness: one ledger per record, ids dense from 1, every record
    /// consistent with its ledger, and the count fits the id type.
    pub open spec fn wf(&self) -> bool {
        &&& self.games@.len() == self.ledgers@.len()
        &&& self.games@.len() <= 0xFFFF_FFFF
        &&& (forall|i: int|
            0 <= i < self.games@.len() ==> (#[trigger] self.games@[i]).game_id == i + 1)
        &&& (forall|i: int|
            0 <= i < self.games@.len() ==> game_log_inv(
                #[trigger] self.games@[i],
                self.ledgers@[i]@,
            ))
    }

    /// Whether a record exists for `game_id`.
    pub open spec fn has_game(&self, game_id: u32) -> bool {
        1 <= game_id <= self.games@.len()
    }

    /// The record of `game_id` (meaningful only when `has_game`).
    pub open spec fn game_at(&self, game_id: u32) -> GameState {
        self.games@[game_id - 1]
    }

    /// The move ledger of `game_id` (meaningful only when `has_game`).
    pub open spec fn log_at(&self, game_id: u32) -> Seq<Move> {
        self.ledgers@[game_id - 1]@
    }

    /// An empty arbiter: no games yet.
    pub fn new() -> (c: BattleshipContract)
        ensures
            c.wf(),
            c.games@.len() == 0,
    {
        BattleshipContract { games: Vec::new(), ledgers: Vec::new() }
    }

    /// Creates a game for `player1` and returns its id: one more than every id
    /// handed out before, starting at 1. The new record waits for a second
    /// player and its ledger is empty; no other game is touched.
    pub fn create_game(&mut self, player1: PlayerId) -> (game_id: u32)
        requires
            old(self).wf(),
            old(self).games@.len() < 0xFFFF_FFFF,
        ensures
            final(self).wf(),
            game_id == old(self).games@.len() + 1,
            final(self).games@ == old(self).games@.push(fresh_game(game_id, player1)),
            final(self).ledgers@.len() == old(self).ledgers@.len() + 1,
            final(self).log_at(game_id) == Seq::<Move>::empty(),
            forall|i: int|
                0 <= i < old(self).ledgers@.len() ==> final(self).ledgers@[i] == old(self).ledgers@[i],
    {
        let game_id: u32 = (self.games.len() as u32) + 1;
        let game = new_game_record(game_id, player1);
        self.games.push(game);
        self.ledgers.push(Vec::new());
        proof {
            assert(final(self).log_at(game_id) =~= Seq::<Move>::empty());
        }
        game_id
    }

    /// Lets `player2` take the free slot of game `game_id`. Succeeds exactly
    /// on a known game still `Waiting` whose creator is someone else; the
    /// game then enters `Placing`. No game's status ever moves backwards.
    pub fn join_game(&mut self, game_id: u32, player2: PlayerId) -> (r: Result<(), Error>)
        requires
            old(self).wf(),
        ensures
            final(self).wf(),
            final(self).ledgers@ == old(self).ledgers@,
            !old(self).has_game(game_id) ==> r == Err::<(), Error>(Error::GameNotFound)
                && final(self).games@ == old(self).games@,
            old(self).has_game(game_id) ==> (match join_outcome(
                old(self).game_at(game_id),
                player2,
            ) {
                Ok(g2) => r == Ok::<(), Error>(()) && final(self).games@ == old(self).games@.update(game_id - 1, g2),
                Err(e) => r == Err::<(), Error>(e) && final(self).games@ == old(self).games@,
            }),
            forall|i: int|
                0 <= i < old(self).games@.len() ==> status_rank(
                    (#[trigger] old(self).games@[i]).status,
                ) <= status_rank(final(self).games@[i].status),
    {
        if game_id == 0 || self.games.len() < game_id as usize {
            return Err(Error::GameNotFound);
        }
        let idx: usize = (game_id - 1) as usize;
        let g = self.games[idx];
        match apply_join(&g, player2) {
            Ok(g2) => {
                self.games[idx] = g2;
                Ok(())
            },
            Err(e) => Err(e),
        }
    }

    /// Records the 32-byte board commitment of `player` for game `game_id`.
    /// Succeeds exactly on a known game in `Placing`, called by a participant
    /// whose slot has not committed yet — a second commitment from the same
    /// slot is rejected whatever the value. When the second slot commits, the
    /// game becomes `Active` with player 1 on turn.
    pub fn commit_board(&mut self, game_id: u32, player: PlayerId, board_hash: Digest) -> (r:
        Result<(), Error>)
        requires
            old(self).wf(),
        ensures
            final(self).wf(),
            final(self).ledgers@ == old(self).ledgers@,
            !old(self).has_game(game_id) ==> r == Err::<(), Error>(Error::GameNotFound)
                && final(self).games@ == old(self).games@,
            old(self).has_game(game_id) ==> (match commit_outcome(
                old(self).game_at(game_id),
                player,
                board_hash,
            ) {
                Ok(g2) => r == Ok::<(), Error>(()) && final(self).games@ == old(self).games@.update(game_id - 1, g2),
                Err(e) => r == Err::<(), Error>(e) && final(self).games@ == old(self).games@,
            }),
            forall|i: int|
                0 <= i < old(self).games@.len() ==> status_rank(
                    (#[trigger] old(self).games@[i]).status,
                ) <= status_rank(final(self).games@[i].status),
    {
        if game_id == 0 || self.games.len() < game_id as usize {
            return Err(Error::GameNotFound);
        }
        let idx: usize = (game_id - 1) as usize;
        let g = self.games[idx];
        match apply_commit(&g, player, board_hash) {
            Ok(g2) => {
                self.games[idx] = g2;
                Ok(())
            },
            Err(e) => Err(e),
        }
    }

    /// Processes one attack on game `game_id` and echoes the claimed result.
    /// Succeeds exactly on a known `Active` game, with both coordinates on the
    /// board, by the participant whose slot holds the turn. On success the
    /// claim is appended to the ledger, a claimed hit raises the attacker's
    /// counter by exactly 1, and either that counter reaches the fleet
    /// threshold — completing the game with the attacker as winner, without a
    /// further turn flip — or the turn passes to the other slot.
    pub fn attack(
        &mut self,
        game_id: u32,
        attacker: PlayerId,
        x: u32,
        y: u32,
        hit: bool,
        proof_hash: Digest,
    ) -> (r: Result<bool, Error>)
        requires
            old(self).wf(),
            old(self).has_game(game_id) ==> old(self).game_at(game_id).move_count
                < 0xFFFF_FFFFu32,
        ensures
            final(self).wf(),
            final(self).games@.len() == old(self).games@.len(),
            final(self).ledgers@.len() == old(self).ledgers@.len(),
            !old(self).has_game(game_id) ==> r == Err::<bool, Error>(Error::GameNotFound)
                && final(self).games@ == old(self).games@ && final(self).ledgers@ == old(self).ledgers@,
            old(self).has_game(game_id) ==> (match attack_outcome(
                old(self).game_at(game_id),
                attacker,
                x,
                y,
                hit,
                proof_hash,
            ) {
                Ok(p) => r == Ok::<bool, Error>(hit) && final(self).games@ == old(self).games@.update(game_id - 1, p.0) && final(self).log_at(game_id) == old(self).log_at(game_id).push(p.1) && (forall|i: int|
                    0 <= i < old(self).ledgers@.len() && i != game_id - 1 ==> final(self).ledgers@[i] == old(self).ledgers@[i]),
                Err(e) => r == Err::<bool, Error>(e) && final(self).games@ == old(self).games@
                    && final(self).ledgers@ == old(self).ledgers@,
            }),
            r is Ok && final(self).game_at(game_id).status == GameStatus::Active ==> final(self).game_at(game_id).current_turn != old(self).game_at(game_id).current_turn,
            r is Ok && final(self).game_at(game_id).status == GameStatus::Complete ==> final(self).game_at(game_id).current_turn == old(self).game_at(game_id).current_turn,
            forall|i: int|
                0 <= i < old(self).games@.len() ==> status_rank(
                    (#[trigger] old(self).games@[i]).status,
                ) <= status_rank(final(self).games@[i].status),
    {
        if game_id == 0 || self.games.len() < game_id as usize {
            return Err(Error::GameNotFound);
        }
        let idx: usize = (game_id - 1) as usize;
        let g = self.games[idx];
        match apply_attack(&g, attacker, x, y, hit, proof_hash) {
            Ok((g2, mv)) => {
                self.games[idx] = g2;
                self.ledgers[idx].push(mv);
                proof {
                    let l0 = old(self).ledgers@[idx as int]@;
                    lemma_hits_by_push(l0, mv, g2.player1);
                    match g2.player2 {
                        Some(p2) => lemma_hits_by_push(l0, mv, p2),
                        None => (),
                    }
                    assert(slot_of(g, mv.attacker) == g.current_turn);
                    if l0.len() > 0 {
                        assert(slot_of(g, l0.last().attacker) != g.current_turn);
                    }
                    lemma_alternating_push(l0, mv);
                }
                Ok(hit)
            },
            Err(e) => Err(e),
        }
    }

    /// Returns a copy of the record of `game_id`, or `GameNotFound`.
    pub fn get_game(&self, game_id: u32) -> (r: Result<GameState, Error>)
        ensures
            self.has_game(game_id) ==> r == Ok::<GameState, Error>(self.game_at(game_id)),
            !self.has_game(game_id) ==> r == Err::<GameState, Error>(Error::GameNotFound),
    {
        if game_id == 0 || self.games.len() < game_id as usize {
            return Err(Error::GameNotFound);
        }
        let idx: usize = (game_id - 1) as usize;
        Ok(self.games[idx])
    }

    /// Returns a copy of the move ledger of `game_id`, in insertion order, or
    /// `GameNotFound`.
    pub fn get_moves(&self, game_id: u32) -> (r: Result<Vec<Move>, Error>)
        requires
            self.wf(),
        ensures
            self.has_game(game_id) <==> r is Ok,
            r matches Ok(v) ==> v@ == self.log_at(game_id),
            !self.has_game(game_id) ==> r == Err::<Vec<Move>, Error>(Error::GameNotFound),
    {
        if game_id == 0 || self.games.len() < game_id as usize {
            return Err(Error::GameNotFound);
        }
        let idx: usize = (game_id - 1) as usize;
        let log = &self.ledgers[idx];
        let mut out: Vec<Move> = Vec::new();
        let mut j: usize = 0;
        while j < log.len()
            invariant
                j <= log@.len(),
                out@ == log@.subrange(0, j as int),
            decreases log@.len() - j,
        {
            out.push(log[j]);
            proof {
                assert(log@.subrange(0, j + 1) =~= log@.subrange(0, j as int).push(log@[j as int]));
            }
            j += 1;
        }
        proof {
            assert(log@.subrange(0, log@.len() as int) =~= log@);
        }
        Ok(out)
    }

    /// Returns how many games have ever been created (the highest id handed
    /// out so far, or 0 before the first game).
    pub fn game_count(&self) -> (n: u32)
        requires
            self.wf(),
        ensures
            n == self.games@.len(),
    {
        self.games.len() as u32
    }
}

} // verus!
