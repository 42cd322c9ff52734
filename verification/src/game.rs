//! Per-game data model and the transition rules of the arbiter.
//!
//! A [`GameState`] is one game record. The spec functions in this module are
//! the mathematical model of the state machine: for each mutating operation
//! there is an `*_outcome` spec function that says exactly which result is
//! returned and what the successor record is, and an executable `apply_*`
//! function proved to return precisely that outcome.

use vstd::prelude::*;

verus! {

/// Number of ship cells in the standard fleet (5+4+3+3+2); reaching this many
/// confirmed hits destroys the fleet and completes the game.
pub const TOTAL_SHIP_CELLS: u32 = 17;

/// Side length of the square board; coordinates range over `[0, BOARD_SIZE)`.
pub const BOARD_SIZE: u32 = 10;

/// A player identity, as resolved by the host's authentication layer.
/// The arbiter only ever compares identities for equality.
pub type PlayerId = u64;

/// A 32-byte digest: a board commitment or the hash of a proof artifact.
pub type Digest = [u8; 32];

/// Lifecycle phase of a game. It only ever advances, in this order.
#[derive(Clone, Copy, Debug, PartialEq, Eq, Structural)]
pub enum GameStatus {
    /// Created; waiting for a second player to join.
    Waiting,
    /// Both players present; waiting for both board commitments.
    Placing,
    /// Both boards committed; attacks are being exchanged.
    Active,
    /// A fleet has been destroyed; the record is final.
    Complete,
}

/// Why an operation was rejected. Every rejection leaves the state unchanged.
#[derive(Clone, Copy, Debug, PartialEq, Eq, Structural)]
pub enum Error {
    /// The referenced game id has no record.
    GameNotFound,
    /// A join was attempted on a game that is no longer waiting.
    GameFull,
    /// The attacker's slot does not hold the current turn.
    NotYourTurn,
    /// An attack was attempted outside the `Active` phase.
    GameNotActive,
    /// An attack coordinate lies outside the board.
    InvalidCoordinate,
    /// Reserved: duplicate-coordinate attacks are not currently rejected.
    AlreadyAttacked,
    /// Reserved: proof artifacts are recorded, not verified.
    InvalidProof,
    /// The creator tried to join their own game.
    AlreadyJoined,
    /// The caller's slot already holds a board commitment.
    BoardAlreadyCommitted,
    /// A commitment was submitted outside the `Placing` phase.
    GameNotReady,
    /// The caller's identity matches neither participant.
    NotAPlayer,
}

/// Position of a status in the fixed lifecycle order
/// Waiting < Placing < Active < Complete.
pub open spec fn status_rank(s: GameStatus) -> int {
    match s {
        GameStatus::Waiting => 0,
        GameStatus::Placing => 1,
        GameStatus::Active => 2,
        GameStatus::Complete => 3,
    }
}

/// One attack, exactly as appended to a game's move ledger.
#[derive(Clone, Copy, Debug)]
pub struct Move {
    /// Identity of the player who attacked.
    pub attacker: PlayerId,
    /// Attacked column, in `[0, BOARD_SIZE)`.
    pub x: u32,
    /// Attacked row, in `[0, BOARD_SIZE)`.
    pub y: u32,
    /// The hit/miss outcome claimed by the attacking side.
    pub hit: bool,
    /// Hash of the proof artifact backing the claim, kept for audit.
    pub proof_hash: Digest,
}

/// One game record: participants, commitments, turn, score and status.
#[derive(Clone, Copy, Debug)]
pub struct GameState {
    /// Positive, immutable, assigned sequentially starting at 1.
    pub game_id: u32,
    /// The creator; always present.
    pub player1: PlayerId,
    /// The second participant; absent until a join succeeds.
    pub player2: Option<PlayerId>,
    /// Board commitment of player 1; absent until committed.
    pub p1_board_hash: Option<Digest>,
    /// Board commitment of player 2; absent until committed.
    pub p2_board_hash: Option<Digest>,
    /// Whose move it is: 1 or 2. Meaningful only while `Active`.
    pub current_turn: u32,
    /// Hits scored *by* player 1.
    pub p1_hits: u32,
    /// Hits scored *by* player 2.
    pub p2_hits: u32,
    /// Lifecycle phase.
    pub status: GameStatus,
    /// Winning slot (1 or 2); present exactly when the game is `Complete`.
    pub winner: Option<u32>,
    /// Total attacks processed; equals the length of the move ledger.
    pub move_count: u32,
}

/// How many moves of `log` are hits claimed by `attacker`.
pub open spec fn hits_by(log: Seq<Move>, attacker: PlayerId) -> nat
    decreases log.len(),
{
    if log.len() == 0 {
        0
    } else {
        hits_by(log.drop_last(), attacker) + (if log.last().hit && log.last().attacker
            == attacker {
            1nat
        } else {
            0nat
        })
    }
}

/// A ledger entry is well formed for the game `g` it belongs to.
pub open spec fn move_wf(m: Move, g: GameState) -> bool {
    &&& m.x < BOARD_SIZE
    &&& m.y < BOARD_SIZE
    &&& m.attacker == g.player1 || g.player2 == Some(m.attacker)
}

/// Internal invariant of one game record, independent of its ledger.
pub open spec fn game_inv(g: GameState) -> bool {
    &&& g.game_id >= 1
    &&& g.current_turn == 1 || g.current_turn == 2
    &&& g.p1_hits <= TOTAL_SHIP_CELLS
    &&& g.p2_hits <= TOTAL_SHIP_CELLS
    &&& (g.player2 matches Some(p2) ==> p2 != g.player1)
    &&& (g.status == GameStatus::Waiting ==> g.player2 is None && g.p1_board_hash is None
        && g.p2_board_hash is None)
    &&& (g.status == GameStatus::Placing ==> g.player2 is Some && !(g.p1_board_hash is Some
        && g.p2_board_hash is Some))
    &&& (g.status == GameStatus::Waiting || g.status == GameStatus::Placing ==> g.p1_hits == 0
        && g.p2_hits == 0 && g.move_count == 0 && g.current_turn == 1)
    &&& (g.status == GameStatus::Active ==> g.player2 is Some && g.p1_board_hash is Some
        && g.p2_board_hash is Some && g.p1_hits < TOTAL_SHIP_CELLS
        && g.p2_hits < TOTAL_SHIP_CELLS)
    &&& (g.status == GameStatus::Complete ==> g.player2 is Some && g.p1_board_hash is Some
        && g.p2_board_hash is Some)
    &&& (g.winner is Some <==> g.status == GameStatus::Complete)
    &&& (g.winner matches Some(w) ==> w == 1 || w == 2)
    &&& (g.winner == Some(1u32) ==> g.p1_hits == TOTAL_SHIP_CELLS
        && g.p2_hits < TOTAL_SHIP_CELLS)
    &&& (g.winner == Some(2u32) ==> g.p2_hits == TOTAL_SHIP_CELLS
        && g.p1_hits < TOTAL_SHIP_CELLS)
}

/// The ledger never shows the same attacker twice in a row.
pub open spec fn alternating(log: Seq<Move>) -> bool {
    forall|i: int| 0 <= i && i + 1 < log.len() ==> (#[trigger] log[i]).attacker != log[i + 1].attacker
}

/// Invariant of a game record together with its move ledger: the counters are
/// exactly what the ledger shows, every entry names a real participant, and
/// the entries alternate between the two slots.
pub open spec fn game_log_inv(g: GameState, log: Seq<Move>) -> bool {
    &&& game_inv(g)
    &&& g.move_count == log.len()
    &&& g.p1_hits == hits_by(log, g.player1)
    &&& (g.player2 matches Some(p2) ==> g.p2_hits == hits_by(log, p2))
    &&& (g.player2 is None ==> log.len() == 0)
    &&& (forall|i: int| 0 <= i < log.len() ==> move_wf(#[trigger] log[i], g))
    &&& alternating(log)
    &&& (g.status == GameStatus::Active && log.len() > 0 ==> slot_of(g, log.last().attacker)
        != g.current_turn)
}

/// The record a freshly created game holds: creator in slot 1, no second
/// player, no commitments, player 1 to open, zero score, `Waiting`.
pub open spec fn fresh_game(game_id: u32, player1: PlayerId) -> GameState {
    GameState {
        game_id,
        player1,
        player2: None,
        p1_board_hash: None,
        p2_board_hash: None,
        current_turn: 1,
        p1_hits: 0,
        p2_hits: 0,
        status: GameStatus::Waiting,
        winner: None,
        move_count: 0,
    }
}

/// `g` after `joiner` takes slot 2: the game moves to `Placing`.
pub open spec fn joined_game(g: GameState, joiner: PlayerId) -> GameState {
    GameState { player2: Some(joiner), status: GameStatus::Placing, ..g }
}

/// What a join of `joiner` returns on `g`, and the successor record on
/// success: rejected unless the game is still `Waiting` and the joiner is not
/// already the creator.
pub open spec fn join_outcome(g: GameState, joiner: PlayerId) -> Result<GameState, Error> {
    if g.status != GameStatus::Waiting {
        Err(Error::GameFull)
    } else if joiner == g.player1 {
        Err(Error::AlreadyJoined)
    } else {
        Ok(joined_game(g, joiner))
    }
}

/// `g` after `slot` commits `board_hash`; once both commitments are present
/// the game becomes `Active` with player 1 to move.
pub open spec fn committed_game(g: GameState, slot: u32, board_hash: Digest) -> GameState {
    let g1 = if slot == 1 {
        GameState { p1_board_hash: Some(board_hash), ..g }
    } else {
        GameState { p2_board_hash: Some(board_hash), ..g }
    };
    if g1.p1_board_hash is Some && g1.p2_board_hash is Some {
        GameState { status: GameStatus::Active, current_turn: 1, ..g1 }
    } else {
        g1
    }
}

/// What a commitment of `board_hash` by `player` returns on `g`, and the
/// successor record on success: rejected outside `Placing`, for a stranger,
/// and always for a slot that has already committed, whatever the value.
pub open spec fn commit_outcome(g: GameState, player: PlayerId, board_hash: Digest) -> Result<
    GameState,
    Error,
> {
    if g.status != GameStatus::Placing {
        Err(Error::GameNotReady)
    } else if player == g.player1 {
        if g.p1_board_hash is Some {
            Err(Error::BoardAlreadyCommitted)
        } else {
            Ok(committed_game(g, 1, board_hash))
        }
    } else if g.player2 == Some(player) {
        if g.p2_board_hash is Some {
            Err(Error::BoardAlreadyCommitted)
        } else {
            Ok(committed_game(g, 2, board_hash))
        }
    } else {
        Err(Error::NotAPlayer)
    }
}

/// Whether `id` names one of the two participants of `g`.
pub open spec fn is_player(g: GameState, id: PlayerId) -> bool {
    id == g.player1 || g.player2 == Some(id)
}

/// The slot of a participant: the creator is 1, anyone else is 2.
pub open spec fn slot_of(g: GameState, id: PlayerId) -> u32 {
    if id == g.player1 {
        1
    } else {
        2
    }
}

/// `g` after the slot on turn attacks with claimed outcome `hit`: the claim is
/// ledgered by the caller, at most one hit counter grows by exactly 1, and
/// either the attacker's counter reaches the fleet threshold — completing the
/// game with the attacker as winner, the turn untouched — or the turn flips.
pub open spec fn attacked_game(g: GameState, slot: u32, hit: bool) -> GameState {
    let p1_hits = if hit && slot == 1 {
        (g.p1_hits + 1) as u32
    } else {
        g.p1_hits
    };
    let p2_hits = if hit && slot == 2 {
        (g.p2_hits + 1) as u32
    } else {
        g.p2_hits
    };
    let move_count = (g.move_count + 1) as u32;
    if p1_hits >= TOTAL_SHIP_CELLS {
        GameState {
            p1_hits,
            p2_hits,
            move_count,
            status: GameStatus::Complete,
            winner: Some(1u32),
            ..g
        }
    } else if p2_hits >= TOTAL_SHIP_CELLS {
        GameState {
            p1_hits,
            p2_hits,
            move_count,
            status: GameStatus::Complete,
            winner: Some(2u32),
            ..g
        }
    } else {
        GameState {
            p1_hits,
            p2_hits,
            move_count,
            current_turn: if g.current_turn == 1 {
                2
            } else {
                1
            },
            ..g
        }
    }
}

/// What an attack returns on `g`, and on success the successor record paired
/// with the exact ledger entry to append. Checks, in order: the game is
/// `Active`; both coordinates are on the board; the caller is a participant;
/// the caller's slot holds the turn.
pub open spec fn attack_outcome(
    g: GameState,
    attacker: PlayerId,
    x: u32,
    y: u32,
    hit: bool,
    proof_hash: Digest,
) -> Result<(GameState, Move), Error> {
    if g.status != GameStatus::Active {
        Err(Error::GameNotActive)
    } else if x >= BOARD_SIZE || y >= BOARD_SIZE {
        Err(Error::InvalidCoordinate)
    } else if !is_player(g, attacker) {
        Err(Error::NotAPlayer)
    } else if slot_of(g, attacker) != g.current_turn {
        Err(Error::NotYourTurn)
    } else {
        Ok(
            (
                attacked_game(g, slot_of(g, attacker), hit),
                Move { attacker, x, y, hit, proof_hash },
            ),
        )
    }
}

/// Appending one move to a ledger raises `hits_by` for exactly the claiming
/// attacker, by 1 on a claimed hit and not at all otherwise.
pub proof fn lemma_hits_by_push(log: Seq<Move>, m: Move, a: PlayerId)
    ensures
        hits_by(log.push(m), a) == hits_by(log, a) + (if m.hit && m.attacker == a {
            1nat
        } else {
            0nat
        }),
{
    assert(log.push(m).drop_last() =~= log);
    assert(log.push(m).last() == m);
}

/// Appending a move by a different attacker than the last one keeps the
/// ledger alternating.
pub proof fn lemma_alternating_push(log: Seq<Move>, m: Move)
    requires
        alternating(log),
        log.len() > 0 ==> log.last().attacker != m.attacker,
    ensures
        alternating(log.push(m)),
{
    let l2 = log.push(m);
    assert forall|i: int| 0 <= i && i + 1 < l2.len() implies (#[trigger] l2[i]).attacker != l2[i
        + 1].attacker by {
        if i + 1 < log.len() {
            assert(l2[i] == log[i]);
            assert(l2[i + 1] == log[i + 1]);
        } else {
            assert(l2[i] == log[log.len() - 1]);
            assert(l2[i + 1] == m);
        }
    }
}

/// Builds the record of a freshly created game.
pub fn new_game_record(game_id: u32, player1: PlayerId) -> (g: GameState)
    ensures
        g == fresh_game(game_id, player1),
{
    GameState {
        game_id,
        player1,
        player2: None,
        p1_board_hash: None,
        p2_board_hash: None,
        current_turn: 1,
        p1_hits: 0,
        p2_hits: 0,
        status: GameStatus::Waiting,
        winner: None,
        move_count: 0,
    }
}

/// Applies a join to one game record.
pub fn apply_join(g: &GameState, joiner: PlayerId) -> (r: Result<GameState, Error>)
    ensures
        r == join_outcome(*g, joiner),
{
    if g.status != GameStatus::Waiting {
        return Err(Error::GameFull);
    }
    if joiner == g.player1 {
        return Err(Error::AlreadyJoined);
    }
    Ok(GameState { player2: Some(joiner), status: GameStatus::Placing, ..*g })
}

/// Applies a board commitment to one game record.
pub fn apply_commit(g: &GameState, player: PlayerId, board_hash: Digest) -> (r: Result<
    GameState,
    Error,
>)
    ensures
        r == commit_outcome(*g, player, board_hash),
{
    if g.status != GameStatus::Placing {
        return Err(Error::GameNotReady);
    }
    if player == g.player1 {
        if g.p1_board_hash.is_some() {
            return Err(Error::BoardAlreadyCommitted);
        }
        let g1 = GameState { p1_board_hash: Some(board_hash), ..*g };
        Ok(activate_if_both_committed(g1))
    } else if matches_player2(g, player) {
        if g.p2_board_hash.is_some() {
            return Err(Error::BoardAlreadyCommitted);
        }
        let g1 = GameState { p2_board_hash: Some(board_hash), ..*g };
        Ok(activate_if_both_committed(g1))
    } else {
        Err(Error::NotAPlayer)
    }
}

/// Whether `id` is the (present) second participant of `g`.
fn matches_player2(g: &GameState, id: PlayerId) -> (r: bool)
    ensures
        r == (g.player2 == Some(id)),
{
    match g.player2 {
        Some(p2) => p2 == id,
        None => false,
    }
}

/// Moves a game whose commitments are both present to `Active`, with player 1
/// opening; leaves any other game unchanged.
fn activate_if_both_committed(g: GameState) -> (r: GameState)
    ensures
        (g.p1_board_hash is Some && g.p2_board_hash is Some) ==> r == (GameState {
            status: GameStatus::Active,
            current_turn: 1,
            ..g
        }),
        !(g.p1_board_hash is Some && g.p2_board_hash is Some) ==> r == g,
{
    if g.p1_board_hash.is_some() && g.p2_board_hash.is_some() {
        GameState { status: GameStatus::Active, current_turn: 1u32, ..g }
    } else {
        g
    }
}

/// Applies an attack to one game record, returning the successor record and
/// the ledger entry for it.
pub fn apply_attack(
    g: &GameState,
    attacker: PlayerId,
    x: u32,
    y: u32,
    hit: bool,
    proof_hash: Digest,
) -> (r: Result<(GameState, Move), Error>)
    requires
        game_inv(*g),
        g.move_count < 0xFFFF_FFFFu32,
    ensures
        r == attack_outcome(*g, attacker, x, y, hit, proof_hash),
{
    if g.status != GameStatus::Active {
        return Err(Error::GameNotActive);
    }
    if x >= BOARD_SIZE || y >= BOARD_SIZE {
        return Err(Error::InvalidCoordinate);
    }
    let is_p1 = attacker == g.player1;
    let is_p2 = matches_player2(g, attacker);
    if !is_p1 && !is_p2 {
        return Err(Error::NotAPlayer);
    }
    let slot: u32 = if is_p1 {
        1
    } else {
        2
    };
    if slot != g.current_turn {
        return Err(Error::NotYourTurn);
    }
    let p1_hits: u32 = if hit && slot == 1 {
        g.p1_hits + 1
    } else {
        g.p1_hits
    };
    let p2_hits: u32 = if hit && slot == 2 {
        g.p2_hits + 1
    } else {
        g.p2_hits
    };
    let move_count: u32 = g.move_count + 1;
    let g2 = if p1_hits >= TOTAL_SHIP_CELLS {
        GameState {
            p1_hits,
            p2_hits,
            move_count,
            status: GameStatus::Complete,
            winner: Some(1u32),
            ..*g
        }
    } else if p2_hits >= TOTAL_SHIP_CELLS {
        GameState {
            p1_hits,
            p2_hits,
            move_count,
            status: GameStatus::Complete,
            winner: Some(2u32),
            ..*g
        }
    } else {
        GameState {
            p1_hits,
            p2_hits,
            move_count,
            current_turn: if g.current_turn == 1 {
                2u32
            } else {
                1u32
            },
            ..*g
        }
    };
    Ok((g2, Move { attacker, x, y, hit, proof_hash }))
}

} // verus!
