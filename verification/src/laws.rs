//! The guarantees the engine makes across calls, stated and proved over
//! the same specifications the entry points carry: replay protection from
//! the nonce counter and from the ledger key, suit exclusivity, the
//! finality of an ended match, and single-step turn advancement for
//! batches.

use vstd::prelude::*;

use crate::bytes::padded;
use crate::claim_actions::next_player;
use crate::card_validation::declare_intent_validation;
use crate::errors::GameError;
use crate::game_registry::GameDefView;
use crate::match_state::{find_player_in, MatchView, PHASE_ENDED};
use crate::move_state::{key_occupied, LedgerEntryView, ACTION_DECLINE, ACTION_PICK_UP};
use crate::replay_protection::last_nonce_of;
use crate::submit_batch_moves::{batch_entry_step, batch_run, submit_batch_result, BatchMoveView};
use crate::submit_move::{submit_move_result, submit_move_state};

verus! {

/// Law: an accepted single move bears a nonce strictly above the caller's
/// last accepted nonce, and leaves that nonce as the new high-water mark —
/// so the accepted nonce sequence of every player is strictly increasing,
/// and resubmitting any nonce at or below the last accepted one can never
/// be accepted.
pub proof fn lemma_accepted_nonce_strictly_increases(
    m: MatchView,
    led: Seq<LedgerEntryView>,
    reg: Seq<GameDefView>,
    match_id: Seq<u8>,
    user_id: Seq<u8>,
    player: Seq<u8>,
    action_type: u8,
    payload: Seq<u8>,
    nonce: u64,
    now: i64,
)
    requires
        m.wf(),
        submit_move_result(m, led, reg, match_id, user_id, player, action_type, payload, nonce, now)
            is Ok,
    ensures
        nonce > last_nonce_of(m, find_player_in(m, padded(user_id, 64)).unwrap()),
        last_nonce_of(
            submit_move_state(
                m,
                find_player_in(m, padded(user_id, 64)).unwrap(),
                action_type,
                payload,
                nonce,
                now,
            ),
            find_player_in(m, padded(user_id, 64)).unwrap(),
        ) == nonce,
{
    let p = find_player_in(m, padded(user_id, 64)).unwrap();
    crate::match_state::lemma_first_id_match_bounds(m.player_ids, padded(user_id, 64), 0);
    let noted = MatchView { last_nonce: m.last_nonce.update(p, nonce), ..m };
    let applied = crate::claim_actions::apply_claim(noted, p, action_type, payload, true);
    assert(applied.last_nonce == noted.last_nonce);
    assert(noted.last_nonce[p] == nonce);
}

/// Law: a submission whose nonce does not exceed the caller's last
/// accepted nonce is never accepted, whatever its action and payload.
pub proof fn lemma_replayed_nonce_rejected(
    m: MatchView,
    led: Seq<LedgerEntryView>,
    reg: Seq<GameDefView>,
    match_id: Seq<u8>,
    user_id: Seq<u8>,
    player: Seq<u8>,
    action_type: u8,
    payload: Seq<u8>,
    nonce: u64,
    now: i64,
)
    requires
        match find_player_in(m, padded(user_id, 64)) {
            Some(p) => nonce <= last_nonce_of(m, p),
            None => true,
        },
    ensures
        !(submit_move_result(
            m,
            led,
            reg,
            match_id,
            user_id,
            player,
            action_type,
            payload,
            nonce,
            now,
        ) is Ok),
{
}

/// Law: the ledger key (match, player, nonce) is a second replay barrier
/// on its own: while the ledger holds a record at the submission's key, the
/// submission is never accepted, whatever the nonce counters hold.
pub proof fn lemma_occupied_key_rejected(
    m: MatchView,
    led: Seq<LedgerEntryView>,
    reg: Seq<GameDefView>,
    match_id: Seq<u8>,
    user_id: Seq<u8>,
    player: Seq<u8>,
    action_type: u8,
    payload: Seq<u8>,
    nonce: u64,
    now: i64,
)
    requires
        key_occupied(led, match_id, player, nonce),
    ensures
        !(submit_move_result(
            m,
            led,
            reg,
            match_id,
            user_id,
            player,
            action_type,
            payload,
            nonce,
            now,
        ) is Ok),
{
}

/// Law: inside a batch the same two barriers hold of every entry: an
/// accepted entry bears a nonce above the running high-water mark and a
/// ledger key that was free.
pub proof fn lemma_batch_entry_barriers(
    m: MatchView,
    led: Seq<LedgerEntryView>,
    player: Seq<u8>,
    p: int,
    e: BatchMoveView,
    cmi: u16,
    now: i64,
)
    requires
        batch_entry_step(m, led, player, p, e, cmi, now) is Ok,
    ensures
        e.nonce > last_nonce_of(m, p),
        !key_occupied(led, m.match_id, player, e.nonce),
{
}

/// Law: suit claims are mutually exclusive.  Once player `a` holds suit
/// `s`, a declare-intent naming `s` by any other player fails, and any
/// further declaration by `a` — of any suit — fails too.
pub proof fn lemma_suit_exclusive(m: MatchView, a: int, b: int, s: u8, payload: Seq<u8>)
    requires
        m.wf(),
        0 <= a < 10,
        m.declared_suit(a) == Some(s),
        payload.len() >= 1,
        payload[0] == s,
    ensures
        b != a ==> declare_intent_validation(m, b, payload) is Err,
        forall|other: Seq<u8>|
            other.len() >= 1 ==> #[trigger] declare_intent_validation(m, a, other) is Err,
{
    assert(m.suit_locked(s));
    assert forall|other: Seq<u8>| other.len() >= 1 implies #[trigger] declare_intent_validation(
        m,
        a,
        other,
    ) is Err by {
        assert(m.declared_suit(a) is Some);
    }
}

/// Law: an ended match is terminal.  Once the phase is the terminal one,
/// every submission naming the match — single move or batch, whatever its
/// payload — fails with the already-ended error.
pub proof fn lemma_ended_match_rejects(
    m: MatchView,
    led: Seq<LedgerEntryView>,
    reg: Seq<GameDefView>,
    match_id: Seq<u8>,
    user_id: Seq<u8>,
    player: Seq<u8>,
    action_type: u8,
    payload: Seq<u8>,
    nonce: u64,
    now: i64,
    moves: Seq<BatchMoveView>,
)
    requires
        m.phase_consistent(),
        m.phase == PHASE_ENDED,
        match_id.len() == 36 && match_id == m.match_id,
        1 <= moves.len() <= 5,
    ensures
        submit_move_result(m, led, reg, match_id, user_id, player, action_type, payload, nonce, now)
            == Err::<(), GameError>(GameError::MatchAlreadyEnded),
        submit_batch_result(m, led, reg, match_id, user_id, player, moves, now) matches Err(e)
            && e == GameError::MatchAlreadyEnded,
{
}

/// Law: the phase never regresses under a single move: the state an
/// accepted submission leaves behind is at or beyond the state it found.
pub proof fn lemma_phase_monotonic_single(
    m: MatchView,
    p: int,
    action_type: u8,
    payload: Seq<u8>,
    nonce: u64,
    now: i64,
)
    requires
        m.wf(),
    ensures
        submit_move_state(m, p, action_type, payload, nonce, now).phase >= m.phase,
{
}

/// Law: the phase never regresses across a batch run.
pub proof fn lemma_phase_monotonic_batch(
    m: MatchView,
    led: Seq<LedgerEntryView>,
    player: Seq<u8>,
    p: int,
    moves: Seq<BatchMoveView>,
    i: int,
    cmi: u16,
    now: i64,
)
    requires
        m.phase <= 2,
    ensures
        match batch_run(m, led, player, p, moves, i, cmi, now) {
            Ok((m2, led2, cmi2)) => m2.phase >= m.phase && m2.phase <= 2,
            Err(_) => true,
        },
    decreases moves.len() - i,
{
    if i < 0 || i >= moves.len() {
    } else {
        match batch_entry_step(m, led, player, p, moves[i], cmi, now) {
            Err(_) => {},
            Ok((m2, led2, cmi2)) => {
                lemma_phase_monotonic_batch(m2, led2, player, p, moves, i + 1, cmi2, now);
            },
        }
    }
}

/// A batch run never moves the turn pointer or the roster count: every
/// entry applies with turn advancement suppressed.
pub proof fn lemma_batch_run_keeps_turn(
    m: MatchView,
    led: Seq<LedgerEntryView>,
    player: Seq<u8>,
    p: int,
    moves: Seq<BatchMoveView>,
    i: int,
    cmi: u16,
    now: i64,
)
    ensures
        match batch_run(m, led, player, p, moves, i, cmi, now) {
            Ok((m2, led2, cmi2)) => m2.current_player == m.current_player && m2.player_count
                == m.player_count,
            Err(_) => true,
        },
    decreases moves.len() - i,
{
    if i < 0 || i >= moves.len() {
    } else {
        match batch_entry_step(m, led, player, p, moves[i], cmi, now) {
            Err(_) => {},
            Ok((m2, led2, cmi2)) => {
                lemma_batch_run_keeps_turn(m2, led2, player, p, moves, i + 1, cmi2, now);
            },
        }
    }
}

/// Law: a successful batch moves the turn pointer at most one step.  When
/// its last entry consumed the turn, the pointer stands exactly one seat
/// past the caller — however many entries the batch carried; otherwise the
/// pointer is untouched.
pub proof fn lemma_batch_turn_single_step(
    m: MatchView,
    led: Seq<LedgerEntryView>,
    reg: Seq<GameDefView>,
    match_id: Seq<u8>,
    user_id: Seq<u8>,
    player: Seq<u8>,
    moves: Seq<BatchMoveView>,
    now: i64,
)
    requires
        submit_batch_result(m, led, reg, match_id, user_id, player, moves, now) is Ok,
    ensures
        ({
            let p = find_player_in(m, padded(user_id, 64)).unwrap();
            let last = moves[moves.len() - 1];
            match submit_batch_result(m, led, reg, match_id, user_id, player, moves, now) {
                Ok((m2, led2)) => {
                    &&& (last.action_type == ACTION_PICK_UP || last.action_type == ACTION_DECLINE)
                        ==> m2.current_player == ((p + 1) % (m.player_count as int)) as u8
                    &&& !(last.action_type == ACTION_PICK_UP || last.action_type
                        == ACTION_DECLINE) ==> m2.current_player == m.current_player
                },
                Err(_) => true,
            }
        }),
{
    let p = find_player_in(m, padded(user_id, 64)).unwrap();
    lemma_batch_run_keeps_turn(m, led, player, p, moves, 0, m.move_count, now);
}

} // verus!
