//! The append-only move ledger: one record per accepted move, written once
//! and never mutated.
//!
//! Each record is stored under the key `(match, player, nonce)`.  Because a
//! key can be occupied at most once, a second creation attempt at the same
//! key is rejected on its own, independently of the per-player nonce
//! counter — the ledger is the second replay barrier.

use vstd::prelude::*;

use crate::errors::GameError;

verus! {

/// Action tag: take the revealed floor card into hand.
pub const ACTION_PICK_UP: u8 = 0;

/// Action tag: leave the revealed floor card for the next player.
pub const ACTION_DECLINE: u8 = 1;

/// Action tag: claim a suit.
pub const ACTION_DECLARE_INTENT: u8 = 2;

/// Action tag: end the match in a showdown.
pub const ACTION_CALL_SHOWDOWN: u8 = 3;

/// Action tag: contest a claim with a three-card run.
pub const ACTION_REBUTTAL: u8 = 4;

/// Action tag: publish a new floor-card commitment.
pub const ACTION_REVEAL_FLOOR_CARD: u8 = 5;

/// Upper bound on a move payload.
pub const MAX_PAYLOAD: usize = 128;

/// One accepted move: who moved in which match, the move's sequence number,
/// its action and payload (a fixed 128-byte field plus the used length), and
/// when it was accepted.
pub struct Move {
    /// Match identifier, exactly 36 bytes.
    pub match_id: Vec<u8>,
    /// Identity of the submitting player, 32 bytes.
    pub player: Vec<u8>,
    /// Sequential move number within the match.
    pub move_index: u16,
    /// Action tag.
    pub action_type: u8,
    /// Fixed 128-byte payload field.
    pub payload: Vec<u8>,
    /// How many payload bytes are in use.
    pub payload_len: u8,
    /// Acceptance time, seconds truncated to 32 bits.
    pub timestamp: u32,
}

/// The mathematical value of a [`Move`].
#[verifier::ext_equal]
pub ghost struct MoveView {
    pub match_id: Seq<u8>,
    pub player: Seq<u8>,
    pub move_index: u16,
    pub action_type: u8,
    pub payload: Seq<u8>,
    pub payload_len: u8,
    pub timestamp: u32,
}

impl View for Move {
    type V = MoveView;

    open spec fn view(&self) -> MoveView {
        MoveView {
            match_id: self.match_id@,
            player: self.player@,
            move_index: self.move_index,
            action_type: self.action_type,
            payload: self.payload@,
            payload_len: self.payload_len,
            timestamp: self.timestamp,
        }
    }
}

impl MoveView {
    /// Well-formedness of the record layout.
    pub open spec fn wf(self) -> bool {
        &&& self.match_id.len() == 36
        &&& self.player.len() == 32
        &&& self.payload.len() == 128
        &&& self.payload_len <= 128
    }

    /// The used prefix of the payload field.
    pub open spec fn payload_bytes(self) -> Seq<u8> {
        self.payload.subrange(0, self.payload_len as int)
    }
}

impl Move {
    /// The used prefix of the payload field.
    pub fn get_payload_slice(&self) -> (r: &[u8])
        requires
            self@.wf(),
        ensures
            r@ == self@.payload_bytes(),
    {
        vstd::slice::slice_subrange(self.payload.as_slice(), 0, self.payload_len as usize)
    }

    /// Action tag of this move.
    pub fn get_action_type(&self) -> (r: u8)
        ensures
            r == self@.action_type,
    {
        self.action_type
    }

    /// Copies `data` into the fixed payload field; data longer than the
    /// field is an invalid payload and leaves the record untouched.
    pub fn set_payload(&mut self, data: &Vec<u8>) -> (r: Result<(), GameError>)
        requires
            old(self)@.wf(),
        ensures
            final(self)@.wf(),
            data@.len() <= 128 ==> {
                &&& r == Ok::<(), GameError>(())
                &&& final(self)@.payload_bytes() == data@
                &&& final(self)@ == (MoveView {
                    payload: final(self)@.payload,
                    payload_len: data@.len() as u8,
                    ..old(self)@
                })
            },
            data@.len() > 128 ==> r == Err::<(), GameError>(GameError::InvalidPayload)
                && final(self)@ == old(self)@,
    {
        if data.len() > 128 {
            return Err(GameError::InvalidPayload);
        }
        let mut k: usize = 0;
        while k < data.len()
            invariant
                k <= data@.len() <= 128,
                self@.payload.len() == 128,
                forall|t: int|
                    0 <= t < 128 ==> self@.payload[t] == (if t < k {
                        data@[t]
                    } else {
                        old(self)@.payload[t]
                    }),
                self@ == (MoveView { payload: self@.payload, ..old(self)@ }),
            decreases data.len() - k,
        {
            self.payload[k] = data[k];
            k += 1;
        }
        self.payload_len = data.len() as u8;
        proof {
            assert(self@.payload_bytes() =~= data@);
        }
        Ok(())
    }
}

/// One ledger slot: the nonce completing the storage key, and the record.
pub struct LedgerEntry {
    /// The nonce under which the record was created.
    pub nonce: u64,
    /// The stored move.
    pub record: Move,
}

/// The mathematical value of a [`LedgerEntry`].
#[verifier::ext_equal]
pub ghost struct LedgerEntryView {
    pub nonce: u64,
    pub record: MoveView,
}

impl View for LedgerEntry {
    type V = LedgerEntryView;

    open spec fn view(&self) -> LedgerEntryView {
        LedgerEntryView { nonce: self.nonce, record: self.record@ }
    }
}

impl LedgerEntryView {
    /// True when this entry occupies the key `(match_id, player, nonce)`.
    pub open spec fn has_key(self, match_id: Seq<u8>, player: Seq<u8>, nonce: u64) -> bool {
        &&& self.record.match_id == match_id
        &&& self.record.player == player
        &&& self.nonce == nonce
    }
}

/// True when some entry of `led` occupies the key.
pub open spec fn key_occupied(
    led: Seq<LedgerEntryView>,
    match_id: Seq<u8>,
    player: Seq<u8>,
    nonce: u64,
) -> bool {
    exists|i: int| 0 <= i < led.len() && led[i].has_key(match_id, player, nonce)
}

/// The append-only store of accepted moves, keyed by
/// `(match, player, nonce)`.
pub struct MoveLedger {
    pub entries: Vec<LedgerEntry>,
}

impl View for MoveLedger {
    type V = Seq<LedgerEntryView>;

    open spec fn view(&self) -> Seq<LedgerEntryView> {
        Seq::new(self.entries@.len(), |i: int| self.entries@[i]@)
    }
}

/// Well-formedness of the ledger: every record is well formed and no two
/// entries share a key.
pub open spec fn ledger_wf(led: Seq<LedgerEntryView>) -> bool {
    &&& (forall|i: int| 0 <= i < led.len() ==> #[trigger] led[i].record.wf())
    &&& (forall|i: int, j: int|
        0 <= i < led.len() && 0 <= j < led.len() && i != j ==> !(#[trigger] led[i].has_key(
            led[j].record.match_id,
            led[j].record.player,
            led[j].nonce,
        )))
}

impl MoveLedger {
    /// An empty ledger.
    pub fn new() -> (r: MoveLedger)
        ensures
            r@.len() == 0,
            ledger_wf(r@),
    {
        MoveLedger { entries: Vec::new() }
    }

    /// How many records the ledger holds.
    pub fn len(&self) -> (r: usize)
        ensures
            r == self@.len(),
    {
        self.entries.len()
    }

    /// True when the ledger already holds a record at
    /// `(match_id, player, nonce)`.
    pub fn is_occupied(&self, match_id: &Vec<u8>, player: &Vec<u8>, nonce: u64) -> (r: bool)
        ensures
            r == key_occupied(self@, match_id@, player@, nonce),
    {
        let mut i: usize = 0;
        while i < self.entries.len()
            invariant
                i <= self@.len(),
                forall|k: int| 0 <= k < i ==> !self@[k].has_key(match_id@, player@, nonce),
            decreases self@.len() - i,
        {
            let e = &self.entries[i];
            if e.nonce == nonce && crate::bytes::bytes_eq(&e.record.match_id, match_id)
                && crate::bytes::bytes_eq(&e.record.player, player) {
                proof {
                    assert(self@[i as int].has_key(match_id@, player@, nonce));
                }
                return true;
            }
            i += 1;
        }
        false
    }

    /// Creates the record for key `(record.match_id, record.player, nonce)`.
    /// A second creation attempt at an occupied key fails with the nonce
    /// error, whatever the nonce counters say.
    pub fn create_record(&mut self, nonce: u64, record: Move) -> (r: Result<(), GameError>)
        requires
            ledger_wf(old(self)@),
            record@.wf(),
        ensures
            ledger_wf(final(self)@),
            !key_occupied(old(self)@, record@.match_id, record@.player, nonce) ==> {
                &&& r == Ok::<(), GameError>(())
                &&& final(self)@ == old(self)@.push(
                    LedgerEntryView { nonce, record: record@ },
                )
            },
            key_occupied(old(self)@, record@.match_id, record@.player, nonce) ==> {
                &&& r == Err::<(), GameError>(GameError::InvalidNonce)
                &&& final(self)@ == old(self)@
            },
    {
        if self.is_occupied(&record.match_id, &record.player, nonce) {
            return Err(GameError::InvalidNonce);
        }
        let ghost pre = self@;
        let ghost entry_view = LedgerEntryView { nonce, record: record@ };
        self.entries.push(LedgerEntry { nonce, record });
        proof {
            assert(self@ =~= pre.push(entry_view));
            assert forall|i: int, j: int|
                0 <= i < self@.len() && 0 <= j < self@.len() && i != j implies !(
            #[trigger] self@[i].has_key(
                self@[j].record.match_id,
                self@[j].record.player,
                self@[j].nonce,
            )) by {
                if i < pre.len() && j < pre.len() {
                } else if j == pre.len() {
                    assert(!pre[i].has_key(entry_view.record.match_id, entry_view.record.player, entry_view.nonce));
                } else {
                    assert(i == pre.len());
                    assert(!pre[j].has_key(entry_view.record.match_id, entry_view.record.player, entry_view.nonce));
                }
            }
        }
        Ok(())
    }
}

} // verus!
