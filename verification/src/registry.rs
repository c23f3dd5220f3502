//! Deterministic storage-key derivation and create-once allocation.
//!
//! A mark's storage key is a pure function of the accused identity and the
//! proof fingerprint. The registry models the host's allocate-once storage
//! primitive: it records which keys are occupied and initializes a new mark
//! only when its key is still free, so at most one mark ever exists per key.

use vstd::prelude::*;

use crate::errors::ErrorCode;
use crate::mark::LightningMark;
use crate::mark::MarkStatus;
use crate::mark::Pubkey;

verus! {

/// The deterministic storage identity of a mark: the accused identity
/// together with the proof fingerprint. Two creation requests collide exactly
/// when both components agree.
#[derive(Clone, Copy, Debug)]
pub struct StorageKey {
    pub accused: Pubkey,
    pub fingerprint: [u8; 32],
}

/// Derive the storage key for a mark from the accused identity and the proof
/// fingerprint. The derivation is pure and injective: equal pairs give equal
/// keys and distinct pairs give distinct keys.
pub fn derive_address(accused: &Pubkey, fingerprint: &[u8; 32]) -> (k: StorageKey)
    ensures
        k == (StorageKey { accused: *accused, fingerprint: *fingerprint }),
        k.accused@ == accused@,
        k.fingerprint@ == fingerprint@,
{
    StorageKey { accused: *accused, fingerprint: *fingerprint }
}

/// Byte-wise equality of two 32-byte values.
fn bytes32_eq(a: &[u8; 32], b: &[u8; 32]) -> (r: bool)
    ensures
        r <==> a@ == b@,
{
    let mut i: usize = 0;
    while i < 32
        invariant
            0 <= i <= 32,
            forall|j: int| 0 <= j < i ==> a@[j] == b@[j],
        decreases 32 - i,
    {
        if a[i] != b[i] {
            assert(a@[i as int] != b@[i as int]);
            return false;
        }
        i = i + 1;
    }
    assert(a@ =~= b@);
    true
}

/// The registry of occupied storage keys. It stands for the host's
/// allocate-once storage: creation claims a key atomically, a claimed key is
/// never claimed again, and nothing is ever released.
pub struct MarkRegistry {
    slots: Vec<StorageKey>,
}

impl View for MarkRegistry {
    type V = Seq<StorageKey>;

    closed spec fn view(&self) -> Seq<StorageKey> {
        self.slots@
    }
}

/// The key stands for the (accused, fingerprint) pair.
pub open spec fn key_matches(k: StorageKey, accused: Seq<u8>, fingerprint: Seq<u8>) -> bool {
    k.accused@ == accused && k.fingerprint@ == fingerprint
}

/// The two keys agree on both components, so they denote the same storage
/// slot.
pub open spec fn same_key(a: StorageKey, b: StorageKey) -> bool {
    key_matches(a, b.accused@, b.fingerprint@)
}

impl MarkRegistry {
    /// Some already-created mark claims the key derived from this accused
    /// identity and proof fingerprint.
    pub open spec fn occupied(self, accused: Seq<u8>, fingerprint: Seq<u8>) -> bool {
        exists|i: int| 0 <= i < self@.len() && key_matches(#[trigger] self@[i], accused, fingerprint)
    }

    /// No two claimed slots share a storage key: the registry holds at most
    /// one mark per (accused, fingerprint) pair.
    pub open spec fn wf(self) -> bool {
        forall|i: int, j: int|
            0 <= i < j < self@.len() ==> !same_key(#[trigger] self@[i], #[trigger] self@[j])
    }

    /// An empty registry: no key is occupied.
    pub fn new() -> (r: MarkRegistry)
        ensures
            r@.len() == 0,
            r.wf(),
    {
        MarkRegistry { slots: Vec::new() }
    }

    /// Whether the key derived from this accused identity and proof
    /// fingerprint is already claimed.
    pub fn contains(&self, accused: &Pubkey, fingerprint: &[u8; 32]) -> (r: bool)
        ensures
            r <==> self.occupied(accused@, fingerprint@),
    {
        let mut i: usize = 0;
        while i < self.slots.len()
            invariant
                0 <= i <= self.slots.len(),
                forall|j: int| 0 <= j < i ==> !key_matches(#[trigger] self@[j], accused@, fingerprint@),
            decreases self.slots.len() - i,
        {
            let slot = &self.slots[i];
            if bytes32_eq(&slot.accused, accused) && bytes32_eq(&slot.fingerprint, fingerprint) {
                assert(key_matches(self@[i as int], accused@, fingerprint@));
                return true;
            }
            i = i + 1;
        }
        false
    }

    /// Create a new mark, claiming the storage key derived from the accused
    /// identity and the proof fingerprint. Exactly one mark can ever be
    /// created per key: if the key is already occupied the request fails with
    /// `DuplicateRecord` and the registry is unchanged. On success the key is
    /// claimed and the returned mark is fully initialized: it carries the
    /// creation-time fields as given, one affirmative vote standing for the
    /// reporter's own accusation, no opposing votes, and the `Pending`
    /// status. The reporter is the host-authenticated caller, and `now` is
    /// the host's clock reading.
    pub fn create_lightning_mark(
        &mut self,
        scammer: &Pubkey,
        scam_type: u8,
        proof_hash: &[u8; 32],
        metadata: String,
        reporter: &Pubkey,
        now: i64,
    ) -> (r: Result<LightningMark, ErrorCode>)
        requires
            old(self).wf(),
        ensures
            final(self).wf(),
            r is Ok <==> !old(self).occupied(scammer@, proof_hash@),
            r is Err ==> r == Err::<LightningMark, ErrorCode>(ErrorCode::DuplicateRecord)
                && final(self)@ == old(self)@,
            r is Ok ==> final(self)@ == old(self)@.push(
                (StorageKey { accused: *scammer, fingerprint: *proof_hash }),
            ) && final(self).occupied(scammer@, proof_hash@),
            r matches Ok(m) ==> {
                &&& m.scammer@ == scammer@
                &&& m.reporter@ == reporter@
                &&& m.timestamp == now
                &&& m.scam_type == scam_type
                &&& m.proof_hash@ == proof_hash@
                &&& m.metadata@ == metadata@
                &&& m.votes_for == 1
                &&& m.votes_against == 0
                &&& m.status is Pending
            },
    {
        if self.contains(scammer, proof_hash) {
            return Err(ErrorCode::DuplicateRecord);
        }
        let key = derive_address(scammer, proof_hash);
        self.slots.push(key);
        proof {
            let olds = old(self)@;
            let news = self@;
            assert(key_matches(news[olds.len() as int], scammer@, proof_hash@));
            assert forall|i: int, j: int| 0 <= i < j < news.len() implies !same_key(
                #[trigger] news[i],
                #[trigger] news[j],
            ) by {
                if j < olds.len() {
                    assert(news[i] == olds[i] && news[j] == olds[j]);
                } else {
                    assert(news[j] == key);
                    assert(!key_matches(olds[i], scammer@, proof_hash@));
                }
            }
        }
        Ok(
            LightningMark {
                scammer: *scammer,
                reporter: *reporter,
                timestamp: now,
                scam_type,
                proof_hash: *proof_hash,
                metadata,
                votes_for: 1,
                votes_against: 0,
                status: MarkStatus::Pending,
            },
        )
    }
}

/// At most one mark per derived storage key: in a well-formed registry two
/// claimed slots that agree on both the accused identity and the proof
/// fingerprint are the same slot.
pub proof fn lemma_at_most_one_mark_per_key(r: MarkRegistry, i: int, j: int)
    requires
        r.wf(),
        0 <= i < r@.len(),
        0 <= j < r@.len(),
        r@[i].accused@ == r@[j].accused@,
        r@[i].fingerprint@ == r@[j].fingerprint@,
    ensures
        i == j,
{
    if i < j {
        assert(!same_key(r@[i], r@[j]));
    }
    if j < i {
        assert(!same_key(r@[j], r@[i]));
    }
}

} // verus!
