//! The mark record, its voting state machine, and its finalization rule.
//!
//! A mark starts `Pending` with the reporter's implicit affirmative vote.
//! Votes move exactly one counter by exactly one unit. Confirmation is gated
//! by a strict 3:2 integer ratio between affirmative and opposing votes and
//! transitions the mark to the terminal `Confirmed` state.

use vstd::prelude::*;

use crate::errors::ErrorCode;

verus! {

/// A host-verified identity: a 32-byte public key.
pub type Pubkey = [u8; 32];

/// Lifecycle state of a mark. The only transition is `Pending` to
/// `Confirmed`, and `Confirmed` is terminal.
#[derive(Clone, Copy, Debug, PartialEq, Eq, Structural)]
pub enum MarkStatus {
    Pending,
    Confirmed,
}

/// One accusation record: the accused identity, the evidence fingerprint
/// bound into its storage key, the reporter, and the running vote tally.
#[derive(Debug)]
pub struct LightningMark {
    /// Identity being accused. Immutable after creation.
    pub scammer: Pubkey,
    /// Identity that created the mark. Immutable after creation.
    pub reporter: Pubkey,
    /// Creation time supplied by the host. Immutable after creation.
    pub timestamp: i64,
    /// Small classification code. Immutable after creation.
    pub scam_type: u8,
    /// 32-byte content hash of the off-record evidence. Immutable after
    /// creation and part of the record's derived storage key.
    pub proof_hash: [u8; 32],
    /// Bounded free-form text, opaque to this crate. Immutable after creation.
    pub metadata: String,
    /// Affirmative vote count, monotonically non-decreasing while pending.
    pub votes_for: u64,
    /// Opposing vote count, monotonically non-decreasing while pending.
    pub votes_against: u64,
    /// Lifecycle state.
    pub status: MarkStatus,
}

impl LightningMark {
    /// Size of the persisted fixed-width record layout, in bytes:
    /// accused key, reporter key, timestamp, category, proof hash,
    /// metadata capacity, two counters, status byte.
    pub const LEN: usize = 32 + 32 + 8 + 1 + 32 + 200 + 8 + 8 + 1;
}

/// The notification emitted when a mark is confirmed. It carries exactly the
/// accused identity and the proof fingerprint of the confirmed mark.
#[derive(Clone, Copy, Debug)]
pub struct MarkConfirmed {
    pub scammer: Pubkey,
    pub proof_hash: [u8; 32],
}

/// The fields fixed at creation are identical in the two records.
pub open spec fn immutable_fields_eq(a: LightningMark, b: LightningMark) -> bool {
    &&& a.scammer@ == b.scammer@
    &&& a.reporter@ == b.reporter@
    &&& a.timestamp == b.timestamp
    &&& a.scam_type == b.scam_type
    &&& a.proof_hash@ == b.proof_hash@
    &&& a.metadata@ == b.metadata@
}

/// A vote is accepted exactly while the mark is still pending.
pub open spec fn vote_allowed(m: LightningMark) -> bool {
    m.status is Pending
}

/// The tally clears the strict 3:2 supermajority ratio. This is a pure
/// integer comparison between the two counters, independent of the total
/// number of votes cast.
pub open spec fn threshold_met(votes_for: u64, votes_against: u64) -> bool {
    votes_for * 3 > votes_against * 2
}

/// Confirmation is accepted exactly while the mark is pending and the tally
/// clears the ratio.
pub open spec fn confirm_allowed(m: LightningMark) -> bool {
    m.status is Pending && threshold_met(m.votes_for, m.votes_against)
}

/// Record one vote against a pending mark: exactly one counter moves up by
/// exactly one, and nothing else changes. A mark that is no longer pending
/// rejects the vote and is left untouched. The voter's identity is
/// authenticated by the host before this runs and carries no weight here, so
/// it is not an input: every invocation contributes exactly one unit.
pub fn vote(mark: &mut LightningMark, vote_for: bool) -> (r: Result<(), ErrorCode>)
    requires
        old(mark).status is Pending && vote_for ==> old(mark).votes_for < u64::MAX,
        old(mark).status is Pending && !vote_for ==> old(mark).votes_against < u64::MAX,
    ensures
        r is Ok <==> vote_allowed(*old(mark)),
        !vote_allowed(*old(mark)) ==> r == Err::<(), ErrorCode>(ErrorCode::AlreadyFinalized)
            && *final(mark) == *old(mark),
        vote_allowed(*old(mark)) ==> {
            &&& final(mark).votes_for == old(mark).votes_for + (if vote_for { 1int } else { 0int })
            &&& final(mark).votes_against == old(mark).votes_against + (
            if vote_for {
                0int
            } else {
                1int
            })
            &&& final(mark).status == old(mark).status
            &&& immutable_fields_eq(*final(mark), *old(mark))
        },
{
    match mark.status {
        MarkStatus::Confirmed => Err(ErrorCode::AlreadyFinalized),
        MarkStatus::Pending => {
            if vote_for {
                mark.votes_for = mark.votes_for + 1;
            } else {
                mark.votes_against = mark.votes_against + 1;
            }
            Ok(())
        },
    }
}

/// Finalize a pending mark whose tally clears the 3:2 ratio: the status
/// becomes the terminal `Confirmed`, the counters and the creation-time
/// fields are untouched, and the returned notification carries the accused
/// identity and the proof fingerprint. A mark that is already confirmed
/// fails with `AlreadyFinalized`; a pending mark below the ratio fails with
/// `InsufficientVotes`; either failure leaves the mark unchanged. The
/// authorization of the governance caller is enforced by the host before
/// this runs.
pub fn confirm(mark: &mut LightningMark) -> (r: Result<MarkConfirmed, ErrorCode>)
    ensures
        r is Ok <==> confirm_allowed(*old(mark)),
        old(mark).status is Confirmed ==> r == Err::<MarkConfirmed, ErrorCode>(
            ErrorCode::AlreadyFinalized,
        ) && *final(mark) == *old(mark),
        old(mark).status is Pending && !threshold_met(old(mark).votes_for, old(mark).votes_against)
            ==> r == Err::<MarkConfirmed, ErrorCode>(ErrorCode::InsufficientVotes) && *final(mark)
            == *old(mark),
        r matches Ok(ev) ==> {
            &&& ev.scammer@ == old(mark).scammer@
            &&& ev.proof_hash@ == old(mark).proof_hash@
            &&& final(mark).status is Confirmed
            &&& final(mark).votes_for == old(mark).votes_for
            &&& final(mark).votes_against == old(mark).votes_against
            &&& immutable_fields_eq(*final(mark), *old(mark))
        },
{
    match mark.status {
        MarkStatus::Confirmed => Err(ErrorCode::AlreadyFinalized),
        MarkStatus::Pending => {
            // Widening to u128 makes the 3:2 comparison exact for every
            // possible pair of u64 counters.
            if (mark.votes_for as u128) * 3 > (mark.votes_against as u128) * 2 {
                mark.status = MarkStatus::Confirmed;
                Ok(MarkConfirmed { scammer: mark.scammer, proof_hash: mark.proof_hash })
            } else {
                Err(ErrorCode::InsufficientVotes)
            }
        },
    }
}

/// Confirmation is terminal: on a confirmed mark neither a vote nor a second
/// confirmation is ever allowed, so after the first successful `confirm` no
/// operation changes the mark and no second notification is emitted.
pub proof fn lemma_confirmed_is_terminal(m: LightningMark)
    requires
        m.status is Confirmed,
    ensures
        !vote_allowed(m),
        !confirm_allowed(m),
{
}

} // verus!
