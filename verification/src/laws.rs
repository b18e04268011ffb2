//! Properties that relate the phase, the timeline and the remaining-epoch count.
use vstd::prelude::*;
use crate::phase::{
    PhaseInputs, ProposalPhase, clamp_u64, spec_epochs_remaining, spec_phase_id,
    spec_phase_label, spec_phase_timeline, spec_proposal_phase, support_deadline,
};

verus! {

/// The order in which phases follow one another; a proposal's phase never moves
/// back in this order as epochs pass.
pub open spec fn phase_rank(phase: ProposalPhase) -> int {
    match phase {
        ProposalPhase::Support => 0,
        ProposalPhase::Discussion => 1,
        ProposalPhase::Snapshot => 2,
        ProposalPhase::Voting => 3,
        ProposalPhase::Ended => 4,
        ProposalPhase::Finalized => 5,
        ProposalPhase::Failed => 5,
    }
}

/// Once a proposal has activated, its phase is decided by its finalized flag
/// and its pinned start and end epochs alone: the creation epoch and the
/// configured durations are never consulted.
pub proof fn lemma_pinned_phase_ignores_config(p: PhaseInputs, q: PhaseInputs, epoch: int)
    requires
        p.voting,
        q.voting,
        p.finalized == q.finalized,
        p.start_epoch == q.start_epoch,
        p.end_epoch == q.end_epoch,
    ensures
        spec_proposal_phase(p, epoch) == spec_proposal_phase(q, epoch),
{
}

/// A finalized proposal is reported as finalized in every epoch, whatever else
/// its state holds, and has no remaining-epoch count.
pub proof fn lemma_finalized_wins(p: PhaseInputs, epoch: int)
    requires
        p.finalized,
    ensures
        spec_proposal_phase(p, epoch) == ProposalPhase::Finalized,
        spec_epochs_remaining(p, epoch) is None,
{
}

/// As epochs pass, a proposal's phase only moves forward through the lifecycle.
pub proof fn lemma_phase_never_moves_back(p: PhaseInputs, earlier: int, later: int)
    requires
        earlier <= later,
    ensures
        phase_rank(spec_proposal_phase(p, earlier)) <= phase_rank(spec_proposal_phase(p, later)),
{
}

/// The timeline of an activated proposal recovers the epoch in which support
/// crossed the threshold from its pinned start epoch, which `activate_voting`
/// set to `crossing + discussion_epochs + snapshot_epoch_extension + 1`:
/// support ends and discussion begins in that epoch, and the snapshot is the
/// epoch just before voting opens.
pub proof fn lemma_timeline_recovers_crossing(p: PhaseInputs, crossing: u64)
    requires
        p.voting,
        p.start_epoch == crossing + p.discussion_epochs + p.snapshot_epoch_extension + 1,
    ensures
        spec_phase_timeline(p).support.1 == crossing,
        spec_phase_timeline(p).discussion.0 == crossing,
        spec_phase_timeline(p).snapshot.0 == p.start_epoch - 1,
        spec_phase_timeline(p).discussion.1 == clamp_u64(p.start_epoch - 2),
        spec_phase_timeline(p).voting == (p.start_epoch, p.end_epoch),
{
}

/// For an activated proposal whose start epoch is one `activate_voting` could
/// have set (at least `discussion_epochs + snapshot_epoch_extension + 1`), the
/// timeline agrees with the reported phase at every epoch: each epoch of its
/// discussion range is reported as discussion, its snapshot epoch as the
/// snapshot, and each epoch of `[voting.0, voting.1)` as voting.
pub proof fn lemma_timeline_agrees_with_phase(p: PhaseInputs, epoch: int)
    requires
        p.voting,
        !p.finalized,
        p.start_epoch >= p.discussion_epochs + p.snapshot_epoch_extension + 1,
    ensures
        p.start_epoch >= 2 && p.end_epoch + 1 >= p.start_epoch && spec_phase_timeline(p).discussion.0
            <= epoch <= spec_phase_timeline(p).discussion.1 ==> spec_proposal_phase(p, epoch)
            == ProposalPhase::Discussion,
        p.end_epoch >= p.start_epoch && epoch == spec_phase_timeline(p).snapshot.0
            ==> spec_proposal_phase(p, epoch) == ProposalPhase::Snapshot,
        spec_phase_timeline(p).voting.0 <= epoch < spec_phase_timeline(p).voting.1
            ==> spec_proposal_phase(p, epoch) == ProposalPhase::Voting,
{
}

/// A proposal that has not activated is in support exactly up to the last
/// epoch of its (projected) support range, and has failed after it.
pub proof fn lemma_unactivated_support_window(p: PhaseInputs, epoch: u64)
    requires
        !p.voting,
        !p.finalized,
    ensures
        spec_proposal_phase(p, epoch as int) == ProposalPhase::Support <==> epoch
            <= spec_phase_timeline(p).support.1,
        spec_proposal_phase(p, epoch as int) == ProposalPhase::Failed <==> epoch
            > spec_phase_timeline(p).support.1,
        spec_phase_timeline(p).projected,
{
}

/// The timeline is internally ordered: support and discussion share the
/// crossing epoch, and discussion, snapshot and voting follow one another
/// strictly. For an activated proposal this holds when its start epoch is one
/// `activate_voting` could have set and voting ends after it opens; for a
/// projected one, when no epoch of the projection reaches the top of the
/// `u64` range and voting lasts at least one epoch. In both, discussion and
/// the snapshot extension together must last at least one epoch.
pub proof fn lemma_timeline_ordered(p: PhaseInputs)
    requires
        p.discussion_epochs + p.snapshot_epoch_extension >= 1,
        p.voting ==> p.start_epoch >= p.discussion_epochs + p.snapshot_epoch_extension + 1
            && p.start_epoch < p.end_epoch,
        !p.voting ==> p.voting_epochs >= 1 && support_deadline(p) + p.discussion_epochs
            + p.snapshot_epoch_extension + 2 <= u64::MAX,
    ensures
        spec_phase_timeline(p).support.1 <= spec_phase_timeline(p).discussion.0,
        spec_phase_timeline(p).discussion.0 <= spec_phase_timeline(p).discussion.1,
        spec_phase_timeline(p).discussion.1 < spec_phase_timeline(p).snapshot.0,
        spec_phase_timeline(p).snapshot.0 == spec_phase_timeline(p).snapshot.1,
        spec_phase_timeline(p).snapshot.1 < spec_phase_timeline(p).voting.0,
        spec_phase_timeline(p).voting.0 < spec_phase_timeline(p).voting.1,
{
}

/// The remaining-epoch count measures how long the current phase lasts: the
/// phase holds for each of the next `n` epochs, and after them comes the next
/// one (the snapshot after discussion, voting or its end after the snapshot,
/// the end after voting). In support, `n` counts to the last epoch of the
/// support window, after which an unactivated proposal has failed. Phases with
/// no next phase have no count.
pub proof fn lemma_remaining_counts_to_next_phase(p: PhaseInputs, epoch: u64)
    ensures
        spec_epochs_remaining(p, epoch as int) is None <==> (spec_proposal_phase(p, epoch as int)
            == ProposalPhase::Ended || spec_proposal_phase(p, epoch as int) == ProposalPhase::Finalized
            || spec_proposal_phase(p, epoch as int) == ProposalPhase::Failed),
        spec_epochs_remaining(p, epoch as int) matches Some((n, _)) ==> {
            let phase = spec_proposal_phase(p, epoch as int);
            let d = p.discussion_epochs + p.snapshot_epoch_extension;
            &&& phase == ProposalPhase::Voting ==> (forall|k: int|
                0 <= k < n ==> #[trigger] spec_proposal_phase(p, epoch + k) == ProposalPhase::Voting)
                && spec_proposal_phase(p, epoch + n) == ProposalPhase::Ended
            &&& phase == ProposalPhase::Snapshot ==> n == 1 && spec_proposal_phase(p, epoch + n)
                == (if p.start_epoch < p.end_epoch {
                ProposalPhase::Voting
            } else {
                ProposalPhase::Ended
            })
            &&& phase == ProposalPhase::Discussion && p.start_epoch >= d + 1 && p.end_epoch + 1
                >= p.start_epoch ==> forall|k: int|
                0 <= k < n ==> #[trigger] spec_proposal_phase(p, epoch + k)
                    == ProposalPhase::Discussion
            &&& phase == ProposalPhase::Discussion && p.start_epoch >= d + 1 && p.end_epoch
                >= p.start_epoch ==> spec_proposal_phase(p, epoch + n) == ProposalPhase::Snapshot
            &&& phase == ProposalPhase::Support ==> (forall|k: int|
                0 <= k <= n ==> #[trigger] spec_proposal_phase(p, epoch + k)
                    == ProposalPhase::Support)
            &&& phase == ProposalPhase::Support && support_deadline(p) <= u64::MAX
                ==> spec_proposal_phase(p, epoch + n + 1) == ProposalPhase::Failed
        },
{
    let phase = spec_proposal_phase(p, epoch as int);
    if let Some((n, _)) = spec_epochs_remaining(p, epoch as int) {
        if phase == ProposalPhase::Voting {
            assert forall|k: int| 0 <= k < n implies #[trigger] spec_proposal_phase(p, epoch + k)
                == ProposalPhase::Voting by {}
        } else if phase == ProposalPhase::Discussion {
            if p.start_epoch >= p.discussion_epochs + p.snapshot_epoch_extension + 1 {
                if p.end_epoch + 1 >= p.start_epoch {
                    assert forall|k: int| 0 <= k < n implies #[trigger] spec_proposal_phase(
                        p,
                        epoch + k,
                    ) == ProposalPhase::Discussion by {}
                }
            }
        } else if phase == ProposalPhase::Support {
            assert forall|k: int| 0 <= k <= n implies #[trigger] spec_proposal_phase(p, epoch + k)
                == ProposalPhase::Support by {}
        }
    }
}

/// Distinct phases have distinct identifiers, so a status filter selects
/// exactly one phase.
pub proof fn lemma_phase_ids_distinct(a: ProposalPhase, b: ProposalPhase)
    requires
        a != b,
    ensures
        spec_phase_id(a) != spec_phase_id(b),
{
    reveal_strlit("support");
    reveal_strlit("discussion");
    reveal_strlit("snapshot");
    reveal_strlit("voting");
    reveal_strlit("ended");
    reveal_strlit("finalized");
    reveal_strlit("failed");
    if spec_phase_id(a) == spec_phase_id(b) {
        assert(spec_phase_id(a).len() == spec_phase_id(b).len());
        assert(spec_phase_id(a)[0] == spec_phase_id(b)[0]);
    }
}

/// Only the finalized flag makes a proposal finalized: the phase is
/// `Finalized` exactly when the flag is set, and an activated, unfinalized
/// proposal is `Ended` (awaiting finalization) in every epoch from its end
/// epoch on.
pub proof fn lemma_only_the_flag_finalizes(p: PhaseInputs, epoch: int)
    ensures
        spec_proposal_phase(p, epoch) == ProposalPhase::Finalized <==> p.finalized,
        p.voting && !p.finalized && epoch >= p.end_epoch ==> spec_proposal_phase(p, epoch)
            == ProposalPhase::Ended,
{
}

/// Each phase, in terms of the proposal's fields and the epoch alone.
pub proof fn lemma_phase_by_fields(p: PhaseInputs, epoch: int)
    ensures
        spec_proposal_phase(p, epoch) == ProposalPhase::Finalized <==> p.finalized,
        spec_proposal_phase(p, epoch) == ProposalPhase::Ended <==> !p.finalized && p.voting && epoch
            >= p.end_epoch,
        spec_proposal_phase(p, epoch) == ProposalPhase::Voting <==> !p.finalized && p.voting
            && p.start_epoch <= epoch < p.end_epoch,
        spec_proposal_phase(p, epoch) == ProposalPhase::Snapshot <==> !p.finalized && p.voting
            && epoch < p.end_epoch && epoch + 1 == p.start_epoch,
        spec_proposal_phase(p, epoch) == ProposalPhase::Discussion <==> !p.finalized && p.voting
            && epoch < p.end_epoch && epoch + 1 < p.start_epoch,
        spec_proposal_phase(p, epoch) == ProposalPhase::Support <==> !p.finalized && !p.voting
            && epoch <= p.creation_epoch + p.max_support_epochs,
        spec_proposal_phase(p, epoch) == ProposalPhase::Failed <==> !p.finalized && !p.voting
            && epoch > p.creation_epoch + p.max_support_epochs,
{
}

/// Each phase's identifier is the fixed lowercase name of that phase.
pub proof fn lemma_phase_ids_are_names()
    ensures
        spec_phase_id(ProposalPhase::Support) == "support"@,
        spec_phase_id(ProposalPhase::Discussion) == "discussion"@,
        spec_phase_id(ProposalPhase::Snapshot) == "snapshot"@,
        spec_phase_id(ProposalPhase::Voting) == "voting"@,
        spec_phase_id(ProposalPhase::Ended) == "ended"@,
        spec_phase_id(ProposalPhase::Finalized) == "finalized"@,
        spec_phase_id(ProposalPhase::Failed) == "failed"@,
{
}

/// Each phase's label is the name of that phase, capitalised, with an
/// explanation after it for the ended and failed phases.
pub proof fn lemma_phase_labels_are_names()
    ensures
        spec_phase_label(ProposalPhase::Support) == "Support"@,
        spec_phase_label(ProposalPhase::Discussion) == "Discussion"@,
        spec_phase_label(ProposalPhase::Snapshot) == "Snapshot"@,
        spec_phase_label(ProposalPhase::Voting) == "Voting"@,
        spec_phase_label(ProposalPhase::Ended) == "Ended (awaiting finalization)"@,
        spec_phase_label(ProposalPhase::Finalized) == "Finalized"@,
        spec_phase_label(ProposalPhase::Failed) == "Failed (support threshold not reached)"@,
{
}

/// The upper-case form of a lower-case ASCII letter; other characters stay.
pub open spec fn ascii_upper(c: char) -> char {
    if 'a' <= c <= 'z' {
        ((c as int) - 32) as char
    } else {
        c
    }
}

/// A phase's label and its identifier name the same phase: the label begins
/// with the identifier, its first letter in upper case.
pub proof fn lemma_label_agrees_with_id(phase: ProposalPhase)
    ensures
        spec_phase_id(phase).len() <= spec_phase_label(phase).len(),
        spec_phase_label(phase)[0] == ascii_upper(spec_phase_id(phase)[0]),
        forall|i: int|
            1 <= i < spec_phase_id(phase).len() ==> #[trigger] spec_phase_label(phase)[i]
                == spec_phase_id(phase)[i],
{
    reveal_strlit("support");
    reveal_strlit("discussion");
    reveal_strlit("snapshot");
    reveal_strlit("voting");
    reveal_strlit("ended");
    reveal_strlit("finalized");
    reveal_strlit("failed");
    reveal_strlit("Support");
    reveal_strlit("Discussion");
    reveal_strlit("Snapshot");
    reveal_strlit("Voting");
    reveal_strlit("Ended (awaiting finalization)");
    reveal_strlit("Finalized");
    reveal_strlit("Failed (support threshold not reached)");
}

/// Distinct phases have distinct labels.
pub proof fn lemma_phase_labels_distinct(a: ProposalPhase, b: ProposalPhase)
    requires
        a != b,
    ensures
        spec_phase_label(a) != spec_phase_label(b),
{
    reveal_strlit("Support");
    reveal_strlit("Discussion");
    reveal_strlit("Snapshot");
    reveal_strlit("Voting");
    reveal_strlit("Ended (awaiting finalization)");
    reveal_strlit("Finalized");
    reveal_strlit("Failed (support threshold not reached)");
    if spec_phase_label(a) == spec_phase_label(b) {
        assert(spec_phase_label(a).len() == spec_phase_label(b).len());
        assert(spec_phase_label(a)[0] == spec_phase_label(b)[0]);
        assert(spec_phase_label(a)[1] == spec_phase_label(b)[1]);
    }
}

/// The support range starts at the proposal's creation epoch, and the ranges
/// follow from the proposal's fields: for an activated proposal whose start
/// epoch `activate_voting` could have set, support ends in the crossing epoch
/// `start - 1 - discussion - extension` and the snapshot is the epoch before
/// voting opens; for one that has not activated and whose projection fits in
/// `u64`, support runs to the support deadline, the snapshot follows the
/// discussion and extension durations, and voting runs for its configured
/// duration from the epoch after.
pub proof fn lemma_timeline_by_fields(p: PhaseInputs)
    ensures
        spec_phase_timeline(p).support.0 == p.creation_epoch,
        spec_phase_timeline(p).projected == !p.voting,
        p.voting && p.start_epoch >= p.discussion_epochs + p.snapshot_epoch_extension + 1 ==> {
            let c = p.start_epoch - 1 - p.discussion_epochs - p.snapshot_epoch_extension;
            &&& spec_phase_timeline(p).support.1 == c
            &&& spec_phase_timeline(p).discussion.0 == c
            &&& spec_phase_timeline(p).snapshot == (
                (p.start_epoch - 1) as u64,
                (p.start_epoch - 1) as u64,
            )
            &&& spec_phase_timeline(p).voting == (p.start_epoch, p.end_epoch)
        },
        !p.voting && p.creation_epoch + p.max_support_epochs + p.discussion_epochs
            + p.snapshot_epoch_extension + 1 + p.voting_epochs <= u64::MAX ==> {
            let c = p.creation_epoch + p.max_support_epochs;
            let s = c + p.discussion_epochs + p.snapshot_epoch_extension;
            &&& spec_phase_timeline(p).support.1 == c
            &&& spec_phase_timeline(p).discussion.0 == c
            &&& spec_phase_timeline(p).discussion.1 == clamp_u64(s - 1)
            &&& spec_phase_timeline(p).snapshot == (s as u64, s as u64)
            &&& spec_phase_timeline(p).voting == ((s + 1) as u64, (s + 1 + p.voting_epochs) as u64)
        },
{
}

} // verus!
