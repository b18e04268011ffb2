//! Proposal lifecycle phases, derived from on-chain state.
//!
//! The program fixes a proposal's schedule at the moment support crosses the
//! threshold: `activate_voting` sets `voting`, `start_epoch` and `end_epoch`
//! from the epoch the crossing happened in, which can be any epoch inside the
//! support window. Once `voting` is set, the on-chain epochs are authoritative
//! and the configured durations are not consulted for the phase. The durations
//! only serve to project a schedule for a proposal that has not activated yet.
use vstd::prelude::*;

verus! {

/// Fields needed to place a proposal in its lifecycle, as plain values.
#[derive(Debug, Clone, Copy)]
pub struct PhaseInputs {
    pub creation_epoch: u64,
    pub start_epoch: u64,
    pub end_epoch: u64,
    pub voting: bool,
    pub finalized: bool,
    pub max_support_epochs: u64,
    pub discussion_epochs: u64,
    pub snapshot_epoch_extension: u64,
    pub voting_epochs: u64,
}

/// Where a proposal stands in its lifecycle.
#[derive(Debug, Clone, Copy, PartialEq, Eq, Structural)]
pub enum ProposalPhase {
    Support,
    Discussion,
    Snapshot,
    Voting,
    Ended,
    Finalized,
    Failed,
}

/// Inclusive epoch ranges for each phase. `projected` marks a schedule inferred
/// from the configured durations because the proposal has not activated yet:
/// those epochs shift if it crosses the threshold before the window's last epoch.
#[derive(Debug, Clone, Copy, PartialEq, Eq)]
pub struct PhaseTimeline {
    pub support: (u64, u64),
    pub discussion: (u64, u64),
    pub snapshot: (u64, u64),
    pub voting: (u64, u64),
    pub projected: bool,
}

/// The human-readable label of a phase.
pub open spec fn spec_phase_label(phase: ProposalPhase) -> Seq<char> {
    match phase {
        ProposalPhase::Support => "Support"@,
        ProposalPhase::Discussion => "Discussion"@,
        ProposalPhase::Snapshot => "Snapshot"@,
        ProposalPhase::Voting => "Voting"@,
        ProposalPhase::Ended => "Ended (awaiting finalization)"@,
        ProposalPhase::Finalized => "Finalized"@,
        ProposalPhase::Failed => "Failed (support threshold not reached)"@,
    }
}

/// The lowercase identifier of a phase.
pub open spec fn spec_phase_id(phase: ProposalPhase) -> Seq<char> {
    match phase {
        ProposalPhase::Support => "support"@,
        ProposalPhase::Discussion => "discussion"@,
        ProposalPhase::Snapshot => "snapshot"@,
        ProposalPhase::Voting => "voting"@,
        ProposalPhase::Ended => "ended"@,
        ProposalPhase::Finalized => "finalized"@,
        ProposalPhase::Failed => "failed"@,
    }
}

impl ProposalPhase {
    /// Human-readable name of the phase.
    pub fn label(self) -> (s: &'static str)
        ensures
            s@ == spec_phase_label(self),
            self == ProposalPhase::Support ==> s@ == "Support"@,
            self == ProposalPhase::Discussion ==> s@ == "Discussion"@,
            self == ProposalPhase::Snapshot ==> s@ == "Snapshot"@,
            self == ProposalPhase::Voting ==> s@ == "Voting"@,
            self == ProposalPhase::Ended ==> s@ == "Ended (awaiting finalization)"@,
            self == ProposalPhase::Finalized ==> s@ == "Finalized"@,
            self == ProposalPhase::Failed ==> s@ == "Failed (support threshold not reached)"@,
    {
        match self {
            Self::Support => "Support",
            Self::Discussion => "Discussion",
            Self::Snapshot => "Snapshot",
            Self::Voting => "Voting",
            Self::Ended => "Ended (awaiting finalization)",
            Self::Finalized => "Finalized",
            Self::Failed => "Failed (support threshold not reached)",
        }
    }

    /// Lowercase identifier used by `--status` filters and JSON output.
    pub fn id(self) -> (s: &'static str)
        ensures
            s@ == spec_phase_id(self),
            self == ProposalPhase::Support ==> s@ == "support"@,
            self == ProposalPhase::Discussion ==> s@ == "discussion"@,
            self == ProposalPhase::Snapshot ==> s@ == "snapshot"@,
            self == ProposalPhase::Voting ==> s@ == "voting"@,
            self == ProposalPhase::Ended ==> s@ == "ended"@,
            self == ProposalPhase::Finalized ==> s@ == "finalized"@,
            self == ProposalPhase::Failed ==> s@ == "failed"@,
    {
        match self {
            Self::Support => "support",
            Self::Discussion => "discussion",
            Self::Snapshot => "snapshot",
            Self::Voting => "voting",
            Self::Ended => "ended",
            Self::Finalized => "finalized",
            Self::Failed => "failed",
        }
    }
}

/// The last epoch in which the program accepts support for a proposal that has
/// not activated: `creation_epoch + max_support_epochs`, as an unbounded integer.
pub open spec fn support_deadline(p: PhaseInputs) -> int {
    p.creation_epoch + p.max_support_epochs
}

/// The phase of a proposal in epoch `epoch`.
///
/// A finalized proposal is `Finalized`. An activated proposal (`voting` set)
/// follows its pinned epochs alone: `Ended` from `end_epoch` on, `Voting` from
/// `start_epoch` on, `Snapshot` in the epoch just before `start_epoch`, and
/// `Discussion` before that. A proposal that has not activated is in `Support`
/// up to and including its support deadline, and `Failed` after it.
pub open spec fn spec_proposal_phase(p: PhaseInputs, epoch: int) -> ProposalPhase {
    if p.finalized {
        ProposalPhase::Finalized
    } else if p.voting {
        if epoch >= p.end_epoch {
            ProposalPhase::Ended
        } else if epoch >= p.start_epoch {
            ProposalPhase::Voting
        } else if epoch + 1 >= p.start_epoch {
            ProposalPhase::Snapshot
        } else {
            ProposalPhase::Discussion
        }
    } else if epoch <= support_deadline(p) {
        ProposalPhase::Support
    } else {
        ProposalPhase::Failed
    }
}

/// The phase of the proposal described by `p` in epoch `current_epoch`.
pub fn proposal_phase(p: &PhaseInputs, current_epoch: u64) -> (phase: ProposalPhase)
    ensures
        phase == spec_proposal_phase(*p, current_epoch as int),
        p.finalized ==> phase == ProposalPhase::Finalized,
        !p.finalized && p.voting ==> phase != ProposalPhase::Support && phase
            != ProposalPhase::Failed,
        !p.finalized && !p.voting ==> (phase == ProposalPhase::Support || phase
            == ProposalPhase::Failed),
        phase == ProposalPhase::Finalized <==> p.finalized,
        phase == ProposalPhase::Ended <==> !p.finalized && p.voting && current_epoch
            >= p.end_epoch,
        phase == ProposalPhase::Voting <==> !p.finalized && p.voting && p.start_epoch
            <= current_epoch < p.end_epoch,
        phase == ProposalPhase::Snapshot <==> !p.finalized && p.voting && current_epoch
            < p.end_epoch && current_epoch + 1 == p.start_epoch,
        phase == ProposalPhase::Discussion <==> !p.finalized && p.voting && current_epoch
            < p.end_epoch && current_epoch + 1 < p.start_epoch,
        phase == ProposalPhase::Support <==> !p.finalized && !p.voting && current_epoch
            <= p.creation_epoch + p.max_support_epochs,
        phase == ProposalPhase::Failed <==> !p.finalized && !p.voting && current_epoch
            > p.creation_epoch + p.max_support_epochs,
{
    if p.finalized {
        return ProposalPhase::Finalized;
    }
    if p.voting {
        // The schedule is pinned on chain; the configured durations play no part.
        if current_epoch >= p.end_epoch {
            return ProposalPhase::Ended;
        }
        if current_epoch >= p.start_epoch {
            return ProposalPhase::Voting;
        }
        // The snapshot is taken in the epoch immediately before voting opens.
        // `current_epoch < end_epoch` here, so the addition cannot overflow.
        if current_epoch + 1 >= p.start_epoch {
            return ProposalPhase::Snapshot;
        }
        return ProposalPhase::Discussion;
    }
    // Not activated: support is only accepted up to the deadline, and past it
    // with `voting` still unset the proposal can never advance.
    if current_epoch <= p.creation_epoch.saturating_add(p.max_support_epochs) {
        ProposalPhase::Support
    } else {
        ProposalPhase::Failed
    }
}

/// `x` clamped into the range of `u64`, as saturating arithmetic gives it.
pub open spec fn clamp_u64(x: int) -> u64 {
    if x < 0 {
        0
    } else if x > u64::MAX {
        u64::MAX
    } else {
        x as u64
    }
}

/// The epoch in which support crossed the threshold.
///
/// For an activated proposal it is recovered from the pinned start epoch,
/// which `activate_voting` sets to `crossing + discussion_epochs +
/// snapshot_epoch_extension + 1`. For one that has not activated it is the
/// latest epoch in which it could still cross: its support deadline.
pub open spec fn spec_crossing_epoch(p: PhaseInputs) -> u64 {
    if p.voting {
        clamp_u64(p.start_epoch - 1 - p.discussion_epochs - p.snapshot_epoch_extension)
    } else {
        clamp_u64(support_deadline(p))
    }
}

/// The snapshot epoch: the crossing epoch plus the discussion and snapshot
/// extension durations.
pub open spec fn spec_snapshot_epoch(p: PhaseInputs) -> u64 {
    clamp_u64(spec_crossing_epoch(p) + p.discussion_epochs + p.snapshot_epoch_extension)
}

/// The first epoch of voting: pinned for an activated proposal, else the epoch
/// after the snapshot.
pub open spec fn spec_voting_start(p: PhaseInputs) -> u64 {
    if p.voting {
        p.start_epoch
    } else {
        clamp_u64(spec_snapshot_epoch(p) + 1)
    }
}

/// The end of voting: pinned for an activated proposal, else the voting start
/// plus the configured voting duration.
pub open spec fn spec_voting_end(p: PhaseInputs) -> u64 {
    if p.voting {
        p.end_epoch
    } else {
        clamp_u64(spec_voting_start(p) + p.voting_epochs)
    }
}

/// The timeline of a proposal. Support runs from creation to the crossing
/// epoch; discussion begins in the crossing epoch itself and runs to the epoch
/// before the snapshot; the snapshot is one epoch; then voting.
pub open spec fn spec_phase_timeline(p: PhaseInputs) -> PhaseTimeline {
    let crossing = spec_crossing_epoch(p);
    let snapshot = spec_snapshot_epoch(p);
    PhaseTimeline {
        support: (p.creation_epoch, crossing),
        discussion: (crossing, clamp_u64(snapshot - 1)),
        snapshot: (snapshot, snapshot),
        voting: (spec_voting_start(p), spec_voting_end(p)),
        projected: !p.voting,
    }
}

/// The timeline of the proposal described by `p`.
pub fn phase_timeline(p: &PhaseInputs) -> (t: PhaseTimeline)
    ensures
        t == spec_phase_timeline(*p),
        t.projected == !p.voting,
        t.support.1 == t.discussion.0,
        t.snapshot.0 == t.snapshot.1,
        p.voting ==> t.voting == (p.start_epoch, p.end_epoch),
        t.support.0 == p.creation_epoch,
        t.discussion.1 == (if t.snapshot.0 == 0 {
            0
        } else {
            t.snapshot.0 - 1
        }),
        p.voting && p.start_epoch >= p.discussion_epochs + p.snapshot_epoch_extension + 1
            ==> t.support.1 == p.start_epoch - 1 - p.discussion_epochs - p.snapshot_epoch_extension
            && t.snapshot.0 == p.start_epoch - 1,
        p.voting && p.start_epoch < p.discussion_epochs + p.snapshot_epoch_extension + 1
            ==> t.support.1 == 0,
        !p.voting && p.creation_epoch + p.max_support_epochs <= u64::MAX ==> t.support.1
            == p.creation_epoch + p.max_support_epochs,
        !p.voting && p.creation_epoch + p.max_support_epochs > u64::MAX ==> t.support.1
            == u64::MAX,
        t.support.1 + p.discussion_epochs + p.snapshot_epoch_extension <= u64::MAX ==> t.snapshot.0
            == t.support.1 + p.discussion_epochs + p.snapshot_epoch_extension,
        t.support.1 + p.discussion_epochs + p.snapshot_epoch_extension > u64::MAX ==> t.snapshot.0
            == u64::MAX,
        !p.voting ==> t.voting.0 == (if t.snapshot.0 < u64::MAX {
            t.snapshot.0 + 1
        } else {
            u64::MAX as int
        }),
        !p.voting ==> t.voting.1 == (if t.voting.0 + p.voting_epochs <= u64::MAX {
            t.voting.0 + p.voting_epochs
        } else {
            u64::MAX as int
        }),
{
    // The epoch support crossed the threshold, recovered by inverting the
    // start epoch that `activate_voting` computed; or, when not activated, the
    // latest epoch it could still cross.
    let crossing = if p.voting {
        p.start_epoch.saturating_sub(1).saturating_sub(p.discussion_epochs).saturating_sub(
            p.snapshot_epoch_extension,
        )
    } else {
        p.creation_epoch.saturating_add(p.max_support_epochs)
    };

    // Discussion begins in the crossing epoch itself: support closed partway
    // through it, so that epoch is the tail of support and the head of
    // discussion, as `proposal_phase` reports it.
    let snapshot_epoch = crossing.saturating_add(p.discussion_epochs).saturating_add(
        p.snapshot_epoch_extension,
    );
    let discussion_start = crossing;
    let discussion_end = snapshot_epoch.saturating_sub(1);

    let (voting_start, voting_end) = if p.voting {
        (p.start_epoch, p.end_epoch)
    } else {
        let start = snapshot_epoch.saturating_add(1);
        (start, start.saturating_add(p.voting_epochs))
    };

    PhaseTimeline {
        support: (p.creation_epoch, crossing),
        discussion: (discussion_start, discussion_end),
        snapshot: (snapshot_epoch, snapshot_epoch),
        voting: (voting_start, voting_end),
        projected: !p.voting,
    }
}

/// How many epochs remain until the current phase gives way to the next, with
/// the text that says what comes then; `None` for phases that have no next.
pub open spec fn spec_epochs_remaining(p: PhaseInputs, epoch: int) -> Option<(u64, Seq<char>)> {
    let t = spec_phase_timeline(p);
    match spec_proposal_phase(p, epoch) {
        ProposalPhase::Support => Some(
            (clamp_u64(t.support.1 - epoch), "until the support window closes"@),
        ),
        ProposalPhase::Discussion => Some((clamp_u64(t.snapshot.0 - epoch), "until snapshot"@)),
        ProposalPhase::Snapshot => Some((clamp_u64(t.voting.0 - epoch), "until voting opens"@)),
        ProposalPhase::Voting => Some((clamp_u64(p.end_epoch - epoch), "until voting ends"@)),
        _ => None,
    }
}

/// How many epochs until the current phase gives way to the next.
pub fn epochs_remaining(p: &PhaseInputs, current_epoch: u64) -> (r: Option<(u64, &'static str)>)
    ensures
        r is None <==> spec_epochs_remaining(*p, current_epoch as int) is None,
        r matches Some((n, s)) ==> spec_epochs_remaining(*p, current_epoch as int) == Some(
            (n, s@),
        ),
        p.finalized ==> r is None,
        !p.finalized && p.voting && current_epoch >= p.end_epoch ==> r is None,
        !p.finalized && !p.voting && current_epoch > p.creation_epoch + p.max_support_epochs
            ==> r is None,
        !p.finalized && p.voting && p.start_epoch <= current_epoch < p.end_epoch ==> (r matches Some(
            (n, s),
        ) && n == p.end_epoch - current_epoch && s@ == "until voting ends"@),
        !p.finalized && p.voting && current_epoch < p.end_epoch && current_epoch + 1
            == p.start_epoch ==> (r matches Some((n, s)) && n == 1 && s@ == "until voting opens"@),
        !p.finalized && p.voting && current_epoch < p.end_epoch && current_epoch + 1 < p.start_epoch
            && p.start_epoch >= p.discussion_epochs + p.snapshot_epoch_extension + 1 ==> (r matches Some(
            (n, s),
        ) && n == p.start_epoch - 1 - current_epoch && s@ == "until snapshot"@),
        !p.finalized && p.voting && current_epoch < p.end_epoch && current_epoch + 1 < p.start_epoch
            ==> (r matches Some((_, s)) && s@ == "until snapshot"@),
        !p.finalized && p.voting && current_epoch < p.end_epoch && current_epoch + 1 < p.start_epoch
            && p.start_epoch < p.discussion_epochs + p.snapshot_epoch_extension + 1 ==> (r matches Some(
            (n, _),
        ) && n == (if p.discussion_epochs + p.snapshot_epoch_extension <= u64::MAX {
            p.discussion_epochs + p.snapshot_epoch_extension - current_epoch
        } else {
            u64::MAX - current_epoch
        })),
        !p.finalized && !p.voting && current_epoch <= p.creation_epoch + p.max_support_epochs
            ==> (r matches Some((n, s)) && n == (if p.creation_epoch + p.max_support_epochs
            <= u64::MAX {
            p.creation_epoch + p.max_support_epochs - current_epoch
        } else {
            u64::MAX - current_epoch
        }) && s@ == "until the support window closes"@),
{
    let timeline = phase_timeline(p);
    match proposal_phase(p, current_epoch) {
        ProposalPhase::Support => Some(
            (timeline.support.1.saturating_sub(current_epoch), "until the support window closes"),
        ),
        ProposalPhase::Discussion => Some(
            (timeline.snapshot.0.saturating_sub(current_epoch), "until snapshot"),
        ),
        ProposalPhase::Snapshot => Some(
            (timeline.voting.0.saturating_sub(current_epoch), "until voting opens"),
        ),
        ProposalPhase::Voting => Some(
            (p.end_epoch.saturating_sub(current_epoch), "until voting ends"),
        ),
        ProposalPhase::Ended | ProposalPhase::Finalized | ProposalPhase::Failed => None,
    }
}

} // verus!
