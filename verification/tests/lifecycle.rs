use lib::constants::{BASIS_POINTS_TOTAL, SUPPORT_COMPUTE_UNIT_LIMIT, SVMGOV_KEY_ENV};
use lib::phase::{epochs_remaining, phase_timeline, proposal_phase, PhaseInputs, ProposalPhase};

fn pinned(start_epoch: u64, end_epoch: u64) -> PhaseInputs {
    PhaseInputs {
        creation_epoch: 100,
        start_epoch,
        end_epoch,
        voting: true,
        finalized: false,
        max_support_epochs: 5,
        discussion_epochs: 4,
        snapshot_epoch_extension: 2,
        voting_epochs: 3,
    }
}

fn unactivated() -> PhaseInputs {
    PhaseInputs { voting: false, start_epoch: 0, end_epoch: 0, ..pinned(0, 0) }
}

const ALL: [ProposalPhase; 7] = [
    ProposalPhase::Support,
    ProposalPhase::Discussion,
    ProposalPhase::Snapshot,
    ProposalPhase::Voting,
    ProposalPhase::Ended,
    ProposalPhase::Finalized,
    ProposalPhase::Failed,
];

fn rank(p: ProposalPhase) -> u32 {
    match p {
        ProposalPhase::Support => 0,
        ProposalPhase::Discussion => 1,
        ProposalPhase::Snapshot => 2,
        ProposalPhase::Voting => 3,
        ProposalPhase::Ended => 4,
        ProposalPhase::Finalized | ProposalPhase::Failed => 5,
    }
}

#[test]
fn labels_and_ids() {
    assert_eq!(ProposalPhase::Support.label(), "Support");
    assert_eq!(ProposalPhase::Ended.label(), "Ended (awaiting finalization)");
    assert_eq!(ProposalPhase::Failed.label(), "Failed (support threshold not reached)");
    assert_eq!(ProposalPhase::Snapshot.id(), "snapshot");
    assert_eq!(ProposalPhase::Finalized.id(), "finalized");
}

#[test]
fn ids_are_distinct() {
    for a in ALL {
        for b in ALL {
            assert_eq!(a == b, a.id() == b.id());
        }
    }
}

#[test]
fn remaining_counts_and_texts_for_each_phase() {
    // Crossed in 110: start = 110 + 4 + 2 + 1 = 117, voting until 120.
    let p = pinned(117, 120);
    assert_eq!(epochs_remaining(&p, 110), Some((6, "until snapshot")));
    assert_eq!(epochs_remaining(&p, 116), Some((1, "until voting opens")));
    assert_eq!(epochs_remaining(&p, 118), Some((2, "until voting ends")));
    assert_eq!(epochs_remaining(&p, 120), None);
    let u = unactivated();
    assert_eq!(epochs_remaining(&u, 102), Some((3, "until the support window closes")));
    assert_eq!(epochs_remaining(&u, 106), None);
}

#[test]
fn remaining_counts_reach_the_next_phase() {
    let p = pinned(117, 120);
    for epoch in 100..130u64 {
        let phase = proposal_phase(&p, epoch);
        if let Some((n, _)) = epochs_remaining(&p, epoch) {
            for k in 0..n {
                assert_eq!(proposal_phase(&p, epoch + k), phase);
            }
            assert_ne!(proposal_phase(&p, epoch + n), phase);
        }
    }
    let u = unactivated();
    let (n, _) = epochs_remaining(&u, 101).unwrap();
    assert_eq!(proposal_phase(&u, 101 + n), ProposalPhase::Support);
    assert_eq!(proposal_phase(&u, 101 + n + 1), ProposalPhase::Failed);
}

#[test]
fn a_pinned_phase_ignores_the_configured_durations() {
    let p = pinned(117, 120);
    let q = PhaseInputs {
        creation_epoch: 0,
        max_support_epochs: 0,
        discussion_epochs: 40,
        snapshot_epoch_extension: 9,
        voting_epochs: 1,
        ..p
    };
    for epoch in 90..130u64 {
        assert_eq!(proposal_phase(&p, epoch), proposal_phase(&q, epoch));
    }
}

#[test]
fn the_phase_never_moves_back() {
    for p in [pinned(117, 120), unactivated()] {
        let mut last = 0;
        for epoch in 90..130u64 {
            let r = rank(proposal_phase(&p, epoch));
            assert!(r >= last);
            last = r;
        }
    }
}

#[test]
fn saturating_edges() {
    let top = PhaseInputs { creation_epoch: u64::MAX - 1, ..unactivated() };
    assert_eq!(proposal_phase(&top, u64::MAX), ProposalPhase::Support);
    let t = phase_timeline(&top);
    assert_eq!(t.support, (u64::MAX - 1, u64::MAX));
    assert_eq!(t.snapshot, (u64::MAX, u64::MAX));
    assert_eq!(t.voting, (u64::MAX, u64::MAX));
    let late = pinned(3, u64::MAX);
    assert_eq!(proposal_phase(&late, u64::MAX), ProposalPhase::Ended);
    let t = phase_timeline(&late);
    assert_eq!(t.support, (100, 0));
    assert_eq!(t.snapshot, (6, 6));
    assert_eq!(t.discussion, (0, 5));
    assert_eq!(proposal_phase(&late, 1), ProposalPhase::Discussion);
    assert_eq!(proposal_phase(&late, 2), ProposalPhase::Snapshot);
}

#[test]
fn the_crossing_epoch_is_recovered_for_any_crossing() {
    for crossing in [0u64, 1, 55, 1000] {
        let p = pinned(crossing + 4 + 2 + 1, crossing + 10);
        let t = phase_timeline(&p);
        assert_eq!(t.support.1, crossing);
        assert_eq!(t.discussion.0, crossing);
        assert_eq!(t.snapshot, (crossing + 6, crossing + 6));
        assert_eq!(proposal_phase(&p, crossing), ProposalPhase::Discussion);
        assert_eq!(proposal_phase(&p, crossing + 6), ProposalPhase::Snapshot);
    }
}

#[test]
fn constants_hold_their_values() {
    assert_eq!(BASIS_POINTS_TOTAL, 10_000);
    assert_eq!(SUPPORT_COMPUTE_UNIT_LIMIT, 600_000);
    assert_eq!(SVMGOV_KEY_ENV, "SVMGOV_KEY");
}
