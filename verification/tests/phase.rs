use lib::phase::{epochs_remaining, phase_timeline, proposal_phase, PhaseInputs, ProposalPhase};

/// "Double Disinflation" as it stood on-chain in epoch 1012: created in
/// 1011, crossed the threshold in 1012 — early in a seven-epoch support
/// window — so the program scheduled voting for 1021-1024.
fn double_disinflation() -> PhaseInputs {
    PhaseInputs {
        creation_epoch: 1011,
        start_epoch: 1021,
        end_epoch: 1024,
        voting: true,
        finalized: false,
        max_support_epochs: 7,
        discussion_epochs: 7,
        snapshot_epoch_extension: 1,
        voting_epochs: 3,
    }
}

#[test]
fn an_early_crossing_is_not_reported_as_still_gathering_support() {
    let p = double_disinflation();
    assert_eq!(proposal_phase(&p, 1012), ProposalPhase::Discussion);
    assert_eq!(
        epochs_remaining(&p, 1012).map(|(n, _)| n),
        Some(8) // 1020 - 1012
    );
}

#[test]
fn recovers_the_crossing_epoch_from_on_chain_state() {
    let t = phase_timeline(&double_disinflation());
    assert!(!t.projected);
    assert_eq!(t.support, (1011, 1012));
    // 1012 is shared: support closed partway through it and discussion began.
    assert_eq!(t.discussion, (1012, 1019));
    assert_eq!(t.snapshot, (1020, 1020));
    assert_eq!(t.voting, (1021, 1024));
}

#[test]
fn the_timeline_agrees_with_the_phase_at_every_epoch() {
    let p = double_disinflation();
    let t = phase_timeline(&p);
    for epoch in t.discussion.0..=t.discussion.1 {
        assert_eq!(
            proposal_phase(&p, epoch),
            ProposalPhase::Discussion,
            "epoch {epoch} is inside the discussion window"
        );
    }
    for epoch in t.snapshot.0..=t.snapshot.1 {
        assert_eq!(proposal_phase(&p, epoch), ProposalPhase::Snapshot);
    }
    for epoch in t.voting.0..t.voting.1 {
        assert_eq!(proposal_phase(&p, epoch), ProposalPhase::Voting);
    }
}

#[test]
fn the_timeline_is_internally_ordered() {
    let t = phase_timeline(&double_disinflation());
    // Support and discussion share the crossing epoch; everything else is
    // strictly ordered.
    assert!(t.support.1 <= t.discussion.0);
    assert!(t.discussion.0 <= t.discussion.1);
    assert!(t.discussion.1 < t.snapshot.0);
    assert!(t.snapshot.1 < t.voting.0);
    assert!(t.voting.0 < t.voting.1);
}

#[test]
fn walks_the_whole_lifecycle() {
    let p = double_disinflation();
    assert_eq!(proposal_phase(&p, 1011), ProposalPhase::Discussion);
    assert_eq!(proposal_phase(&p, 1019), ProposalPhase::Discussion);
    assert_eq!(proposal_phase(&p, 1020), ProposalPhase::Snapshot);
    assert_eq!(proposal_phase(&p, 1021), ProposalPhase::Voting);
    assert_eq!(proposal_phase(&p, 1023), ProposalPhase::Voting);
    assert_eq!(proposal_phase(&p, 1024), ProposalPhase::Ended);
}

#[test]
fn an_unactivated_proposal_stays_in_support_until_its_window_closes() {
    let p = PhaseInputs {
        voting: false,
        start_epoch: 0,
        end_epoch: 0,
        ..double_disinflation()
    };
    assert_eq!(proposal_phase(&p, 1011), ProposalPhase::Support);
    assert_eq!(proposal_phase(&p, 1018), ProposalPhase::Support);
}

#[test]
fn an_unactivated_proposal_past_its_window_has_failed() {
    let p = PhaseInputs {
        voting: false,
        start_epoch: 0,
        end_epoch: 0,
        ..double_disinflation()
    };
    assert_eq!(proposal_phase(&p, 1019), ProposalPhase::Failed);
    assert_eq!(epochs_remaining(&p, 1019), None);
}

#[test]
fn an_unactivated_timeline_is_marked_projected() {
    let p = PhaseInputs {
        voting: false,
        start_epoch: 0,
        end_epoch: 0,
        ..double_disinflation()
    };
    let t = phase_timeline(&p);
    assert!(t.projected);
    // Latest possible crossing is the last epoch of the support window.
    assert_eq!(t.support, (1011, 1018));
    assert_eq!(t.discussion, (1018, 1025));
    assert_eq!(t.snapshot, (1026, 1026));
    assert_eq!(t.voting, (1027, 1030));
}

#[test]
fn finalized_wins_over_everything() {
    let p = PhaseInputs {
        finalized: true,
        ..double_disinflation()
    };
    assert_eq!(proposal_phase(&p, 1012), ProposalPhase::Finalized);
    assert_eq!(epochs_remaining(&p, 1012), None);
}

#[test]
fn a_zero_start_epoch_does_not_underflow() {
    let p = PhaseInputs {
        voting: true,
        start_epoch: 0,
        end_epoch: 0,
        creation_epoch: 0,
        ..double_disinflation()
    };
    // end_epoch 0 means current >= end, so this is Ended rather than a panic.
    assert_eq!(proposal_phase(&p, 0), ProposalPhase::Ended);
    let _ = phase_timeline(&p);
}
