use soroban_guard::vulnerable::abstain_counts_as_yes::AbstainCountsAsYes;

#[test]
fn test_vulnerable_abstain_flips_result() {
    assert!(AbstainCountsAsYes::vulnerable_passes(40, 60, 30));
}

#[test]
fn test_boundary_abstain_exactly_bridges_gap() {
    assert!(AbstainCountsAsYes::vulnerable_passes(50, 51, 1));
}

#[test]
fn test_secure_rejects_when_yes_less_than_no() {
    assert!(!AbstainCountsAsYes::secure_passes(40, 60, 30, 100));
}

#[test]
fn test_secure_passes_when_yes_exceeds_no_and_quorum_met() {
    assert!(AbstainCountsAsYes::secure_passes(70, 20, 10, 90));
}

#[test]
fn vulnerable_fails_when_abstain_does_not_bridge_gap() {
    assert!(!AbstainCountsAsYes::vulnerable_passes(50, 52, 1));
}

#[test]
fn secure_rejects_when_quorum_missed() {
    assert!(!AbstainCountsAsYes::secure_passes(70, 20, 9, 100));
}
