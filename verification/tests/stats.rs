use wusheng_pool_client::mining::stats::{calculate_proof_rate, ProofRate, ShareTally};

#[test]
fn shares_are_counted() {
    let mut tally = ShareTally::new();
    let report = tally.print_shares(true, None);
    assert!(report.accepted);
    assert_eq!((report.valid, report.total), (1, 1));
    let report = tally.print_shares(false, Some("stale".to_string()));
    assert!(!report.accepted);
    assert_eq!(report.message.as_deref(), Some("stale"));
    assert_eq!((report.valid, report.total), (1, 2));
    let report = tally.print_shares(true, Some("ok".to_string()));
    assert_eq!((report.valid, report.total), (2, 3));
    assert_eq!(tally, ShareTally { valid: 2, invalid: 1 });
}

#[test]
fn proof_rates() {
    assert_eq!(calculate_proof_rate(100, 40, 1), ProofRate::Over { proofs: 60, seconds: 60 });
    assert_eq!(calculate_proof_rate(100, 40, 5), ProofRate::Over { proofs: 60, seconds: 300 });
    assert_eq!(calculate_proof_rate(100, 40, 0), ProofRate::Unknown);
    assert_eq!(calculate_proof_rate(40, 40, 1), ProofRate::Unknown);
    assert_eq!(calculate_proof_rate(30, 40, 1), ProofRate::Unknown);
    assert_eq!(calculate_proof_rate(100, 0, 1), ProofRate::Unknown);
}
