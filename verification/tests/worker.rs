use wusheng_pool_client::mining::prover::{Prover, ProverError, ProverPlan};
use wusheng_pool_client::mining::stats::StatsEvent;
use wusheng_pool_client::mining::worker::{is_stale, judge_solution, share_message, ProveStep, WorkerEvent};
use wusheng_pool_client::mining::ProverEvent;
use wusheng_pool_client::stratum::message::StratumMessage;
use wusheng_pool_client::stratum::protocol::RpcId;

#[test]
fn solutions_are_judged() {
    assert!(is_stale(3, 4));
    assert!(!is_stale(4, 4));
    assert_eq!(judge_solution(3, 4, 100, 10), ProveStep::Stale);
    assert_eq!(judge_solution(4, 4, 9, 10), ProveStep::BelowTarget);
    assert_eq!(judge_solution(4, 4, 10, 10), ProveStep::Share);
    assert!(ProveStep::BelowTarget.counts_proof());
    assert!(ProveStep::Share.counts_proof());
    assert!(!ProveStep::Stale.counts_proof());
    assert!(!ProveStep::ProveFailed.counts_proof());
    assert!(!ProveStep::BelowTarget.ends_work());
    assert!(ProveStep::Share.ends_work());
    assert!(ProveStep::Stale.ends_work());
}

#[test]
fn share_message_fields() {
    let message = share_message("aleo1miner".to_string(), 2, 0x0102, &[0xab, 0x01], "solution".to_string());
    match message {
        StratumMessage::Submit(RpcId::Num(0), worker, job_id, nonce, commitment, proof) => {
            assert_eq!(worker, "aleo1miner");
            assert_eq!(job_id, "0200000000000000");
            assert_eq!(nonce, "0201000000000000");
            assert_eq!(commitment, "ab01");
            assert_eq!(proof, "solution");
        }
        other => panic!("unexpected {:?}", other),
    }
}

#[test]
fn new_work_goes_to_every_worker() {
    let plan = Prover::process_msg(ProverEvent::NewWork(9, "challenge".into(), "aleo1x".into()), 3);
    match plan {
        ProverPlan::Dispatch(events) => {
            assert_eq!(events.len(), 3);
            for event in events {
                assert!(matches!(event, WorkerEvent::NewWork(9, c, a) if c == "challenge" && a == "aleo1x"));
            }
        }
        other => panic!("unexpected {:?}", other),
    }
    assert!(matches!(
        Prover::process_msg(ProverEvent::NewWork(9, "c".into(), "a".into()), 0),
        ProverPlan::Dispatch(events) if events.is_empty()
    ));
}

#[test]
fn verdicts_go_to_stats() {
    let plan = Prover::process_msg(ProverEvent::SubmitResult(false, Some("late".into())), 2);
    assert!(matches!(plan, ProverPlan::Stats(StatsEvent::SubmitResult(false, Some(m))) if m == "late"));
    assert!(matches!(Prover::process_msg(ProverEvent::NewTarget(5), 2), ProverPlan::Unexpected));
}

#[test]
fn addresses_are_checked() {
    assert_eq!(Prover::check_address("aleo1notanaddress"), Err(ProverError::InvalidAddress));
    assert_eq!(Prover::check_address(""), Err(ProverError::InvalidAddress));
    assert_eq!(
        Prover::check_address("aleo1x3dm5pzdfs8hxg6xckx5lnndmarhnpe03h7lcg32c63dhc5pdcfqht927g"),
        Ok(())
    );
}
