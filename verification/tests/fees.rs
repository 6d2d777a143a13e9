use proxy_client::fee::{
    develop_job_process, draw_secret_number, fee_job_process, is_fee_draw, FeeJob, FeeLane,
};
use proxy_client::protocol::{Server, ServerJobsWithHeight, ServerSideJob};

fn texts(list: &[&str]) -> Vec<String> {
    list.iter().map(|s| s.to_string()).collect()
}

fn fee_job(thread_id: u64, result: &[&str]) -> FeeJob {
    FeeJob {
        thread_id,
        job_id: result[0].to_string(),
        rpc: Server { id: 0, result: texts(result) },
    }
}

#[test]
fn draws_stay_within_their_bounds() {
    for _ in 0..2000 {
        let draw = draw_secret_number();
        assert!(1 <= draw && draw < 1000);
    }
}

#[test]
fn draws_differ() {
    let first = draw_secret_number();
    assert!((0..200).any(|_| draw_secret_number() != first));
}

#[test]
fn a_rate_hits_the_highest_draws() {
    assert!(!is_fee_draw(994, 5));
    assert!(is_fee_draw(995, 5));
    assert!(is_fee_draw(999, 5));
}

#[test]
fn a_rate_hits_as_many_draws_as_it_says() {
    for permille in [0u32, 1, 5, 100, 999] {
        let hits = (1u32..1000).filter(|draw| is_fee_draw(*draw, permille)).count();
        assert_eq!(hits, permille as usize);
    }
    assert_eq!((1u32..1000).filter(|draw| is_fee_draw(*draw, 1000)).count(), 999);
}

#[test]
fn a_higher_rate_hits_what_a_lower_one_hits() {
    for draw in 1u32..1000 {
        if is_fee_draw(draw, 10) {
            assert!(is_fee_draw(draw, 20));
        }
    }
}

#[test]
fn no_fee_leaves_job_and_lane_alone() {
    let mut lane = FeeLane::new();
    lane.push(fee_job(7, &["0xa", "0xb"]));
    let mut job = Server { id: 3, result: texts(&["0x1", "0x2"]) };
    assert_eq!(fee_job_process(false, &mut lane, &mut job), None);
    assert_eq!(job, Server { id: 3, result: texts(&["0x1", "0x2"]) });
    assert_eq!(lane.unsent.len(), 1);
    assert!(!lane.sent.contains_key("0xa"));
}

#[test]
fn a_due_fee_gives_out_the_newest_job() {
    let mut lane = FeeLane::new();
    lane.push(fee_job(7, &["0xa", "0xb"]));
    lane.push(fee_job(8, &["0xc", "0xd"]));
    let mut job = ServerSideJob {
        id: 3,
        jsonrpc: "2.0".to_string(),
        result: texts(&["0x1", "0x2"]),
    };
    assert_eq!(fee_job_process(true, &mut lane, &mut job), Some(()));
    assert_eq!(job.id, 3);
    assert_eq!(job.jsonrpc, "2.0");
    assert_eq!(job.result, texts(&["0xc", "0xd"]));
    assert_eq!(lane.unsent.len(), 1);
    assert_eq!(lane.sent.get("0xc"), Some(&8));
}

#[test]
fn a_due_fee_without_jobs_changes_nothing() {
    let mut lane = FeeLane::new();
    let mut job = ServerJobsWithHeight {
        id: 3,
        jsonrpc: "2.0".to_string(),
        result: texts(&["0x1"]),
        height: 12,
    };
    assert_eq!(develop_job_process(true, &mut lane, &mut job), None);
    assert_eq!(job.result, texts(&["0x1"]));
    assert_eq!(job.height, 12);
}

#[test]
fn a_job_given_out_twice_is_noted_anew() {
    let mut lane = FeeLane::new();
    lane.push(fee_job(7, &["0xa"]));
    lane.push(fee_job(8, &["0xa"]));
    let mut job = Server { id: 0, result: texts(&["0x1"]) };
    assert_eq!(develop_job_process(true, &mut lane, &mut job), Some(()));
    assert_eq!(develop_job_process(true, &mut lane, &mut job), None);
    assert_eq!(job.result, texts(&["0xa"]));
    assert_eq!(lane.claim("0xa"), Some(7));
    assert_eq!(lane.claim("0xa"), None);
}

#[test]
fn stale_jobs_are_dropped_on_demand() {
    let mut lane = FeeLane::new();
    lane.push(fee_job(7, &["0xa"]));
    lane.drop_stale(false);
    assert_eq!(lane.unsent.len(), 1);
    lane.drop_stale(true);
    assert_eq!(lane.unsent.len(), 0);
}
