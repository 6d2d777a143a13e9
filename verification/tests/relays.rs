use proxy_client::client_to_server::{
    calls_for_draw, client_to_server, client_to_server_drawn, draw_for, DrawnFees, Draws, Stage, State, Upward,
    UpwardAction, UpwardEvent,
};
use proxy_client::pool::{handle_tcp_pool, handle_tls_pool, PoolSearch};
use proxy_client::protocol::{Client, ServerId1};
use proxy_client::server_to_client::{
    server_to_client, Downward, DownwardAction, DownwardEvent, DownwardStage, Notice,
};

const NO_FEES: DrawnFees =
    DrawnFees { develop: false, develop_permille: 0, share: 0, share_permille: 0 };
const BOTH: DrawnFees =
    DrawnFees { develop: true, develop_permille: 10, share: 1, share_permille: 5 };
const LOW: Draws = Draws { develop: 1, share: 1 };
const HIGH: Draws = Draws { develop: 999, share: 999 };

fn client(id: u64, method: &str, params: &[&str]) -> Client {
    Client {
        id,
        method: method.to_string(),
        params: params.iter().map(|s| s.to_string()).collect(),
        worker: "rig".to_string(),
    }
}

fn read(data: &[u8], rpc: Option<Client>) -> UpwardEvent {
    UpwardEvent::Received { data: data.to_vec(), client: rpc, get_work: false }
}

fn yes(id: u64) -> UpwardAction {
    UpwardAction::Accept {
        reply: ServerId1 { id, jsonrpc: Some("2.0".to_string()), result: true },
    }
}

#[test]
fn an_empty_read_closes_the_upward_relay() {
    let (mut relay, mut state) = (Upward::new(), State::new());
    let step = client_to_server_drawn(&mut relay, &mut state, &BOTH, LOW, read(b"", None));
    assert_eq!(step.action, UpwardAction::Shutdown);
    assert_eq!(relay.stage, Stage::Closed);
}

#[test]
fn a_short_read_is_ignored() {
    let (mut relay, mut state) = (Upward::new(), State::new());
    let rpc = client(1, "eth_submitWork", &[]);
    let step = client_to_server_drawn(&mut relay, &mut state, &BOTH, HIGH, read(b"12345", Some(rpc)));
    assert_eq!(step.action, UpwardAction::Read);
    assert_eq!(state.proxy_share, 0);
    let rpc = client(1, "eth_submitHashrate", &[]);
    let step = client_to_server_drawn(&mut relay, &mut state, &BOTH, HIGH, read(b"123456", Some(rpc)));
    assert_eq!(step.action, UpwardAction::Forward { data: b"123456".to_vec() });
}

#[test]
fn what_is_no_request_is_dropped() {
    let (mut relay, mut state) = (Upward::new(), State::new());
    let step = client_to_server_drawn(&mut relay, &mut state, &BOTH, HIGH, read(b"garbage", None));
    assert_eq!(step.action, UpwardAction::Read);
    assert_eq!(relay.stage, Stage::Reading);
}

#[test]
fn a_request_for_work_passes() {
    let (mut relay, mut state) = (Upward::new(), State::new());
    let event = UpwardEvent::Received { data: b"getwork".to_vec(), client: None, get_work: true };
    let step = client_to_server_drawn(&mut relay, &mut state, &BOTH, HIGH, event);
    assert_eq!(step.action, UpwardAction::Forward { data: b"getwork".to_vec() });
    assert_eq!(relay.stage, Stage::Forwarding);
}

#[test]
fn a_login_sets_the_name_and_a_hashrate_is_filed_under_it() {
    let (mut relay, mut state) = (Upward::new(), State::new());
    let login = client(1, "eth_submitLogin", &["0xw"]);
    let step = client_to_server(&mut relay, &mut state, &BOTH, read(b"login..", Some(login)));
    assert_eq!(step.action, UpwardAction::Forward { data: b"login..".to_vec() });
    assert_eq!(relay.worker, "0xw.rig");
    let step = client_to_server(&mut relay, &mut state, &BOTH, UpwardEvent::Forwarded { written: 7 });
    assert_eq!(step.action, UpwardAction::Read);
    for rate in ["0x10", "0x20"] {
        let report = client(2, "eth_submitHashrate", &[rate]);
        client_to_server(&mut relay, &mut state, &BOTH, read(b"report.", Some(report)));
        client_to_server(&mut relay, &mut state, &BOTH, UpwardEvent::Forwarded { written: 7 });
        assert_eq!(state.report_hashrate.get("0xw.rig"), Some(&rate.to_string()));
    }
    let nameless = client(1, "eth_submitLogin", &[]);
    client_to_server(&mut relay, &mut state, &BOTH, read(b"login..", Some(nameless)));
    assert_eq!(relay.worker, "0xw.rig");
}

#[test]
fn a_hashrate_is_filed_under_the_last_login_whatever_came_between() {
    let (mut relay, mut other, mut state) = (Upward::new(), Upward::new(), State::new());
    let requests = [
        client(1, "eth_submitLogin", &["0xold"]),
        client(2, "eth_submitLogin", &["0xw"]),
        client(3, "eth_submitWork", &["0xn", "0xj"]),
        client(4, "eth_submitLogin", &[]),
        client(5, "eth_unknown", &["0xz"]),
        client(6, "eth_submitHashrate", &["0x10"]),
    ];
    for rpc in requests {
        client_to_server(&mut relay, &mut state, &NO_FEES, read(b"request", Some(rpc)));
        client_to_server(&mut relay, &mut state, &NO_FEES, UpwardEvent::Forwarded { written: 7 });
        let foreign = client(9, "eth_submitLogin", &["0xother"]);
        client_to_server(&mut other, &mut state, &NO_FEES, read(b"request", Some(foreign)));
        client_to_server(&mut other, &mut state, &NO_FEES, UpwardEvent::Forwarded { written: 7 });
    }
    let foreign = client(9, "eth_submitHashrate", &["0x99"]);
    client_to_server(&mut other, &mut state, &NO_FEES, read(b"request", Some(foreign)));
    assert_eq!(state.report_hashrate.get("0xw.rig"), Some(&"0x10".to_string()));
    assert_eq!(state.report_hashrate.get("0xother.rig"), Some(&"0x99".to_string()));
    assert_eq!(state.report_hashrate.get("0xold.rig"), None);
    assert_eq!(state.proxy_share, 1);
}

#[test]
fn a_hashrate_before_any_login_is_filed_under_no_name() {
    let (mut relay, mut state) = (Upward::new(), State::new());
    let report = client(6, "eth_submitHashrate", &["0x10"]);
    client_to_server(&mut relay, &mut state, &NO_FEES, read(b"request", Some(report)));
    assert_eq!(state.report_hashrate.get(""), Some(&"0x10".to_string()));
}

#[test]
fn shares_of_all_relays_count_together_and_claim_a_job_once() {
    let (mut first, mut second, mut state) = (Upward::new(), Upward::new(), State::new());
    state.note_mine_job("0xj".to_string());
    let share = client(4, "eth_submitWork", &["0xn", "0xj"]);
    let step = client_to_server(&mut first, &mut state, &NO_FEES, read(b"share..", Some(share)));
    assert_eq!(step.claimed, Some(client(4, "eth_submitWork", &["0xn", "0xj"])));
    let share = client(5, "eth_submitWork", &["0xn", "0xj"]);
    let step = client_to_server(&mut second, &mut state, &NO_FEES, read(b"share..", Some(share)));
    assert_eq!(step.claimed, None);
    assert_eq!(state.proxy_share, 2);
}

#[test]
fn rates_matter_only_where_a_draw_is_called_for() {
    let above = DrawnFees { develop: true, develop_permille: 1001, share: 0, share_permille: 0 };
    let unused = DrawnFees { develop: false, develop_permille: 1001, share: 0, share_permille: 1001 };
    let proxy_above = DrawnFees { develop: false, develop_permille: 0, share: 1, share_permille: 1001 };
    assert!(!above.within_whole());
    assert!(!proxy_above.within_whole());
    assert!(unused.within_whole());
    assert!(BOTH.within_whole());
    let login = read(b"login..", Some(client(1, "eth_submitLogin", &["0xw"])));
    assert!(!calls_for_draw(&login));
    let (mut relay, mut state) = (Upward::new(), State::new());
    let step = client_to_server(&mut relay, &mut state, &above, login);
    assert_eq!(step.action, UpwardAction::Forward { data: b"login..".to_vec() });
    let share = client(4, "eth_submitWork", &["0xn"]);
    assert!(calls_for_draw(&read(b"share..", Some(share.clone()))));
    assert!(!calls_for_draw(&read(b"share", Some(share))));
    assert!(calls_for_draw(&UpwardEvent::Offered { taken: false }));
    assert!(!calls_for_draw(&UpwardEvent::Offered { taken: true }));
    assert!(!calls_for_draw(&UpwardEvent::Forwarded { written: 7 }));
}

#[test]
fn a_share_passes_without_fees() {
    let (mut relay, mut state) = (Upward::new(), State::new());
    let share = client(4, "eth_submitWork", &["0xn", "0xj"]);
    let step = client_to_server(&mut relay, &mut state, &NO_FEES, read(b"share..", Some(share)));
    assert_eq!(step.action, UpwardAction::Forward { data: b"share..".to_vec() });
    assert_eq!(step.claimed, None);
    assert_eq!(state.proxy_share, 1);
}

#[test]
fn a_rate_of_nothing_passes_and_the_whole_keeps() {
    let nothing = DrawnFees { develop: true, develop_permille: 0, share: 1, share_permille: 0 };
    let whole = DrawnFees { develop: true, develop_permille: 1000, share: 0, share_permille: 0 };
    for _ in 0..50 {
        let (mut relay, mut state) = (Upward::new(), State::new());
        let share = client(4, "eth_submitWork", &["0xn", "0xj"]);
        let step = client_to_server(&mut relay, &mut state, &nothing, read(b"share..", Some(share)));
        assert_eq!(step.action, UpwardAction::Forward { data: b"share..".to_vec() });
        let (mut relay, mut state) = (Upward::new(), State::new());
        let share = client(4, "eth_submitWork", &["0xn", "0xj"]);
        let step = client_to_server(&mut relay, &mut state, &whole, read(b"share..", Some(share)));
        assert_eq!(
            step.action,
            UpwardAction::OfferDevelop { rpc: client(4, "eth_submitWork", &["0xn", "0xj"]) }
        );
    }
}

#[test]
fn a_share_that_the_developer_takes_is_answered() {
    let (mut relay, mut state) = (Upward::new(), State::new());
    let share = client(4, "eth_submitWork", &["0xn", "0xj"]);
    let draws = Draws { develop: 990, share: 1 };
    let step = client_to_server_drawn(&mut relay, &mut state, &BOTH, draws, read(b"share..", Some(share)));
    assert_eq!(
        step.action,
        UpwardAction::OfferDevelop { rpc: client(4, "eth_submitWork", &["0xn", "0xj"]) }
    );
    let offered = UpwardEvent::Offered { taken: true };
    let step = client_to_server_drawn(&mut relay, &mut state, &BOTH, LOW, offered);
    assert_eq!(step.action, yes(4));
    assert_eq!(relay.stage, Stage::Reading);
    assert_eq!(state.proxy_share, 1);
}

#[test]
fn a_share_that_nobody_takes_goes_on() {
    let (mut relay, mut state) = (Upward::new(), State::new());
    let share = client(4, "eth_submitWork", &["0xn", "0xj"]);
    client_to_server_drawn(&mut relay, &mut state, &BOTH, HIGH, read(b"share..", Some(share)));
    let refused = UpwardEvent::Offered { taken: false };
    let step = client_to_server_drawn(&mut relay, &mut state, &BOTH, HIGH, refused);
    assert_eq!(
        step.action,
        UpwardAction::OfferProxy { rpc: client(4, "eth_submitWork", &["0xn", "0xj"]) }
    );
    let refused = UpwardEvent::Offered { taken: false };
    let step = client_to_server_drawn(&mut relay, &mut state, &BOTH, HIGH, refused);
    assert_eq!(step.action, UpwardAction::Forward { data: b"share..".to_vec() });
    assert_eq!(relay.stage, Stage::Forwarding);
}

#[test]
fn the_proxys_draw_comes_second() {
    let (mut relay, mut state) = (Upward::new(), State::new());
    let share = client(4, "eth_submitWork", &["0xn", "0xj"]);
    let draws = Draws { develop: 989, share: 995 };
    let step = client_to_server_drawn(&mut relay, &mut state, &BOTH, draws, read(b"share..", Some(share)));
    assert_eq!(
        step.action,
        UpwardAction::OfferProxy { rpc: client(4, "eth_submitWork", &["0xn", "0xj"]) }
    );
    let taken = UpwardEvent::Offered { taken: true };
    assert_eq!(client_to_server_drawn(&mut relay, &mut state, &BOTH, LOW, taken).action, yes(4));
    let share = client(5, "eth_submitWork", &["0xn", "0xj"]);
    let draws = Draws { develop: 989, share: 994 };
    let step = client_to_server_drawn(&mut relay, &mut state, &BOTH, draws, read(b"share..", Some(share)));
    assert_eq!(step.action, UpwardAction::Forward { data: b"share..".to_vec() });
}

#[test]
fn a_share_for_an_own_job_is_claimed_once() {
    let (mut relay, mut state) = (Upward::new(), State::new());
    state.note_mine_job("0xj".to_string());
    let share = client(4, "eth_submitWork", &["0xn", "0xj"]);
    let step = client_to_server(&mut relay, &mut state, &NO_FEES, read(b"share..", Some(share)));
    assert_eq!(step.claimed, Some(client(4, "eth_submitWork", &["0xn", "0xj"])));
    assert!(!state.mine_jobs.contains_key("0xj"));
    client_to_server(&mut relay, &mut state, &NO_FEES, UpwardEvent::Forwarded { written: 7 });
    let share = client(5, "eth_submitWork", &["0xn", "0xj"]);
    let step = client_to_server(&mut relay, &mut state, &NO_FEES, read(b"share..", Some(share)));
    assert_eq!(step.claimed, None);
    assert_eq!(state.proxy_share, 2);
}

#[test]
fn a_write_of_nothing_closes_the_upward_relay() {
    let (mut relay, mut state) = (Upward::new(), State::new());
    let report = client(2, "eth_submitHashrate", &[]);
    client_to_server(&mut relay, &mut state, &BOTH, read(b"report.", Some(report)));
    let step = client_to_server(&mut relay, &mut state, &BOTH, UpwardEvent::Forwarded { written: 0 });
    assert_eq!(step.action, UpwardAction::Shutdown);
    assert_eq!(relay.stage, Stage::Closed);
}

#[test]
fn draws_are_made_for_the_fees_that_are_taken() {
    let draws = draw_for(&BOTH);
    assert!(1 <= draws.develop && draws.develop < 1000);
    assert!(1 <= draws.share && draws.share < 1000);
}

fn received(data: &[u8], id: Option<u64>, is_job: bool) -> DownwardEvent {
    DownwardEvent::Received {
        data: data.to_vec(),
        answer: id.map(|id| ServerId1 { id, jsonrpc: None, result: true }),
        is_job,
    }
}

#[test]
fn only_an_answer_passes_before_the_login() {
    let mut relay = Downward::new();
    let step = server_to_client(&mut relay, received(b"job", None, true));
    assert_eq!(step.notice, Some(Notice::LoginRefused));
    assert_eq!(step.action, DownwardAction::Shutdown);
    assert_eq!(relay, Downward { is_login: false, stage: DownwardStage::Closed });
    let mut relay = Downward::new();
    let step = server_to_client(&mut relay, received(b"yes", Some(1), false));
    assert_eq!(step.notice, Some(Notice::LoginAccepted));
    assert_eq!(step.action, DownwardAction::Forward { data: b"yes".to_vec() });
    assert_eq!(relay, Downward { is_login: true, stage: DownwardStage::Writing });
}

#[test]
fn everything_passes_after_the_login() {
    let cases: [(Option<u64>, bool, Notice); 4] = [
        (Some(6), false, Notice::HashrateAccepted),
        (Some(7), true, Notice::ShareAccepted),
        (None, true, Notice::Job),
        (None, false, Notice::Unknown),
    ];
    for (id, is_job, notice) in cases {
        let mut relay = Downward { is_login: true, stage: DownwardStage::Waiting };
        let step = server_to_client(&mut relay, received(b"line", id, is_job));
        assert_eq!(step.notice, Some(notice));
        assert_eq!(step.action, DownwardAction::Forward { data: b"line".to_vec() });
        assert!(relay.is_login);
    }
}

#[test]
fn an_empty_read_closes_the_downward_relay() {
    let mut relay = Downward::new();
    let step = server_to_client(&mut relay, received(b"", Some(1), false));
    assert_eq!(step.notice, None);
    assert_eq!(step.action, DownwardAction::Shutdown);
}

#[test]
fn replies_and_jobs_go_out_as_lines() {
    let mut relay = Downward::new();
    let message = b"{\"id\":1}".to_vec();
    match server_to_client(&mut relay, DownwardEvent::Reply { message }).action {
        DownwardAction::Send { line } => assert_eq!(&line[..], b"{\"id\":1}\n"),
        other => panic!("{:?}", other),
    }
    assert_eq!(relay.stage, DownwardStage::Writing);
    let step = server_to_client(&mut relay, DownwardEvent::Written { written: 9 });
    assert_eq!(step.action, DownwardAction::Wait);
    let job = "{\"id\":0}".to_string();
    match server_to_client(&mut relay, DownwardEvent::Job { job }).action {
        DownwardAction::Send { line } => assert_eq!(&line[..], b"\"{\\\"id\\\":0}\"\n"),
        other => panic!("{:?}", other),
    }
    let step = server_to_client(&mut relay, DownwardEvent::Written { written: 0 });
    assert_eq!(step.action, DownwardAction::Shutdown);
    assert_eq!(relay.stage, DownwardStage::Closed);
}

#[test]
fn without_a_pool_there_is_only_a_notice() {
    assert_eq!(handle_tcp_pool(true), PoolSearch::Reached);
    assert_eq!(handle_tls_pool(true), PoolSearch::Reached);
    assert_eq!(
        handle_tcp_pool(false),
        PoolSearch::NoneReached { notice: "所有TCP矿池均不可链接。请修改后重试".to_string() }
    );
    assert_eq!(
        handle_tls_pool(false),
        PoolSearch::NoneReached { notice: "所有SSL矿池均不可链接。请修改后重试".to_string() }
    );
}
