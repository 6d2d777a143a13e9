use proxy_client::error::StreamError;
use proxy_client::framing::WriteOutcome;
use proxy_client::handle_stream::{after_write, handle_stream, has_room, tolerates};
use proxy_client::protocol::{
    Client, ClientWithWorkerName, RequestIds, Server, ServerId1, ServerJobsWithHeight,
    ServerSideJob,
};
use proxy_client::session::{Action, Event, FeeDue, Session, Settings, Taker};

const IDS: RequestIds = RequestIds { login: 1001, get_work: 1005, submit_hashrate: 1006 };
const WITH_FEES: Settings = Settings { ids: IDS, share: 1 };
const WITHOUT_FEES: Settings = Settings { ids: IDS, share: 0 };
const NONE_DUE: FeeDue = FeeDue { proxy: false, developer: false };

fn texts(list: &[&str]) -> Vec<String> {
    list.iter().map(|s| s.to_string()).collect()
}

fn named(id: u64, method: &str, params: &[&str]) -> ClientWithWorkerName {
    ClientWithWorkerName {
        id,
        method: method.to_string(),
        params: texts(params),
        worker: "rig".to_string(),
    }
}

fn plain(id: u64, method: &str) -> Client {
    Client { id, method: method.to_string(), params: Vec::new(), worker: String::new() }
}

fn request(rpc: ClientWithWorkerName) -> Event {
    Event::WorkerLine { named: Some(rpc), plain: None }
}

fn answer(id: u64, result: bool) -> Event {
    Event::PoolLine {
        line: format!("answer {}", id),
        answer: Some(ServerId1 { id, jsonrpc: None, result }),
        with_height: None,
        side: None,
        plain: None,
        due: NONE_DUE,
    }
}

fn job(id: u64, result: &[&str], due: FeeDue) -> Event {
    Event::PoolLine {
        line: "job".to_string(),
        answer: None,
        with_height: None,
        side: None,
        plain: Some(Server { id, result: texts(result) }),
        due,
    }
}

fn own_job(taker: Taker, thread_id: u64, diff: &str, result: &[&str]) -> Event {
    Event::OwnJob {
        taker,
        thread_id,
        diff: diff.to_string(),
        rpc: Ok(Server { id: 0, result: texts(result) }),
    }
}

#[test]
fn a_new_session_is_empty() {
    let session = Session::new();
    assert_eq!(session.worker_name, "");
    assert_eq!(session.pool_job_idx, 0);
    assert_eq!(session.rpc_id, 0);
    assert_eq!(session.client_timeout_sec, 1);
    assert!(!session.worker.online);
    assert_eq!(session.next_job_idx(), 1);
}

#[test]
fn login_names_the_worker_and_goes_to_the_pool() {
    let mut session = Session::new();
    let actions =
        handle_stream(&mut session, &WITH_FEES, request(named(9, "eth_submitLogin", &["0xw", "x"])));
    let mut sent = named(9, "eth_submitLogin", &["0xw", "x"]);
    sent.id = 1001;
    assert_eq!(actions, vec![Action::NamedToPool { rpc: sent, tolerant: false }]);
    assert_eq!(session.worker_name, "0xw.rig");
    assert_eq!(session.worker.worker, "0xw.rig");
    assert_eq!(session.worker.worker_name, "rig");
    assert_eq!(session.worker.worker_wallet, "0xw");
    assert_eq!(session.rpc_id, 9);
}

#[test]
fn login_without_wallet_ends_the_session() {
    let mut session = Session::new();
    let actions =
        handle_stream(&mut session, &WITH_FEES, request(named(9, "eth_submitLogin", &[])));
    assert_eq!(actions, vec![Action::Close { error: StreamError::LoginWithoutWallet }]);
    assert_eq!(session.worker_name, "");
}

#[test]
fn a_share_goes_to_the_pool_under_its_number() {
    let mut session = Session::new();
    for number in 1..4u64 {
        let share = named(50, "eth_submitWork", &["0xn", "0xjob", "0xm"]);
        let actions = handle_stream(&mut session, &WITH_FEES, request(share));
        let mut sent = named(50, "eth_submitWork", &["0xn", "0xjob", "0xm"]);
        sent.id = number;
        assert_eq!(actions, vec![Action::NamedToPool { rpc: sent, tolerant: true }]);
        assert_eq!(session.worker.share_index, number);
    }
}

#[test]
fn a_share_without_job_goes_to_the_pool() {
    let mut session = Session::new();
    let actions = handle_stream(&mut session, &WITH_FEES, request(named(5, "eth_submitWork", &["0xn"])));
    let mut sent = named(5, "eth_submitWork", &["0xn"]);
    sent.id = 1;
    assert_eq!(actions, vec![Action::NamedToPool { rpc: sent, tolerant: true }]);
}

#[test]
fn hashrate_and_get_work_go_under_their_ids() {
    let mut session = Session::new();
    let actions =
        handle_stream(&mut session, &WITH_FEES, request(named(7, "eth_submitHashrate", &["0x1"])));
    let mut sent = named(7, "eth_submitHashrate", &["0x1"]);
    sent.id = 1006;
    assert_eq!(actions, vec![Action::NamedToPool { rpc: sent, tolerant: false }]);
    assert_eq!(session.rpc_id, 7);
    let event = Event::WorkerLine { named: None, plain: Some(plain(8, "eth_getWork")) };
    let actions = handle_stream(&mut session, &WITH_FEES, event);
    let mut sent = plain(8, "eth_getWork");
    sent.id = 1005;
    assert_eq!(actions, vec![Action::PlainToPool { rpc: sent }]);
    assert_eq!(session.rpc_id, 8);
}

#[test]
fn unknown_methods_only_leave_their_id() {
    let mut session = Session::new();
    let actions = handle_stream(&mut session, &WITH_FEES, request(named(7, "eth_getWork", &[])));
    assert_eq!(actions, Vec::<Action>::new());
    assert_eq!(session.rpc_id, 7);
    let event = Event::WorkerLine { named: None, plain: Some(plain(8, "eth_submitLogin")) };
    assert_eq!(handle_stream(&mut session, &WITH_FEES, event), Vec::<Action>::new());
    assert_eq!(session.rpc_id, 8);
}

#[test]
fn an_unread_line_does_nothing() {
    let mut session = Session::new();
    let event = Event::WorkerLine { named: None, plain: None };
    assert_eq!(handle_stream(&mut session, &WITH_FEES, event), Vec::<Action>::new());
    assert_eq!(session.rpc_id, 0);
}

#[test]
fn the_named_form_comes_first() {
    let mut session = Session::new();
    let event = Event::WorkerLine {
        named: Some(named(1, "eth_submitHashrate", &["0x1"])),
        plain: Some(plain(2, "eth_getWork")),
    };
    let actions = handle_stream(&mut session, &WITH_FEES, event);
    let mut sent = named(1, "eth_submitHashrate", &["0x1"]);
    sent.id = 1006;
    assert_eq!(actions, vec![Action::NamedToPool { rpc: sent, tolerant: false }]);
}

#[test]
fn the_first_login_answer_lengthens_the_timeout() {
    let mut session = Session::new();
    handle_stream(&mut session, &WITH_FEES, request(named(9, "eth_submitLogin", &["0xw"])));
    let actions = handle_stream(&mut session, &WITH_FEES, answer(1001, true));
    assert_eq!(
        actions,
        vec![Action::AnswerToWorker { rpc: ServerId1 { id: 9, jsonrpc: None, result: true } }]
    );
    assert_eq!(session.client_timeout_sec, 60);
    assert!(session.worker.online);
    handle_stream(&mut session, &WITH_FEES, answer(1001, true));
    assert_eq!(session.client_timeout_sec, 60);
}

#[test]
fn answers_to_housekeeping_change_no_count() {
    let mut session = Session::new();
    for id in [1005, 1006] {
        let actions = handle_stream(&mut session, &WITH_FEES, answer(id, true));
        assert_eq!(actions.len(), 1);
    }
    assert_eq!(session.worker.accept_index, 0);
    assert_eq!(session.worker.invalid_index, 0);
}

#[test]
fn an_answer_to_the_last_share_is_an_acceptance() {
    let mut session = Session::new();
    handle_stream(&mut session, &WITH_FEES, request(named(44, "eth_submitWork", &["0xn", "0xj"])));
    let actions = handle_stream(&mut session, &WITH_FEES, answer(1, true));
    assert_eq!(
        actions,
        vec![Action::AnswerToWorker { rpc: ServerId1 { id: 44, jsonrpc: None, result: true } }]
    );
    assert_eq!(session.worker.accept_index, 1);
    assert_eq!(session.worker.invalid_index, 0);
}

#[test]
fn any_other_answer_is_a_refusal_and_is_reported() {
    let mut session = Session::new();
    handle_stream(&mut session, &WITH_FEES, request(named(3, "eth_submitLogin", &["0xw"])));
    let actions = handle_stream(&mut session, &WITH_FEES, answer(77, false));
    assert_eq!(
        actions,
        vec![
            Action::ReportError {
                worker_name: "0xw.rig".to_string(),
                line: "answer 77".to_string(),
            },
            Action::AnswerToWorker { rpc: ServerId1 { id: 3, jsonrpc: None, result: false } },
        ]
    );
    assert_eq!(session.worker.accept_index, 0);
    assert_eq!(session.worker.invalid_index, 1);
}

#[test]
fn a_job_passes_without_fees() {
    let mut session = Session::new();
    handle_stream(&mut session, &WITHOUT_FEES, own_job(Taker::Proxy, 4, "d", &["0xp"]));
    let due = FeeDue { proxy: true, developer: true };
    let actions = handle_stream(&mut session, &WITHOUT_FEES, job(0, &["0x1", "0x2"], due));
    assert_eq!(
        actions,
        vec![Action::PlainJobToWorker { rpc: Server { id: 0, result: texts(&["0x1", "0x2"]) } }]
    );
    assert_eq!(session.mine.unsent.len(), 1);
    assert_eq!(session.pool_job_idx, 1);
}

#[test]
fn requested_work_gets_the_machines_id() {
    let mut session = Session::new();
    let event = Event::WorkerLine { named: None, plain: Some(plain(8, "eth_getWork")) };
    handle_stream(&mut session, &WITH_FEES, event);
    let actions = handle_stream(&mut session, &WITH_FEES, job(1005, &["0x1"], NONE_DUE));
    assert_eq!(
        actions,
        vec![Action::PlainJobToWorker { rpc: Server { id: 8, result: texts(&["0x1"]) } }]
    );
}

#[test]
fn the_count_of_jobs_wraps_to_one() {
    let mut session = Session::new();
    session.pool_job_idx = u64::MAX - 1;
    handle_stream(&mut session, &WITH_FEES, job(0, &["0x1"], NONE_DUE));
    assert_eq!(session.pool_job_idx, u64::MAX);
    assert_eq!(session.next_job_idx(), 1);
    handle_stream(&mut session, &WITH_FEES, job(0, &["0x1"], NONE_DUE));
    assert_eq!(session.pool_job_idx, 1);
}

#[test]
fn each_form_of_a_job_keeps_its_form() {
    let mut session = Session::new();
    let event = Event::PoolLine {
        line: "l".to_string(),
        answer: None,
        with_height: Some(ServerJobsWithHeight {
            id: 0,
            jsonrpc: "2.0".to_string(),
            result: texts(&["0x1"]),
            height: 5,
        }),
        side: Some(ServerSideJob { id: 1, jsonrpc: "2.0".to_string(), result: texts(&["0x2"]) }),
        plain: Some(Server { id: 2, result: texts(&["0x3"]) }),
        due: NONE_DUE,
    };
    let actions = handle_stream(&mut session, &WITH_FEES, event);
    assert_eq!(
        actions,
        vec![Action::HeightJobToWorker {
            rpc: ServerJobsWithHeight {
                id: 0,
                jsonrpc: "2.0".to_string(),
                result: texts(&["0x1"]),
                height: 5,
            }
        }]
    );
    let event = Event::PoolLine {
        line: "l".to_string(),
        answer: None,
        with_height: None,
        side: Some(ServerSideJob { id: 1, jsonrpc: "2.0".to_string(), result: texts(&["0x2"]) }),
        plain: Some(Server { id: 2, result: texts(&["0x3"]) }),
        due: NONE_DUE,
    };
    let actions = handle_stream(&mut session, &WITH_FEES, event);
    assert_eq!(
        actions,
        vec![Action::SideJobToWorker {
            rpc: ServerSideJob { id: 1, jsonrpc: "2.0".to_string(), result: texts(&["0x2"]) }
        }]
    );
}

#[test]
fn an_unknown_line_passes_as_it_came() {
    let mut session = Session::new();
    let event = Event::PoolLine {
        line: "{\"what\":1}".to_string(),
        answer: None,
        with_height: None,
        side: None,
        plain: None,
        due: FeeDue { proxy: true, developer: true },
    };
    let actions = handle_stream(&mut session, &WITH_FEES, event);
    assert_eq!(actions, vec![Action::TextToWorker { text: "{\"what\":1}".to_string() }]);
    assert_eq!(session.pool_job_idx, 0);
}

#[test]
fn a_proxy_job_comes_back_to_its_connection_once() {
    let mut session = Session::new();
    handle_stream(&mut session, &WITH_FEES, own_job(Taker::Proxy, 41, "d", &["0xold"]));
    handle_stream(&mut session, &WITH_FEES, own_job(Taker::Proxy, 42, "d", &["0xnew", "0xs"]));
    let due = FeeDue { proxy: true, developer: false };
    let actions = handle_stream(&mut session, &WITH_FEES, job(0, &["0x1", "0x2"], due));
    assert_eq!(
        actions,
        vec![Action::PlainJobToWorker { rpc: Server { id: 0, result: texts(&["0xnew", "0xs"]) } }]
    );
    handle_stream(&mut session, &WITH_FEES, request(named(6, "eth_submitHashrate", &["0x1"])));
    let share = named(50, "eth_submitWork", &["0xn", "0xnew", "0xm"]);
    let actions = handle_stream(&mut session, &WITH_FEES, request(share));
    assert_eq!(
        actions,
        vec![
            Action::Fee {
                taker: Taker::Proxy,
                thread_id: 42,
                rpc: named(50, "eth_submitWork", &["0xn", "0xnew", "0xm"]),
            },
            Action::AnswerToWorker { rpc: ServerId1 { id: 50, jsonrpc: None, result: true } },
        ]
    );
    let share = named(51, "eth_submitWork", &["0xn", "0xnew", "0xm"]);
    let actions = handle_stream(&mut session, &WITH_FEES, request(share));
    let mut sent = named(51, "eth_submitWork", &["0xn", "0xnew", "0xm"]);
    sent.id = 2;
    assert_eq!(actions, vec![Action::NamedToPool { rpc: sent, tolerant: true }]);
}

#[test]
fn the_developers_job_wins_over_the_proxys() {
    let mut session = Session::new();
    handle_stream(&mut session, &WITH_FEES, own_job(Taker::Proxy, 1, "d", &["0xp"]));
    handle_stream(&mut session, &WITH_FEES, own_job(Taker::Developer, 2, "d", &["0xd"]));
    let due = FeeDue { proxy: true, developer: true };
    let actions = handle_stream(&mut session, &WITH_FEES, job(0, &["0x1"], due));
    assert_eq!(
        actions,
        vec![Action::PlainJobToWorker { rpc: Server { id: 0, result: texts(&["0xd"]) } }]
    );
    let share = named(50, "eth_submitWork", &["0xn", "0xd"]);
    let actions = handle_stream(&mut session, &WITH_FEES, request(share));
    assert_eq!(
        actions[0],
        Action::Fee {
            taker: Taker::Developer,
            thread_id: 2,
            rpc: named(50, "eth_submitWork", &["0xn", "0xd"]),
        }
    );
    assert_eq!(session.mine.sent.get("0xp"), Some(&1));
}

#[test]
fn a_waiting_job_of_the_same_name_does_not_draw_the_share_away() {
    let mut session = Session::new();
    handle_stream(&mut session, &WITH_FEES, own_job(Taker::Proxy, 1, "d", &["0xj"]));
    handle_stream(&mut session, &WITH_FEES, own_job(Taker::Developer, 2, "d", &["0xj"]));
    let due = FeeDue { proxy: false, developer: true };
    handle_stream(&mut session, &WITH_FEES, job(0, &["0x1"], due));
    let share = named(50, "eth_submitWork", &["0xn", "0xj"]);
    let actions = handle_stream(&mut session, &WITH_FEES, request(share));
    assert_eq!(
        actions[0],
        Action::Fee {
            taker: Taker::Developer,
            thread_id: 2,
            rpc: named(50, "eth_submitWork", &["0xn", "0xj"]),
        }
    );
    assert_eq!(session.mine.unsent.len(), 1);
}

#[test]
fn the_proxy_comes_before_the_developer_for_a_shared_name() {
    let mut session = Session::new();
    session.mine.sent.insert("0xj".to_string(), 1);
    session.develop.sent.insert("0xj".to_string(), 2);
    let share = named(50, "eth_submitWork", &["0xn", "0xj"]);
    let actions = handle_stream(&mut session, &WITH_FEES, request(share));
    assert_eq!(
        actions[0],
        Action::Fee {
            taker: Taker::Proxy,
            thread_id: 1,
            rpc: named(50, "eth_submitWork", &["0xn", "0xj"]),
        }
    );
    assert!(session.develop.sent.contains_key("0xj"));
}

#[test]
fn a_new_difficulty_drops_the_takers_waiting_jobs() {
    let mut session = Session::new();
    handle_stream(&mut session, &WITH_FEES, own_job(Taker::Proxy, 1, "a", &["0x1"]));
    handle_stream(&mut session, &WITH_FEES, own_job(Taker::Proxy, 1, "a", &["0x2"]));
    assert_eq!(session.mine.unsent.len(), 2);
    handle_stream(&mut session, &WITH_FEES, own_job(Taker::Proxy, 1, "b", &["0x3"]));
    assert_eq!(session.mine.unsent.len(), 1);
    assert_eq!(session.mine.unsent[0].job_id, "0x3");
    handle_stream(&mut session, &WITH_FEES, own_job(Taker::Developer, 1, "b", &["0x4"]));
    assert_eq!(session.mine.unsent.len(), 1);
    assert_eq!(session.develop.unsent.len(), 1);
    assert_eq!(session.job_diff, "b");
}

#[test]
fn a_bad_own_job_ends_the_session() {
    let mut session = Session::new();
    let event = Event::OwnJob {
        taker: Taker::Developer,
        thread_id: 1,
        diff: "a".to_string(),
        rpc: Err("expected value".to_string()),
    };
    let actions = handle_stream(&mut session, &WITH_FEES, event);
    assert_eq!(
        actions,
        vec![Action::Close { error: StreamError::BadJob { reason: "expected value".to_string() } }]
    );
}

#[test]
fn each_end_closes_its_side() {
    let mut session = Session::new();
    handle_stream(&mut session, &WITH_FEES, request(named(9, "eth_submitLogin", &["0xw"])));
    let offline = StreamError::Offline { worker_name: "0xw.rig".to_string() };
    assert_eq!(offline.message(), "矿机下线了 : 0xw.rig");
    assert_eq!(
        handle_stream(&mut session, &WITH_FEES, Event::WorkerGone),
        vec![
            Action::ShutdownPool,
            Action::Close { error: StreamError::Offline { worker_name: "0xw.rig".to_string() } },
        ]
    );
    assert_eq!(
        handle_stream(&mut session, &WITH_FEES, Event::PoolGone),
        vec![Action::ShutdownWorker, Action::Close { error: offline }]
    );
    let reason = "deadline has elapsed".to_string();
    assert_eq!(
        handle_stream(&mut session, &WITH_FEES, Event::WorkerTimedOut { reason: reason.clone() }),
        vec![
            Action::ShutdownPool,
            Action::Close { error: StreamError::TimedOut { reason: reason.clone() } },
        ]
    );
    assert_eq!(
        handle_stream(&mut session, &WITH_FEES, Event::PoolUnreadable { reason: reason.clone() }),
        vec![Action::Close { error: StreamError::PoolUnreadable { reason } }]
    );
}

#[test]
fn a_tolerant_write_never_ends_the_session() {
    let name = "0xw.rig".to_string();
    assert_eq!(after_write(true, WriteOutcome::Written { len: 0 }, &name), Ok(()));
    let failed = WriteOutcome::Failed { reason: "x".to_string() };
    assert_eq!(after_write(true, failed, &name), Ok(()));
    assert_eq!(
        after_write(false, WriteOutcome::Written { len: 0 }, &name),
        Err(StreamError::Disconnected { worker: name })
    );
}

#[test]
fn an_answer_goes_out_with_its_verdict_alone() {
    for result in [true, false] {
        let mut session = Session::new();
        handle_stream(&mut session, &WITH_FEES, request(named(9, "eth_submitLogin", &["0xw"])));
        let event = Event::PoolLine {
            line: "answer".to_string(),
            answer: Some(ServerId1 { id: 1001, jsonrpc: Some("2.0".to_string()), result }),
            with_height: None,
            side: None,
            plain: None,
            due: NONE_DUE,
        };
        let actions = handle_stream(&mut session, &WITH_FEES, event);
        assert_eq!(
            actions,
            vec![Action::AnswerToWorker { rpc: ServerId1 { id: 9, jsonrpc: None, result } }]
        );
    }
}

#[test]
fn only_requests_that_must_reach_the_pool_are_not_tolerated() {
    let mut session = Session::new();
    let mut verdicts = Vec::new();
    for (method, params) in [
        ("eth_submitLogin", vec!["0xw"]),
        ("eth_submitHashrate", vec!["0x1"]),
        ("eth_submitWork", vec!["0xn", "0xj"]),
    ] {
        let actions = handle_stream(&mut session, &WITH_FEES, request(named(1, method, &params)));
        assert_eq!(actions.len(), 1);
        verdicts.push(tolerates(&actions[0]));
    }
    let event = Event::WorkerLine { named: None, plain: Some(plain(8, "eth_getWork")) };
    verdicts.push(tolerates(&handle_stream(&mut session, &WITH_FEES, event)[0]));
    for event in [answer(1001, true), job(0, &["0x1"], NONE_DUE), Event::PoolGone] {
        for action in handle_stream(&mut session, &WITH_FEES, event) {
            verdicts.push(tolerates(&action));
        }
    }
    assert_eq!(verdicts, vec![false, false, true, false, true, true, true, true]);
}

#[test]
fn a_request_for_work_that_is_not_written_ends_the_session() {
    let mut session = Session::new();
    let event = Event::WorkerLine { named: None, plain: Some(plain(8, "eth_getWork")) };
    let action = handle_stream(&mut session, &WITH_FEES, event).remove(0);
    let name = "0xw.rig".to_string();
    let tolerated = tolerates(&action);
    assert_eq!(after_write(tolerated, WriteOutcome::Written { len: 1 }, &name), Ok(()));
    assert_eq!(
        after_write(tolerated, WriteOutcome::Failed { reason: "x".to_string() }, &name),
        Err(StreamError::WriteFailed { reason: "x".to_string() })
    );
    assert_eq!(
        after_write(tolerated, WriteOutcome::Written { len: 0 }, &name),
        Err(StreamError::Disconnected { worker: name })
    );
}

#[test]
fn only_the_counter_that_would_grow_must_have_room() {
    let mut session = Session::new();
    session.worker.share_index = u64::MAX;
    assert!(!has_room(&session, &WITH_FEES, &request(named(1, "eth_submitWork", &["0xn"]))));
    assert!(has_room(&session, &WITH_FEES, &request(named(1, "eth_submitHashrate", &["0x1"]))));
    session.worker.share_index = 7;
    session.worker.accept_index = u64::MAX;
    assert!(!has_room(&session, &WITH_FEES, &answer(7, true)));
    assert!(has_room(&session, &WITH_FEES, &answer(8, true)));
    assert!(has_room(&session, &WITH_FEES, &answer(1001, true)));
    session.worker.accept_index = 0;
    session.worker.invalid_index = u64::MAX;
    assert!(has_room(&session, &WITH_FEES, &answer(7, true)));
    assert!(!has_room(&session, &WITH_FEES, &answer(8, true)));
    assert!(has_room(&session, &WITH_FEES, &Event::PoolGone));
    assert!(!has_room(&session, &WITH_FEES, &own_job(Taker::Proxy, 1, "d", &[])));
}

#[test]
fn a_share_takes_the_note_of_its_job_with_it() {
    let mut session = Session::new();
    session.mine.sent.insert("0xkept".to_string(), 7);
    handle_stream(&mut session, &WITH_FEES, own_job(Taker::Proxy, 42, "d", &["0xj"]));
    let due = FeeDue { proxy: true, developer: false };
    handle_stream(&mut session, &WITH_FEES, job(0, &["0x1"], due));
    assert_eq!(session.mine.sent.get("0xj"), Some(&42));
    handle_stream(&mut session, &WITH_FEES, request(named(5, "eth_submitWork", &["0xn", "0xj"])));
    assert_eq!(session.mine.sent.get("0xj"), None);
    assert_eq!(session.mine.sent.get("0xkept"), Some(&7));
    assert_eq!(session.worker.share_index, 1);
    let second = named(6, "eth_submitWork", &["0xn", "0xj"]);
    let actions = handle_stream(&mut session, &WITH_FEES, request(second));
    let mut sent = named(6, "eth_submitWork", &["0xn", "0xj"]);
    sent.id = 2;
    assert_eq!(actions, vec![Action::NamedToPool { rpc: sent, tolerant: true }]);
    assert_eq!(session.mine.sent.get("0xkept"), Some(&7));
}

#[test]
fn the_other_takers_difficulty_leaves_waiting_jobs_alone() {
    let mut session = Session::new();
    handle_stream(&mut session, &WITH_FEES, own_job(Taker::Proxy, 1, "a", &["0x1"]));
    handle_stream(&mut session, &WITH_FEES, own_job(Taker::Developer, 1, "b", &["0x2"]));
    handle_stream(&mut session, &WITH_FEES, own_job(Taker::Proxy, 1, "b", &["0x3"]));
    assert_eq!(session.mine.unsent.len(), 2);
    assert_eq!(session.mine.unsent[0].job_id, "0x1");
    assert_eq!(session.mine.unsent[1].job_id, "0x3");
}

#[test]
fn a_share_number_that_is_a_request_id_counts_as_that_request() {
    let mut session = Session::new();
    session.worker.share_index = 1006;
    handle_stream(&mut session, &WITH_FEES, answer(1006, true));
    assert_eq!(session.worker.accept_index, 0);
    assert_eq!(session.worker.invalid_index, 0);
}
