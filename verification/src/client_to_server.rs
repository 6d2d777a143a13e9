//! The upward half of a relay: what a machine sends, on its way to the pool.
//!
//! Each read is looked at as a request. A share may be kept as a fee by
//! drawing; everything else goes on to the pool exactly as it was read. The
//! relay asks for one thing at a time and is told how it went.

use crate::fee;
use crate::protocol::{Client, ClientView, ServerId1, ServerId1View};
use crate::protocol;
use crate::string_map::StringMap;
use vstd::prelude::*;
use vstd::string::*;

verus! {

/// A read of this many bytes or fewer is no request.
pub const LONGEST_NOISE: usize = 5;

/// What all relays of the proxy share.
pub struct State {
    /// How many shares have passed.
    pub proxy_share: u64,
    /// The jobs of the proxy's own that machines are at work on.
    pub mine_jobs: StringMap<()>,
    /// The hashrate that each machine last reported, under its full name.
    pub report_hashrate: StringMap<String>,
}

/// What all relays share, as contracts see it.
pub struct StateView {
    pub proxy_share: u64,
    pub mine_jobs: Set<Seq<char>>,
    pub report_hashrate: Map<Seq<char>, Seq<char>>,
}

impl View for State {
    type V = StateView;

    open spec fn view(&self) -> StateView {
        StateView {
            proxy_share: self.proxy_share,
            mine_jobs: self.mine_jobs@.dom(),
            report_hashrate: self.report_hashrate@.map_values(|rate: String| rate@),
        }
    }
}

impl State {
    /// The state before any relay has started.
    pub fn new() -> (r: State)
        ensures
            r@ == (StateView {
                proxy_share: 0,
                mine_jobs: Set::empty(),
                report_hashrate: Map::empty(),
            }),
    {
        let r = State {
            proxy_share: 0,
            mine_jobs: StringMap::new(),
            report_hashrate: StringMap::new(),
        };
        assert(r@.mine_jobs =~= Set::<Seq<char>>::empty());
        assert(r@.report_hashrate =~= Map::<Seq<char>, Seq<char>>::empty());
        r
    }

    /// Notes that a machine is at work on a job of the proxy's own.
    pub fn note_mine_job(&mut self, job_id: String)
        ensures
            final(self)@ == (StateView {
                mine_jobs: old(self)@.mine_jobs.insert(job_id@),
                ..old(self)@
            }),
    {
        let ghost before = self@;
        self.mine_jobs.insert(job_id, ());
        assert(self@.mine_jobs =~= before.mine_jobs.insert(job_id@));
    }

    /// Takes back a job of the proxy's own, if it was one.
    fn claim_mine_job(&mut self, job_id: &str) -> (r: bool)
        ensures
            r == old(self)@.mine_jobs.contains(job_id@),
            final(self)@ == (StateView {
                mine_jobs: old(self)@.mine_jobs.remove(job_id@),
                ..old(self)@
            }),
    {
        let ghost before = self@;
        let found = self.mine_jobs.contains_key(job_id);
        if found {
            self.mine_jobs.remove(job_id);
        }
        assert(self@.mine_jobs =~= before.mine_jobs.remove(job_id@));
        found
    }

    /// Takes down the hashrate that a machine reports.
    fn report(&mut self, worker: String, hashrate: String)
        ensures
            final(self)@ == (StateView {
                report_hashrate: old(self)@.report_hashrate.insert(worker@, hashrate@),
                ..old(self)@
            }),
    {
        let ghost before = self@;
        self.report_hashrate.insert(worker, hashrate);
        assert(self@.report_hashrate =~= before.report_hashrate.insert(worker@, hashrate@));
    }
}

/// The fees that are drawn for. The rates are in shares of a thousand.
#[derive(Clone, Copy)]
pub struct DrawnFees {
    /// Whether the developer takes a fee.
    pub develop: bool,
    /// The developer's rate.
    pub develop_permille: u32,
    /// Zero if the proxy takes none.
    pub share: u32,
    /// The proxy's rate.
    pub share_permille: u32,
}

impl DrawnFees {
    /// Whether no rate that is used is above the whole.
    pub open spec fn wf(self) -> bool {
        &&& self.develop ==> self.develop_permille <= fee::DRAW_BOUND
        &&& self.share != 0 ==> self.share_permille <= fee::DRAW_BOUND
    }

    /// Tells whether no rate that is used is above the whole.
    pub fn within_whole(&self) -> (r: bool)
        ensures
            r == self.wf(),
    {
        (!self.develop || self.develop_permille <= fee::DRAW_BOUND) && (self.share == 0
            || self.share_permille <= fee::DRAW_BOUND)
    }
}

/// The numbers that were drawn for a share.
#[derive(Clone, Copy)]
pub struct Draws {
    pub develop: u32,
    pub share: u32,
}

/// Where a relay stands.
#[derive(Debug, PartialEq, Eq)]
pub enum Stage {
    /// It waits for the machine.
    Reading,
    /// It has offered a share to the developer.
    OfferedDevelop { rpc: Client, data: Vec<u8> },
    /// It has offered a share to the proxy.
    OfferedProxy { rpc: Client, data: Vec<u8> },
    /// It has passed on what it read.
    Forwarding,
    /// It is over.
    Closed,
}

/// Where a relay stands, as contracts see it.
pub enum StageView {
    Reading,
    OfferedDevelop { rpc: ClientView, data: Seq<u8> },
    OfferedProxy { rpc: ClientView, data: Seq<u8> },
    Forwarding,
    Closed,
}

impl View for Stage {
    type V = StageView;

    open spec fn view(&self) -> StageView {
        match self {
            Stage::Reading => StageView::Reading,
            Stage::OfferedDevelop { rpc, data } => StageView::OfferedDevelop {
                rpc: rpc@,
                data: data@,
            },
            Stage::OfferedProxy { rpc, data } => StageView::OfferedProxy { rpc: rpc@, data: data@ },
            Stage::Forwarding => StageView::Forwarding,
            Stage::Closed => StageView::Closed,
        }
    }
}

/// The upward half of a relay.
pub struct Upward {
    /// The machine's full name, once it has logged in.
    pub worker: String,
    pub stage: Stage,
}

/// The upward half of a relay as contracts see it.
pub struct UpwardView {
    pub worker: Seq<char>,
    pub stage: StageView,
}

impl View for Upward {
    type V = UpwardView;

    open spec fn view(&self) -> UpwardView {
        UpwardView { worker: self.worker@, stage: self.stage@ }
    }
}

impl Upward {
    /// A relay that waits for its machine's first words.
    pub fn new() -> (r: Upward)
        ensures
            r@ == (UpwardView { worker: seq![], stage: StageView::Reading }),
    {
        Upward { worker: String::new(), stage: Stage::Reading }
    }
}

/// What a relay can be told.
pub enum UpwardEvent {
    /// The machine was read; `client` is there if the bytes read as a request,
    /// and `get_work` holds if they read as a request for work.
    Received { data: Vec<u8>, client: Option<Client>, get_work: bool },
    /// The share that was offered was taken or not.
    Offered { taken: bool },
    /// The pool took so many of the bytes that were passed on.
    Forwarded { written: usize },
}

/// What a relay can be told, as contracts see it.
pub enum UpwardEventView {
    Received { data: Seq<u8>, client: Option<ClientView>, get_work: bool },
    Offered { taken: bool },
    Forwarded { written: usize },
}

impl View for UpwardEvent {
    type V = UpwardEventView;

    open spec fn view(&self) -> UpwardEventView {
        match self {
            UpwardEvent::Received { data, client, get_work } => UpwardEventView::Received {
                data: data@,
                client: match client {
                    Some(rpc) => Some(rpc@),
                    None => None,
                },
                get_work: *get_work,
            },
            UpwardEvent::Offered { taken } => UpwardEventView::Offered { taken: *taken },
            UpwardEvent::Forwarded { written } => UpwardEventView::Forwarded { written: *written },
        }
    }
}

/// What a relay asks for.
#[derive(Debug, PartialEq, Eq)]
pub enum UpwardAction {
    /// Read the machine again.
    Read,
    /// Offer a share to the developer, and tell whether it was taken.
    OfferDevelop { rpc: Client },
    /// Offer a share to the proxy, and tell whether it was taken.
    OfferProxy { rpc: Client },
    /// Tell the machine that its share was accepted, and read it again.
    Accept { reply: ServerId1 },
    /// Write these bytes to the pool, and tell how many were taken.
    Forward { data: Vec<u8> },
    /// Close the connection to the pool, and end.
    Shutdown,
}

/// What a relay asks for, as contracts see it.
pub enum UpwardActionView {
    Read,
    OfferDevelop { rpc: ClientView },
    OfferProxy { rpc: ClientView },
    Accept { reply: ServerId1View },
    Forward { data: Seq<u8> },
    Shutdown,
}

impl View for UpwardAction {
    type V = UpwardActionView;

    open spec fn view(&self) -> UpwardActionView {
        match self {
            UpwardAction::Read => UpwardActionView::Read,
            UpwardAction::OfferDevelop { rpc } => UpwardActionView::OfferDevelop { rpc: rpc@ },
            UpwardAction::OfferProxy { rpc } => UpwardActionView::OfferProxy { rpc: rpc@ },
            UpwardAction::Accept { reply } => UpwardActionView::Accept { reply: reply@ },
            UpwardAction::Forward { data } => UpwardActionView::Forward { data: data@ },
            UpwardAction::Shutdown => UpwardActionView::Shutdown,
        }
    }
}

/// What a relay asks for, and the share that turned out to be for a job of the
/// proxy's own, if there was one. That share is handed out beside the action;
/// what is done with it is the matter of whoever runs the relay, and the share
/// takes its course all the same.
#[derive(Debug, PartialEq, Eq)]
pub struct UpwardStep {
    pub claimed: Option<Client>,
    pub action: UpwardAction,
}

/// A step as contracts see it.
pub struct UpwardStepView {
    pub claimed: Option<ClientView>,
    pub action: UpwardActionView,
}

impl View for UpwardStep {
    type V = UpwardStepView;

    open spec fn view(&self) -> UpwardStepView {
        UpwardStepView {
            claimed: match self.claimed {
                Some(rpc) => Some(rpc@),
                None => None,
            },
            action: self.action@,
        }
    }
}

/// Whether a share is for a job of the proxy's own.
pub open spec fn is_mine(shared: StateView, rpc: ClientView) -> bool {
    rpc.params.len() > 1 && shared.mine_jobs.contains(rpc.params[1])
}

/// What all relays share after a request: a share is counted, and a job of the
/// proxy's own that it is for is taken back; a hashrate is taken down under
/// the machine's full name.
pub open spec fn state_after_request(shared: StateView, worker: Seq<char>, rpc: ClientView) -> StateView {
    if rpc.method == "eth_submitWork"@ {
        StateView {
            proxy_share: (shared.proxy_share + 1) as u64,
            mine_jobs: if rpc.params.len() > 1 {
                shared.mine_jobs.remove(rpc.params[1])
            } else {
                shared.mine_jobs
            },
            ..shared
        }
    } else if rpc.method == "eth_submitHashrate"@ && rpc.params.len() > 0 {
        StateView {
            report_hashrate: shared.report_hashrate.insert(worker, rpc.params[0]),
            ..shared
        }
    } else {
        shared
    }
}

/// The machine's full name after a request: a login that names a wallet sets
/// it.
pub open spec fn worker_after_request(worker: Seq<char>, rpc: ClientView) -> Seq<char> {
    if rpc.method == "eth_submitLogin"@ && rpc.params.len() > 0 {
        rpc.params[0] + "."@ + rpc.worker
    } else {
        worker
    }
}

/// A share after the developer's turn: the proxy's draw decides whether it is
/// offered once more or goes on to the pool.
pub open spec fn proxy_turn(fees: DrawnFees, draws: Draws, rpc: ClientView, data: Seq<u8>) -> (
    StageView,
    UpwardActionView,
) {
    if fees.share != 0 && fee::draw_hits(draws.share, fees.share_permille) {
        (StageView::OfferedProxy { rpc, data }, UpwardActionView::OfferProxy { rpc })
    } else {
        (StageView::Forwarding, UpwardActionView::Forward { data })
    }
}

/// A share as it comes in: the developer's draw decides whether it is offered
/// there first.
pub open spec fn develop_turn(fees: DrawnFees, draws: Draws, rpc: ClientView, data: Seq<u8>) -> (
    StageView,
    UpwardActionView,
) {
    if fees.develop && fee::draw_hits(draws.develop, fees.develop_permille) {
        (StageView::OfferedDevelop { rpc, data }, UpwardActionView::OfferDevelop { rpc })
    } else {
        proxy_turn(fees, draws, rpc, data)
    }
}

/// Where a read that holds something leads. A request other than a share goes
/// on to the pool, and so does a request for work; what is neither is dropped.
pub open spec fn read_turn(
    fees: DrawnFees,
    draws: Draws,
    data: Seq<u8>,
    client: Option<ClientView>,
    get_work: bool,
) -> (StageView, UpwardActionView) {
    if data.len() == 0 {
        (StageView::Closed, UpwardActionView::Shutdown)
    } else if data.len() <= LONGEST_NOISE {
        (StageView::Reading, UpwardActionView::Read)
    } else {
        match client {
            Some(rpc) => if rpc.method == "eth_submitWork"@ {
                develop_turn(fees, draws, rpc, data)
            } else {
                (StageView::Forwarding, UpwardActionView::Forward { data })
            },
            None => if get_work {
                (StageView::Forwarding, UpwardActionView::Forward { data })
            } else {
                (StageView::Reading, UpwardActionView::Read)
            },
        }
    }
}

/// The request that a read holds, if it is long enough to hold one.
pub open spec fn request_in(event: UpwardEventView) -> Option<ClientView> {
    match event {
        UpwardEventView::Received { data, client, .. } => if data.len() > LONGEST_NOISE {
            client
        } else {
            None
        },
        _ => None,
    }
}

/// Whether an event can lead to an offer that a draw decides: a share that
/// comes in, or one that was not taken.
pub open spec fn weighs_fees(event: UpwardEventView) -> bool {
    match event {
        UpwardEventView::Received { .. } => request_in(event) matches Some(rpc) && rpc.method
            == "eth_submitWork"@,
        UpwardEventView::Offered { taken } => !taken,
        UpwardEventView::Forwarded { .. } => false,
    }
}

/// The answer that tells a machine that its share was accepted.
pub open spec fn accepted(rpc: ClientView) -> UpwardActionView {
    UpwardActionView::Accept {
        reply: ServerId1View { id: rpc.id, jsonrpc: Some("2.0"@), result: true },
    }
}

/// Where an event leads from where the relay stands.
pub open spec fn turn(stage: StageView, fees: DrawnFees, draws: Draws, event: UpwardEventView) -> (
    StageView,
    UpwardActionView,
) {
    match (stage, event) {
        (StageView::Reading, UpwardEventView::Received { data, client, get_work }) => read_turn(
            fees,
            draws,
            data,
            client,
            get_work,
        ),
        (StageView::OfferedDevelop { rpc, data }, UpwardEventView::Offered { taken }) => if taken {
            (StageView::Reading, accepted(rpc))
        } else {
            proxy_turn(fees, draws, rpc, data)
        },
        (StageView::OfferedProxy { rpc, data }, UpwardEventView::Offered { taken }) => if taken {
            (StageView::Reading, accepted(rpc))
        } else {
            (StageView::Forwarding, UpwardActionView::Forward { data })
        },
        (StageView::Forwarding, UpwardEventView::Forwarded { written }) => if written == 0 {
            (StageView::Closed, UpwardActionView::Shutdown)
        } else {
            (StageView::Reading, UpwardActionView::Read)
        },
        _ => (stage, UpwardActionView::Read),
    }
}

/// Whether an event is one that the relay waits for where it stands.
pub open spec fn awaits(stage: StageView, event: UpwardEventView) -> bool {
    match event {
        UpwardEventView::Received { .. } => stage is Reading,
        UpwardEventView::Offered { .. } => stage is OfferedDevelop || stage is OfferedProxy,
        UpwardEventView::Forwarded { .. } => stage is Forwarding,
    }
}

/// A relay and what it shares after an event, and what it then asks for.
pub open spec fn upward_step(
    relay: UpwardView,
    shared: StateView,
    fees: DrawnFees,
    draws: Draws,
    event: UpwardEventView,
) -> (UpwardView, StateView, UpwardStepView) {
    let (stage, action) = turn(relay.stage, fees, draws, event);
    match request_in(event) {
        Some(rpc) => (
            UpwardView { worker: worker_after_request(relay.worker, rpc), stage },
            state_after_request(shared, relay.worker, rpc),
            UpwardStepView {
                claimed: if rpc.method == "eth_submitWork"@ && is_mine(shared, rpc) {
                    Some(rpc)
                } else {
                    None
                },
                action,
            },
        ),
        None => (
            UpwardView { stage, ..relay },
            shared,
            UpwardStepView { claimed: None, action },
        ),
    }
}

/// Whether the count of shares has room for the one that an event may hold.
pub open spec fn can_count(shared: StateView, event: UpwardEventView) -> bool {
    request_in(event) matches Some(rpc) && rpc.method == "eth_submitWork"@ ==> shared.proxy_share
        < u64::MAX
}

/// Does for the relay and for what all relays share what a request asks, apart
/// from passing it on. The result tells whether a share was for a job of the
/// proxy's own.
fn take_request(relay: &mut Upward, shared: &mut State, rpc: &Client) -> (claimed: bool)
    requires
        rpc@.method == "eth_submitWork"@ ==> old(shared).proxy_share < u64::MAX,
    ensures
        final(relay)@ == (UpwardView {
            worker: worker_after_request(old(relay)@.worker, rpc@),
            ..old(relay)@
        }),
        final(shared)@ == state_after_request(old(shared)@, old(relay)@.worker, rpc@),
        claimed == (rpc@.method == "eth_submitWork"@ && is_mine(old(shared)@, rpc@)),
{
    proof {
        protocol::lemma_methods_differ();
    }
    if protocol::is_method(&rpc.method, "eth_submitWork") {
        shared.proxy_share = shared.proxy_share + 1;
        if rpc.params.len() > 1 {
            assert(rpc@.params[1] == rpc.params[1]@);
            return shared.claim_mine_job(rpc.params[1].as_str());
        }
    } else if protocol::is_method(&rpc.method, "eth_submitHashrate") {
        if rpc.params.len() > 0 {
            assert(rpc@.params[0] == rpc.params[0]@);
            shared.report(relay.worker.clone(), rpc.params[0].clone());
        }
    } else if protocol::is_method(&rpc.method, "eth_submitLogin") {
        if rpc.params.len() > 0 {
            assert(rpc@.params[0] == rpc.params[0]@);
            relay.worker = rpc.params[0].clone().concat(".").concat(rpc.worker.as_str());
        }
    }
    false
}

/// The proxy's turn on a share (see [`proxy_turn`]).
fn offer_proxy(fees: &DrawnFees, draws: Draws, rpc: Client, data: Vec<u8>) -> (r: (
    Stage,
    UpwardAction,
))
    requires
        fees.wf(),
    ensures
        (r.0@, r.1@) == proxy_turn(*fees, draws, rpc@, data@),
{
    if fees.share != 0 && fee::is_fee_draw(draws.share, fees.share_permille) {
        let offered = rpc.clone();
        (Stage::OfferedProxy { rpc, data }, UpwardAction::OfferProxy { rpc: offered })
    } else {
        (Stage::Forwarding, UpwardAction::Forward { data })
    }
}

/// The developer's turn on a share (see [`develop_turn`]).
fn offer_develop(fees: &DrawnFees, draws: Draws, rpc: Client, data: Vec<u8>) -> (r: (
    Stage,
    UpwardAction,
))
    requires
        fees.wf(),
    ensures
        (r.0@, r.1@) == develop_turn(*fees, draws, rpc@, data@),
{
    if fees.develop && fee::is_fee_draw(draws.develop, fees.develop_permille) {
        let offered = rpc.clone();
        (Stage::OfferedDevelop { rpc, data }, UpwardAction::OfferDevelop { rpc: offered })
    } else {
        offer_proxy(fees, draws, rpc, data)
    }
}

/// The answer that tells a machine that its share was accepted.
fn accept(rpc: Client) -> (r: UpwardAction)
    ensures
        r@ == accepted(rpc@),
{
    UpwardAction::Accept {
        reply: ServerId1 { id: rpc.id, jsonrpc: Some("2.0".to_owned()), result: true },
    }
}

/// Takes a relay through one event, given the numbers that were drawn for it.
pub fn client_to_server_drawn(
    relay: &mut Upward,
    shared: &mut State,
    fees: &DrawnFees,
    draws: Draws,
    event: UpwardEvent,
) -> (r: UpwardStep)
    requires
        weighs_fees(event@) ==> fees.wf(),
        awaits(old(relay)@.stage, event@),
        can_count(old(shared)@, event@),
    ensures
        (final(relay)@, final(shared)@, r@) == upward_step(
            old(relay)@,
            old(shared)@,
            *fees,
            draws,
            event@,
        ),
{
    let mut stage = Stage::Reading;
    std::mem::swap(&mut stage, &mut relay.stage);
    let mut claimed: Option<Client> = None;
    let (next, action) = match event {
        UpwardEvent::Received { data, client, get_work } => {
            if data.len() == 0 {
                (Stage::Closed, UpwardAction::Shutdown)
            } else if data.len() <= LONGEST_NOISE {
                (Stage::Reading, UpwardAction::Read)
            } else if let Some(rpc) = client {
                if take_request(relay, shared, &rpc) {
                    claimed = Some(rpc.clone());
                }
                if protocol::is_method(&rpc.method, "eth_submitWork") {
                    offer_develop(fees, draws, rpc, data)
                } else {
                    (Stage::Forwarding, UpwardAction::Forward { data })
                }
            } else if get_work {
                (Stage::Forwarding, UpwardAction::Forward { data })
            } else {
                (Stage::Reading, UpwardAction::Read)
            }
        },
        UpwardEvent::Offered { taken } => match stage {
            Stage::OfferedDevelop { rpc, data } => {
                if taken {
                    (Stage::Reading, accept(rpc))
                } else {
                    offer_proxy(fees, draws, rpc, data)
                }
            },
            Stage::OfferedProxy { rpc, data } => {
                if taken {
                    (Stage::Reading, accept(rpc))
                } else {
                    (Stage::Forwarding, UpwardAction::Forward { data })
                }
            },
            other => (other, UpwardAction::Read),
        },
        UpwardEvent::Forwarded { written } => {
            if written == 0 {
                (Stage::Closed, UpwardAction::Shutdown)
            } else {
                (Stage::Reading, UpwardAction::Read)
            }
        },
    };
    relay.stage = next;
    UpwardStep { claimed, action }
}

/// Whether the numbers that are used were drawn from one up to the bound.
pub open spec fn drawn_for(fees: DrawnFees, draws: Draws) -> bool {
    &&& fees.develop ==> 1 <= draws.develop < fee::DRAW_BOUND
    &&& fees.share != 0 ==> 1 <= draws.share < fee::DRAW_BOUND
}

/// Whether the numbers that are used came out of the generator.
pub open spec fn come_from_generator(fees: DrawnFees, draws: Draws) -> bool {
    &&& fees.develop ==> fee::is_drawn(draws.develop)
    &&& fees.share != 0 ==> fee::is_drawn(draws.share)
}

/// Draws a number for each fee.
pub fn draw_for(fees: &DrawnFees) -> (r: Draws)
    ensures
        drawn_for(*fees, r),
        come_from_generator(*fees, r),
{
    Draws {
        develop: if fees.develop {
            fee::draw_secret_number()
        } else {
            0
        },
        share: if fees.share != 0 {
            fee::draw_secret_number()
        } else {
            0
        },
    }
}

/// Tells whether an event calls for a draw (see [`weighs_fees`]).
pub fn calls_for_draw(event: &UpwardEvent) -> (r: bool)
    ensures
        r == weighs_fees(event@),
{
    match event {
        UpwardEvent::Received { data, client, .. } => match client {
            Some(rpc) => data.len() > LONGEST_NOISE && protocol::is_method(
                &rpc.method,
                "eth_submitWork",
            ),
            None => false,
        },
        UpwardEvent::Offered { taken } => !*taken,
        UpwardEvent::Forwarded { .. } => false,
    }
}

/// Takes a relay through one event, and draws the numbers that it calls for:
/// numbers that the generator gave lead to what comes out. Where the event
/// calls for none, what comes out is the same for all numbers.
pub fn client_to_server(
    relay: &mut Upward,
    shared: &mut State,
    fees: &DrawnFees,
    event: UpwardEvent,
) -> (r: UpwardStep)
    requires
        weighs_fees(event@) ==> fees.wf(),
        awaits(old(relay)@.stage, event@),
        can_count(old(shared)@, event@),
    ensures
        exists|draws: Draws|
            #[trigger] drawn_for(*fees, draws) && (weighs_fees(event@) ==> come_from_generator(
                *fees,
                draws,
            )) && (final(relay)@, final(shared)@, r@) == upward_step(
                old(relay)@,
                old(shared)@,
                *fees,
                draws,
                event@,
            ),
{
    let draws = if calls_for_draw(&event) {
        draw_for(fees)
    } else {
        Draws { develop: 0, share: 0 }
    };
    proof {
        let likely = Draws { develop: 1, share: 1 };
        assert(drawn_for(*fees, likely));
        if !drawn_for(*fees, draws) {
            assert(upward_step(relay@, shared@, *fees, draws, event@) == upward_step(
                relay@,
                shared@,
                *fees,
                likely,
                event@,
            ));
        }
    }
    client_to_server_drawn(relay, shared, fees, draws, event)
}

} // verus!
