//! Which jobs and shares are kept as a fee.
//!
//! A fee is taken in one of two ways. Where jobs are handed out, a lane keeps
//! jobs of the proxy's own and slips them under the pool's; what the machine
//! finds for such a job goes back to the lane. Where shares pass through, a
//! number is drawn for each, and the highest draws are kept.

use crate::outside;
use crate::protocol::{JobView, Server, ServerRpc};
use crate::string_map::StringMap;
use rand_chacha::ChaCha20Rng;
use std::collections::VecDeque;
use vstd::prelude::*;

verus! {

/// Draws are made below this number.
pub const DRAW_BOUND: u32 = 1000;

/// Whether a draw falls under a fee of so many shares in a thousand.
pub open spec fn draw_hits(draw: u32, permille: u32) -> bool {
    draw >= DRAW_BOUND - permille
}

/// Tells whether a draw falls under a fee of so many shares in a thousand.
pub fn is_fee_draw(draw: u32, permille: u32) -> (r: bool)
    requires
        permille <= DRAW_BOUND,
    ensures
        r == draw_hits(draw, permille),
{
    draw >= DRAW_BOUND - permille
}

/// Whether a number came out of a call of the generator, made on a generator
/// that the system had just seeded, for the numbers from one up to the bound.
///
/// Nothing but such a call gives this of a number: of one that was made up it
/// cannot be shown, though it be in range.
pub closed spec fn is_drawn(number: u32) -> bool {
    exists|rng: &mut ChaCha20Rng|
        call_ensures(outside::rng_from_entropy, (), *rng) && #[trigger] call_ensures(
            outside::rng_gen_range,
            (rng, 1u32, DRAW_BOUND),
            number,
        )
}

/// Draws a number from one up to, but not reaching, the bound.
pub fn draw_secret_number() -> (r: u32)
    ensures
        1 <= r < DRAW_BOUND,
        is_drawn(r),
{
    let mut rng = outside::rng_from_entropy();
    outside::rng_gen_range(&mut rng, 1, DRAW_BOUND)
}

/// A job of the proxy's own that no machine has been given yet.
#[derive(Debug, PartialEq, Eq)]
pub struct FeeJob {
    /// The connection to which its share goes back.
    pub thread_id: u64,
    /// The first entry of its result, by which the share is known again.
    pub job_id: String,
    /// The job itself.
    pub rpc: Server,
}

/// A job of the proxy's own as contracts see it.
pub struct FeeJobView {
    pub thread_id: u64,
    pub job_id: Seq<char>,
    pub rpc: JobView,
}

impl View for FeeJob {
    type V = FeeJobView;

    open spec fn view(&self) -> FeeJobView {
        FeeJobView { thread_id: self.thread_id, job_id: self.job_id@, rpc: self.rpc.job() }
    }
}

/// The jobs that one taker of fees has in play.
pub struct FeeLane {
    /// The jobs that wait for a machine, the newest at the back.
    pub unsent: VecDeque<FeeJob>,
    /// The connections of the jobs that machines are at work on.
    pub sent: StringMap<u64>,
}

/// A lane as contracts see it.
pub struct FeeLaneView {
    pub unsent: Seq<FeeJobView>,
    pub sent: Map<Seq<char>, u64>,
}

impl View for FeeLane {
    type V = FeeLaneView;

    open spec fn view(&self) -> FeeLaneView {
        FeeLaneView {
            unsent: self.unsent@.map_values(|job: FeeJob| job@),
            sent: self.sent@,
        }
    }
}

/// A lane with nothing in play.
pub open spec fn empty_lane() -> FeeLaneView {
    FeeLaneView { unsent: seq![], sent: Map::empty() }
}

/// A lane after it has slipped its newest job under a job of the pool: it
/// waits no longer, and its connection is noted.
pub open spec fn lane_after_assign(lane: FeeLaneView) -> FeeLaneView {
    if lane.unsent.len() == 0 {
        lane
    } else {
        FeeLaneView {
            unsent: lane.unsent.drop_last(),
            sent: lane.sent.insert(lane.unsent.last().job_id, lane.unsent.last().thread_id),
        }
    }
}

/// A job of the pool after a lane has slipped its newest job under it.
pub open spec fn job_after_assign(lane: FeeLaneView, job: JobView) -> JobView {
    if lane.unsent.len() == 0 {
        job
    } else {
        JobView { result: lane.unsent.last().rpc.result, ..job }
    }
}

/// Whether a lane can slip a job under the pool's that no machine has yet.
pub open spec fn assigns_fresh(lane: FeeLaneView) -> bool {
    lane.unsent.len() > 0 && !lane.sent.contains_key(lane.unsent.last().job_id)
}

impl FeeLane {
    /// A lane with nothing in play.
    pub fn new() -> (r: FeeLane)
        ensures
            r@ == empty_lane(),
    {
        let r = FeeLane { unsent: VecDeque::new(), sent: StringMap::new() };
        assert(r@.unsent =~= empty_lane().unsent);
        r
    }

    /// Slips the newest waiting job under `job_rpc`, if one waits. The result
    /// is there if the job's identifier was not noted already.
    fn assign<T: ServerRpc>(&mut self, job_rpc: &mut T) -> (r: Option<()>)
        ensures
            final(self)@ == lane_after_assign(old(self)@),
            final(job_rpc).job() == job_after_assign(old(self)@, old(job_rpc).job()),
            r is Some <==> assigns_fresh(old(self)@),
    {
        let ghost before = self@;
        match self.unsent.pop_back() {
            Some(job) => {
                assert(job@ == before.unsent.last());
                assert(self@.unsent =~= before.unsent.drop_last());
                job_rpc.set_result(job.rpc.result);
                if self.sent.insert(job.job_id, job.thread_id) {
                    Some(())
                } else {
                    None
                }
            },
            None => {
                assert(self@.unsent =~= before.unsent);
                None
            },
        }
    }

    /// Takes back a job that a machine has finished: the connection that its
    /// share goes to, if the job was this lane's.
    pub fn claim(&mut self, job_id: &str) -> (r: Option<u64>)
        ensures
            final(self)@ == lane_after_claim(old(self)@, job_id@),
            r == claimed_thread(old(self)@, job_id@),
    {
        match self.sent.get(job_id) {
            Some(found) => {
                let thread_id: u64 = *found;
                self.sent.remove(job_id);
                Some(thread_id)
            },
            None => {
                assert(self@.sent =~= self@.sent.remove(job_id@));
                None
            },
        }
    }

    /// Drops the waiting jobs if they are stale.
    pub fn drop_stale(&mut self, stale: bool)
        ensures
            final(self)@ == lane_after_drop(old(self)@, stale),
    {
        let ghost before = self@;
        if stale {
            self.unsent.clear();
        }
        assert(self@.unsent =~= lane_after_drop(before, stale).unsent);
    }

    /// Puts a job behind the waiting ones.
    pub fn push(&mut self, job: FeeJob)
        ensures
            final(self)@ == lane_after_push(old(self)@, job@),
    {
        let ghost before = self@;
        self.unsent.push_back(job);
        assert(self@.unsent =~= lane_after_push(before, job@).unsent);
    }
}

/// The connection to which the share of a job goes, if the lane noted one.
pub open spec fn claimed_thread(lane: FeeLaneView, job_id: Seq<char>) -> Option<u64> {
    if lane.sent.contains_key(job_id) {
        Some(lane.sent[job_id])
    } else {
        None
    }
}

/// A lane after a job was taken back: no note of it is left.
pub open spec fn lane_after_claim(lane: FeeLaneView, job_id: Seq<char>) -> FeeLaneView {
    FeeLaneView { sent: lane.sent.remove(job_id), ..lane }
}

/// A lane after its waiting jobs were dropped, if they were stale.
pub open spec fn lane_after_drop(lane: FeeLaneView, stale: bool) -> FeeLaneView {
    if stale {
        FeeLaneView { unsent: seq![], ..lane }
    } else {
        lane
    }
}

/// A lane after a job came in.
pub open spec fn lane_after_push(lane: FeeLaneView, job: FeeJobView) -> FeeLaneView {
    FeeLaneView { unsent: lane.unsent.push(job), ..lane }
}

/// Takes the proxy's fee on a job of the pool, if one is due: the lane's
/// newest job goes to the machine in its place. The result is there if a fee
/// was due and the job's identifier was not noted already.
pub fn fee_job_process<T: ServerRpc>(fee_due: bool, lane: &mut FeeLane, job_rpc: &mut T) -> (r:
    Option<()>)
    ensures
        fee_due ==> final(lane)@ == lane_after_assign(old(lane)@),
        fee_due ==> final(job_rpc).job() == job_after_assign(old(lane)@, old(job_rpc).job()),
        !fee_due ==> *final(lane) == *old(lane),
        !fee_due ==> *final(job_rpc) == *old(job_rpc),
        r is Some <==> fee_due && assigns_fresh(old(lane)@),
{
    if fee_due {
        lane.assign(job_rpc)
    } else {
        None
    }
}

/// Takes the developer's fee on a job of the pool, if one is due, as
/// [`fee_job_process`] takes the proxy's.
pub fn develop_job_process<T: ServerRpc>(
    fee_due: bool,
    lane: &mut FeeLane,
    job_rpc: &mut T,
) -> (r: Option<()>)
    ensures
        fee_due ==> final(lane)@ == lane_after_assign(old(lane)@),
        fee_due ==> final(job_rpc).job() == job_after_assign(old(lane)@, old(job_rpc).job()),
        !fee_due ==> *final(lane) == *old(lane),
        !fee_due ==> *final(job_rpc) == *old(job_rpc),
        r is Some <==> fee_due && assigns_fresh(old(lane)@),
{
    if fee_due {
        lane.assign(job_rpc)
    } else {
        None
    }
}

} // verus!
