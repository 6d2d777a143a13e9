//! What holds of the fees that are drawn for.

use crate::fee::{FeeJobView, FeeLaneView};
use crate::fee;
use crate::protocol::JobView;
use vstd::prelude::*;
use vstd::set_lib::*;

verus! {

/// The numbers that can be drawn and fall under a fee.
pub open spec fn hitting_draws(permille: u32) -> Set<int> {
    Set::new(|draw: int| 1 <= draw < fee::DRAW_BOUND && fee::draw_hits(draw as u32, permille))
}

/// Of the numbers that can be drawn, as many fall under a fee as its rate says;
/// only for the whole there is one too few to draw, and then all of them do.
pub proof fn law_rate_is_kept(permille: u32)
    requires
        permille <= fee::DRAW_BOUND,
    ensures
        hitting_draws(permille).finite(),
        hitting_draws(permille).len() == (if permille == fee::DRAW_BOUND {
            permille - 1
        } else {
            permille as int
        }),
{
    let low: int = if permille == fee::DRAW_BOUND {
        1
    } else {
        fee::DRAW_BOUND - permille
    };
    assert(hitting_draws(permille) =~= set_int_range(low, fee::DRAW_BOUND as int));
    lemma_int_range(low, fee::DRAW_BOUND as int);
}

/// A rate of nothing takes no share, and the whole takes every share, whatever
/// is drawn.
pub proof fn law_nothing_and_everything(draw: u32)
    requires
        1 <= draw < fee::DRAW_BOUND,
    ensures
        !fee::draw_hits(draw, 0),
        fee::draw_hits(draw, fee::DRAW_BOUND),
{
}

/// A higher rate takes every share that a lower one takes.
pub proof fn law_higher_rates_take_more(draw: u32, low: u32, high: u32)
    requires
        low <= high <= fee::DRAW_BOUND,
        fee::draw_hits(draw, low),
    ensures
        fee::draw_hits(draw, high),
{
}

/// A draw falls under a fee exactly when the number and the rate, in
/// thousandths, come to a thousand or more.
pub proof fn law_draws_and_rates_come_to_a_thousand(draw: u32, permille: u32)
    ensures
        fee::draw_hits(draw, permille) <==> draw + permille >= 1000,
{
}

/// What a lane does with its jobs. A job that comes in goes behind the waiting
/// ones; stale ones are all dropped, and others none; a job that is taken back
/// takes its own note with it and no other. What waits does not change what is
/// noted, nor the other way round.
pub proof fn law_lanes_keep_their_jobs(
    lane: FeeLaneView,
    job: FeeJobView,
    id: Seq<char>,
    other: Seq<char>,
)
    requires
        id != other,
    ensures
        ({
            let pushed = fee::lane_after_push(lane, job);
            let claimed = fee::lane_after_claim(lane, id);
            let stale = fee::lane_after_drop(lane, true);
            &&& pushed.unsent.len() == lane.unsent.len() + 1
            &&& pushed.unsent.last() == job
            &&& pushed.unsent.drop_last() == lane.unsent
            &&& pushed.sent == lane.sent
            &&& fee::lane_after_drop(lane, false) == lane
            &&& stale.unsent.len() == 0
            &&& stale.sent == lane.sent
            &&& claimed.unsent == lane.unsent
            &&& !claimed.sent.contains_key(id)
            &&& claimed.sent.contains_key(other) == lane.sent.contains_key(other)
            &&& lane.sent.contains_key(other) ==> claimed.sent[other] == lane.sent[other]
            &&& lane.sent.contains_key(id) ==> fee::claimed_thread(lane, id) == Some(
                lane.sent[id],
            )
            &&& !lane.sent.contains_key(id) ==> fee::claimed_thread(lane, id) is None
        }),
{
    assert(lane.unsent.push(job).drop_last() =~= lane.unsent);
}

/// A lane that slips a job under the pool's gives its newest, and notes its
/// connection under its name; the job counts as fresh if no job of that name
/// was noted. A lane in which nothing waits does nothing.
pub proof fn law_lanes_give_their_newest(lane: FeeLaneView, job: JobView)
    ensures
        ({
            let after = fee::lane_after_assign(lane);
            let given = fee::job_after_assign(lane, job);
            let newest = lane.unsent.last();
            &&& given.id == job.id
            &&& given.form == job.form
            &&& if lane.unsent.len() == 0 {
                &&& after == lane
                &&& given.result == job.result
                &&& !fee::assigns_fresh(lane)
            } else {
                &&& given.result == newest.rpc.result
                &&& after.unsent.push(newest) == lane.unsent
                &&& after.sent == lane.sent.insert(newest.job_id, newest.thread_id)
                &&& fee::assigns_fresh(lane) <==> !lane.sent.contains_key(newest.job_id)
            }
        }),
{
    if lane.unsent.len() > 0 {
        assert(lane.unsent.drop_last().push(lane.unsent.last()) =~= lane.unsent);
    }
}

/// A job that comes in and is given out at once is given out as it came, and
/// the lane is as before but for its note; taking it back by its name then
/// gives its connection.
pub proof fn law_what_comes_in_goes_out(lane: FeeLaneView, job: FeeJobView, pools: JobView)
    ensures
        ({
            let pushed = fee::lane_after_push(lane, job);
            let given = fee::lane_after_assign(pushed);
            &&& fee::job_after_assign(pushed, pools).result == job.rpc.result
            &&& given.unsent == lane.unsent
            &&& fee::claimed_thread(given, job.job_id) == Some(job.thread_id)
            &&& !lane.sent.contains_key(job.job_id) ==> fee::lane_after_claim(given, job.job_id)
                == lane
        }),
{
    let given = fee::lane_after_assign(fee::lane_after_push(lane, job));
    assert(given.unsent =~= lane.unsent);
    if !lane.sent.contains_key(job.job_id) {
        assert(given.sent.remove(job.job_id) =~= lane.sent);
    }
}

} // verus!
