use crate::params::ScenarioParams;
use crate::random::draw_between;
use vstd::prelude::*;

verus! {

/// One schedulable unit of a scenario.
#[derive(Clone, Copy, Debug, PartialEq, Eq)]
pub struct Task {
    pub task_id: u32,
    pub length: i64,
    pub earliest_time: i64,
    pub no_cost_time: i64,
    pub latest_time: i64,
    pub tardiness_cost: i64,
    pub drop_cost: i64,
}

/// The task's window lies on the timeline in order, and the task can run to
/// completion from its no-cost time before the timeline ends.
pub open spec fn on_timeline(p: ScenarioParams, t: Task) -> bool {
    &&& p.start_time <= t.earliest_time
    &&& t.earliest_time <= t.no_cost_time
    &&& t.no_cost_time <= t.latest_time
    &&& t.latest_time <= p.end_time
    &&& t.no_cost_time + t.length <= p.end_time
}

/// The task's length and costs lie within their bounds.
pub open spec fn within_bounds(p: ScenarioParams, t: Task) -> bool {
    &&& p.min_task_length <= t.length <= p.max_task_length
    &&& p.min_tardiness_cost <= t.tardiness_cost <= p.max_tardiness_cost
    &&& p.min_drop_cost <= t.drop_cost <= p.max_drop_cost
}

/// Everything a generated task satisfies.
pub open spec fn task_fits(p: ScenarioParams, t: Task) -> bool {
    &&& on_timeline(p, t)
    &&& within_bounds(p, t)
    &&& p.earliest_time_is_no_cost ==> t.earliest_time == t.no_cost_time
}

/// The interval from which the no-cost time of a task of this length is drawn:
/// it ends at the last point from which the task still finishes in time.
pub fn no_cost_window(params: &ScenarioParams, length: i64) -> (r: (i64, i64))
    requires
        params.valid(),
        params.min_task_length <= length <= params.max_task_length,
    ensures
        r.0 == params.start_time,
        r.1 == params.end_time - length,
        r.0 <= r.1,
{
    (params.start_time, params.end_time - length)
}

/// Builds a task from values drawn for it. The earliest time is the no-cost
/// time when the parameters say so, and the drawn earliest time otherwise.
pub fn task_from_draws(
    params: &ScenarioParams,
    task_id: u32,
    length: i64,
    no_cost_time: i64,
    earliest_draw: i64,
    latest_time: i64,
    tardiness_cost: i64,
    drop_cost: i64,
) -> (t: Task)
    ensures
        t.task_id == task_id,
        t.length == length,
        t.no_cost_time == no_cost_time,
        t.earliest_time == (if params.earliest_time_is_no_cost {
            no_cost_time
        } else {
            earliest_draw
        }),
        t.latest_time == latest_time,
        t.tardiness_cost == tardiness_cost,
        t.drop_cost == drop_cost,
{
    let earliest_time = if params.earliest_time_is_no_cost {
        no_cost_time
    } else {
        earliest_draw
    };
    Task {
        task_id,
        length,
        earliest_time,
        no_cost_time,
        latest_time,
        tardiness_cost,
        drop_cost,
    }
}

/// Draws taken each from the interval that the earlier draws leave give a task
/// that fits the parameters.
pub proof fn lemma_drawn_task_fits(
    p: ScenarioParams,
    task_id: u32,
    length: i64,
    no_cost_time: i64,
    earliest_draw: i64,
    latest_time: i64,
    tardiness_cost: i64,
    drop_cost: i64,
)
    requires
        p.valid(),
        p.min_task_length <= length <= p.max_task_length,
        p.start_time <= no_cost_time <= p.end_time - length,
        p.start_time <= earliest_draw <= no_cost_time,
        no_cost_time <= latest_time <= p.end_time,
        p.min_tardiness_cost <= tardiness_cost <= p.max_tardiness_cost,
        p.min_drop_cost <= drop_cost <= p.max_drop_cost,
    ensures
        task_fits(
            p,
            Task {
                task_id,
                length,
                earliest_time: if p.earliest_time_is_no_cost {
                    no_cost_time
                } else {
                    earliest_draw
                },
                no_cost_time,
                latest_time,
                tardiness_cost,
                drop_cost,
            },
        ),
{
}

/// Where a lower and an upper bound coincide, every fitting task holds
/// exactly that value.
pub proof fn lemma_equal_bounds_fix_value(p: ScenarioParams, t: Task)
    requires
        task_fits(p, t),
    ensures
        p.min_task_length == p.max_task_length ==> t.length == p.min_task_length,
        p.min_tardiness_cost == p.max_tardiness_cost ==> t.tardiness_cost
            == p.min_tardiness_cost,
        p.min_drop_cost == p.max_drop_cost ==> t.drop_cost == p.min_drop_cost,
{
}

/// Generates one task: its length, then its no-cost time, then (unless it is
/// the no-cost time) its earliest time, then its latest time, then its costs,
/// each drawn uniformly from the closed interval that the earlier draws leave.
pub fn generate_task(params: &ScenarioParams, task_id: u32) -> (t: Task)
    requires
        params.valid(),
    ensures
        t.task_id == task_id,
        task_fits(*params, t),
{
    let length = draw_between(params.min_task_length, params.max_task_length);
    let (lo, hi) = no_cost_window(params, length);
    let no_cost_time = draw_between(lo, hi);
    let earliest_draw = if params.earliest_time_is_no_cost {
        no_cost_time
    } else {
        draw_between(params.start_time, no_cost_time)
    };
    let latest_time = draw_between(no_cost_time, params.end_time);
    let tardiness_cost = draw_between(params.min_tardiness_cost, params.max_tardiness_cost);
    let drop_cost = draw_between(params.min_drop_cost, params.max_drop_cost);
    proof {
        lemma_drawn_task_fits(
            *params,
            task_id,
            length,
            no_cost_time,
            earliest_draw,
            latest_time,
            tardiness_cost,
            drop_cost,
        );
    }
    task_from_draws(
        params,
        task_id,
        length,
        no_cost_time,
        earliest_draw,
        latest_time,
        tardiness_cost,
        drop_cost,
    )
}

} // verus!
