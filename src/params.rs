use vstd::prelude::*;

verus! {

/// Global bounds for generating a scenario pack.
#[derive(Clone, Copy, Debug, PartialEq, Eq)]
pub struct ScenarioParams {
    pub scenario_count: u32,
    pub task_count: u32,
    pub start_time: i64,
    pub end_time: i64,
    pub min_task_length: i64,
    pub max_task_length: i64,
    pub min_tardiness_cost: i64,
    pub max_tardiness_cost: i64,
    pub min_drop_cost: i64,
    pub max_drop_cost: i64,
    pub earliest_time_is_no_cost: bool,
}

/// Why a set of parameters leaves some sampling interval empty or inverted.
#[derive(Clone, Copy, Debug, PartialEq, Eq)]
pub enum ParamsError {
    /// `start_time` is not before `end_time`.
    EmptyTimeline,
    /// A lower bound of a length or a cost is negative.
    NegativeBound,
    /// `min_task_length` exceeds `max_task_length`.
    TaskLengthBounds,
    /// `min_tardiness_cost` exceeds `max_tardiness_cost`.
    TardinessCostBounds,
    /// `min_drop_cost` exceeds `max_drop_cost`.
    DropCostBounds,
    /// The longest task does not fit between `start_time` and `end_time`.
    TaskLongerThanTimeline,
}

impl ScenarioParams {
    /// The first problem found in the parameters, if any, in the order in
    /// which `check` looks for them.
    pub open spec fn first_error(self) -> Option<ParamsError> {
        if self.start_time >= self.end_time {
            Some(ParamsError::EmptyTimeline)
        } else if self.min_task_length < 0 || self.min_tardiness_cost < 0 || self.min_drop_cost
            < 0 {
            Some(ParamsError::NegativeBound)
        } else if self.min_task_length > self.max_task_length {
            Some(ParamsError::TaskLengthBounds)
        } else if self.min_tardiness_cost > self.max_tardiness_cost {
            Some(ParamsError::TardinessCostBounds)
        } else if self.min_drop_cost > self.max_drop_cost {
            Some(ParamsError::DropCostBounds)
        } else if self.max_task_length > self.end_time - self.start_time {
            Some(ParamsError::TaskLongerThanTimeline)
        } else {
            None
        }
    }

    /// Every sampling interval that generation may use is non-empty.
    pub open spec fn valid(self) -> bool {
        &&& self.start_time < self.end_time
        &&& 0 <= self.min_task_length <= self.max_task_length
        &&& self.max_task_length <= self.end_time - self.start_time
        &&& 0 <= self.min_tardiness_cost <= self.max_tardiness_cost
        &&& 0 <= self.min_drop_cost <= self.max_drop_cost
    }

    /// Checks the parameters up front, so that generation never samples from
    /// an empty or inverted interval.
    pub fn check(&self) -> (r: Result<(), ParamsError>)
        ensures
            r is Ok <==> self.valid(),
            r is Ok <==> self.first_error() is None,
            r is Err ==> self.first_error() == Some(r->Err_0),
    {
        if self.start_time >= self.end_time {
            return Err(ParamsError::EmptyTimeline);
        }
        if self.min_task_length < 0 || self.min_tardiness_cost < 0 || self.min_drop_cost < 0 {
            return Err(ParamsError::NegativeBound);
        }
        if self.min_task_length > self.max_task_length {
            return Err(ParamsError::TaskLengthBounds);
        }
        if self.min_tardiness_cost > self.max_tardiness_cost {
            return Err(ParamsError::TardinessCostBounds);
        }
        if self.min_drop_cost > self.max_drop_cost {
            return Err(ParamsError::DropCostBounds);
        }
        let span: i128 = self.end_time as i128 - self.start_time as i128;
        if self.max_task_length as i128 > span {
            return Err(ParamsError::TaskLongerThanTimeline);
        }
        Ok(())
    }
}

} // verus!
