use crate::params::ScenarioParams;
use crate::random::{is_random_uuid, new_random_uuid};
use crate::task::{generate_task, task_fits, Task};
use vstd::prelude::*;

verus! {

/// The format version that every pack carries.
pub const FORMAT_VERSION: u32 = 0;

/// Short description carried by every pack.
pub const ABOUT: &'static str = "Standardized Radar Task Selection Format for Radar Resource Management";

/// Long description carried by every pack.
pub const LONG_ABOUT: &'static str = "Currently, radar scheduling algorithms are being evaluated on randomly generated tasks, this means that interesting results are at times ephemeral, it is difficult to manually create and evaluate tricky sets of tasks to evaluate algorithms are behaving as expected, comparing performance cross different implementations is difficult, and results are difficult to reproduce. This document contains everything needed to define a radar scenario. It is a ScenarioPack which contains many Scenarios, each Scenario is created with the same random seeds, and contains many Tasks.";

/// One independently generated timeline of tasks.
#[derive(Clone, Debug)]
pub struct Scenario {
    pub scenario_id: u32,
    pub tasks: Vec<Task>,
}

/// The complete output: metadata, the parameters used, and the scenarios.
#[derive(Clone, Debug)]
pub struct ScenarioPack {
    /// A random (version 4) UUID as its big-endian 128-bit value.
    pub pack_id: u128,
    pub version: u32,
    pub about: String,
    pub long_about: String,
    pub scenario_params: ScenarioParams,
    pub scenarios: Vec<Scenario>,
}

/// The scenario has the given id and `task_count` fitting tasks with ids
/// `0..task_count` in order.
pub open spec fn scenario_fits(p: ScenarioParams, s: Scenario, scenario_id: int) -> bool {
    &&& s.scenario_id == scenario_id
    &&& s.tasks@.len() == p.task_count
    &&& forall|j: int|
        0 <= j < s.tasks@.len() ==> #[trigger] s.tasks@[j].task_id == j && task_fits(
            p,
            s.tasks@[j],
        )
}

/// `scenario_count` fitting scenarios with ids `0..scenario_count` in order.
pub open spec fn scenarios_fit(p: ScenarioParams, ss: Seq<Scenario>) -> bool {
    &&& ss.len() == p.scenario_count
    &&& forall|i: int| 0 <= i < ss.len() ==> scenario_fits(p, #[trigger] ss[i], i)
}

/// Generates the tasks `0..task_count` of one scenario.
pub fn generate_scenario(params: &ScenarioParams, scenario_id: u32) -> (s: Scenario)
    requires
        params.valid(),
    ensures
        scenario_fits(*params, s, scenario_id as int),
{
    let mut tasks: Vec<Task> = Vec::new();
    let mut task_id: u32 = 0;
    while task_id < params.task_count
        invariant
            params.valid(),
            task_id <= params.task_count,
            tasks@.len() == task_id,
            forall|j: int|
                0 <= j < tasks@.len() ==> #[trigger] tasks@[j].task_id == j && task_fits(
                    *params,
                    tasks@[j],
                ),
        decreases params.task_count - task_id,
    {
        let t = generate_task(params, task_id);
        tasks.push(t);
        task_id = task_id + 1;
    }
    Scenario { scenario_id, tasks }
}

/// Generates the scenarios `0..scenario_count`.
pub fn generate_scenarios(params: &ScenarioParams) -> (ss: Vec<Scenario>)
    requires
        params.valid(),
    ensures
        scenarios_fit(*params, ss@),
{
    let mut ss: Vec<Scenario> = Vec::new();
    let mut scenario_id: u32 = 0;
    while scenario_id < params.scenario_count
        invariant
            params.valid(),
            scenario_id <= params.scenario_count,
            ss@.len() == scenario_id,
            forall|i: int| 0 <= i < ss@.len() ==> scenario_fits(*params, #[trigger] ss@[i], i),
        decreases params.scenario_count - scenario_id,
    {
        let s = generate_scenario(params, scenario_id);
        ss.push(s);
        scenario_id = scenario_id + 1;
    }
    ss
}

/// Generates a whole pack: a fresh random id, the format version, the two
/// descriptions, the parameters as given, and the scenarios.
pub fn generate_pack(params: ScenarioParams) -> (pack: ScenarioPack)
    requires
        params.valid(),
    ensures
        is_random_uuid(pack.pack_id),
        pack.version == FORMAT_VERSION,
        pack.about@ == ABOUT@,
        pack.long_about@ == LONG_ABOUT@,
        pack.scenario_params == params,
        scenarios_fit(params, pack.scenarios@),
{
    let scenarios = generate_scenarios(&params);
    ScenarioPack {
        pack_id: new_random_uuid(),
        version: FORMAT_VERSION,
        about: ABOUT.to_owned(),
        long_about: LONG_ABOUT.to_owned(),
        scenario_params: params,
        scenarios,
    }
}

} // verus!
