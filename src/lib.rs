//! Generation of synthetic radar task-scheduling scenario packs.
//!
//! Every quantity on a scenario timeline (times, lengths) and every cost
//! coefficient is an integer number of ticks; the caller picks how many ticks
//! make one unit.
mod pack;
mod params;
mod random;
mod task;

pub use pack::{
    generate_pack, generate_scenario, generate_scenarios, scenario_fits, scenarios_fit, Scenario,
    ScenarioPack, ABOUT, FORMAT_VERSION, LONG_ABOUT,
};
pub use params::{ParamsError, ScenarioParams};
pub use random::is_random_uuid;
pub use task::{
    generate_task, lemma_drawn_task_fits, lemma_equal_bounds_fix_value, no_cost_window,
    on_timeline, task_fits, task_from_draws, within_bounds, Task,
};
