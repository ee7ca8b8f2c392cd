use surface_lib::pipeline::{
    accept_refinement, plan_global_search, AdaptiveSchedule, GlobalSearchPlan,
};
use surface_lib::{svi_param_count, svi_param_names};
use surface_lib::config::{default_max_gen, default_max_iterations, default_pop_size};

#[test]
fn test_plan_global_search() {
    assert_eq!(plan_global_search(false, false), GlobalSearchPlan::FullSearch);
    assert_eq!(plan_global_search(false, true), GlobalSearchPlan::FullSearch);
    assert_eq!(plan_global_search(true, true), GlobalSearchPlan::MiniSearch);
    assert_eq!(plan_global_search(true, false), GlobalSearchPlan::UseGuess);
}

#[test]
fn test_accept_refinement() {
    assert!(accept_refinement(true, true));
    assert!(!accept_refinement(true, false));
    assert!(!accept_refinement(false, true));
    assert!(!accept_refinement(false, false));
}

#[test]
fn test_adaptive_schedule_disabled_runs_once() {
    let mut schedule = AdaptiveSchedule::new(false, 3);
    assert!(schedule.should_run());
    schedule.record_run(true);
    assert_eq!(schedule.runs_done, 1);
    assert!(!schedule.should_run());
}

#[test]
fn test_adaptive_schedule_stops_when_nothing_moved() {
    let mut schedule = AdaptiveSchedule::new(true, 5);
    schedule.record_run(true);
    assert!(schedule.should_run());
    schedule.record_run(false);
    assert!(schedule.stopped_early);
    assert!(!schedule.should_run());
    assert_eq!(schedule.runs_done, 2);
}

#[test]
fn test_adaptive_schedule_respects_cap() {
    let mut schedule = AdaptiveSchedule::new(true, 3);
    let mut runs: usize = 0;
    while schedule.should_run() {
        schedule.record_run(true); // bounds keep moving
        runs += 1;
    }
    assert_eq!(runs, 3);
}

#[test]
fn test_adaptive_schedule_zero_cap() {
    let schedule = AdaptiveSchedule::new(true, 0);
    assert!(!schedule.should_run());
}

#[test]
fn test_svi_parameter_facts() {
    assert_eq!(svi_param_count(), 5);
    assert_eq!(svi_param_names(), vec!["a", "b", "rho", "m", "sigma"]);
}

#[test]
fn test_config_defaults() {
    assert_eq!(default_max_iterations(), 5000);
    assert_eq!(default_pop_size(), 50);
    assert_eq!(default_max_gen(), 100);
}
