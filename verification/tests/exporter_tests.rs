use purple_exporter::purple_exporter::{
    render_reading, MetricsStore, Scheduler, SchedulerAction, SchedulerEvent, SchedulerState,
};
use purple_exporter::purple_reading::PurpleReading;

fn sample() -> PurpleReading {
    PurpleReading {
        atmo_sen_a: vec![55000, 70000, 1012000],
        pm_sen_a: vec![1200, 2500, 10100],
        pm_sen_b: vec![1234, 1230, 1023],
        ct_sen_a: vec![0, -1000, 100000, 70000, 60000, 50000],
        ct_sen_b: vec![101000, 91000, 81000, 71000, 61000, 51000],
    }
}

const SAMPLE_TEXT: &str = "purple_humidity 55\n\
purple_temperature_f 70\n\
purple_pressure 1012\n\
purple_pm1_0_atm_a 1.2\n\
purple_pm2_5_atm_a 2.5\n\
purple_pm10_0_atm_a 10.1\n\
purple_pm1_0_atm_b 1.234\n\
purple_pm2_5_atm_b 1.23\n\
purple_pm10_0_atm_b 1.023\n\
purple_p_0_3_um_a 0\n\
purple_p_0_5_um_a -1\n\
purple_p_1_0_um_a 100\n\
purple_p_2_5_um_a 70\n\
purple_p_5_0_um_a 60\n\
purple_p_10_0_um_a 50\n\
purple_p_0_3_um_b 101\n\
purple_p_0_5_um_b 91\n\
purple_p_1_0_um_b 81\n\
purple_p_2_5_um_b 71\n\
purple_p_5_0_um_b 61\n\
purple_p_10_0_um_b 51\n";

#[test]
fn render_before_any_commit_is_empty() {
    let store = MetricsStore::new();
    assert_eq!(store.render(), "");
}

#[test]
fn commit_then_render_shows_the_whole_reading() {
    let mut store = MetricsStore::new();
    store.commit(sample());
    assert_eq!(store.render(), SAMPLE_TEXT);
}

#[test]
fn second_commit_replaces_the_snapshot_whole() {
    let mut store = MetricsStore::new();
    store.commit(PurpleReading {
        atmo_sen_a: vec![1000, 2000, 3000],
        pm_sen_a: vec![-1000; 3],
        pm_sen_b: vec![-1000; 3],
        ct_sen_a: vec![-1000; 6],
        ct_sen_b: vec![-1000; 6],
    });
    store.commit(sample());
    assert_eq!(store.render(), SAMPLE_TEXT);
}

#[test]
fn render_reading_matches_store_render() {
    let mut store = MetricsStore::new();
    store.commit(sample());
    assert_eq!(render_reading(&sample()), store.render());
}

#[test]
fn scheduler_clamps_low_interval() {
    let s = Scheduler::new(60);
    assert_eq!(s.interval, 300);
    assert_eq!(s.state, SchedulerState::Idle);
}

#[test]
fn scheduler_keeps_high_interval() {
    let s = Scheduler::new(900);
    assert_eq!(s.interval, 900);
}

#[test]
fn scheduler_cycle_transitions() {
    let mut s = Scheduler::new(60);
    assert_eq!(s.step(SchedulerEvent::IntervalElapsed), SchedulerAction::StartCycle);
    assert_eq!(s.state, SchedulerState::Polling);
    assert_eq!(s.step(SchedulerEvent::CycleComplete), SchedulerAction::Wait(300));
    assert_eq!(s.state, SchedulerState::Idle);
}

#[test]
fn scheduler_holds_on_mismatched_events() {
    let mut s = Scheduler::new(600);
    assert_eq!(s.step(SchedulerEvent::CycleComplete), SchedulerAction::Hold);
    assert_eq!(s.state, SchedulerState::Idle);
    s.step(SchedulerEvent::IntervalElapsed);
    assert_eq!(s.step(SchedulerEvent::IntervalElapsed), SchedulerAction::Hold);
    assert_eq!(s.state, SchedulerState::Polling);
}
