use ssg::watch::{Debouncer, WatchAction, WatchEvent, WatchState};

#[test]
fn new_loop_is_idle() {
    let d = Debouncer::new(100, 5);
    assert_eq!(d.window, 100);
    assert_eq!(d.last_completed, 5);
    assert_eq!(d.state, WatchState::Idle);
}

#[test]
fn change_after_the_window_starts_a_run() {
    let mut d = Debouncer::new(100, 0);
    assert_eq!(d.on_event(WatchEvent::Changed, 100), WatchAction::Generate);
    assert_eq!(d.state, WatchState::Generating);
    d.completed(130);
    assert_eq!(d.state, WatchState::Idle);
    assert_eq!(d.last_completed, 130);
}

#[test]
fn change_within_the_window_is_dropped() {
    let mut d = Debouncer::new(100, 0);
    assert_eq!(d.on_event(WatchEvent::Changed, 99), WatchAction::Drop);
    assert_eq!(d, Debouncer::new(100, 0));
}

#[test]
fn two_close_changes_start_one_run() {
    let mut d = Debouncer::new(100, 0);
    assert_eq!(d.on_event(WatchEvent::Changed, 500), WatchAction::Generate);
    d.completed(520);
    assert_eq!(d.on_event(WatchEvent::Changed, 599), WatchAction::Drop);
    assert_eq!(d.on_event(WatchEvent::Changed, 619), WatchAction::Drop);
    assert_eq!(d.on_event(WatchEvent::Changed, 620), WatchAction::Generate);
}

#[test]
fn dropped_change_is_not_made_up_for() {
    let mut d = Debouncer::new(100, 0);
    assert_eq!(d.on_event(WatchEvent::Changed, 10), WatchAction::Drop);
    assert_eq!(d.last_completed, 0);
    assert_eq!(d.state, WatchState::Idle);
}

#[test]
fn channel_error_is_reported_and_changes_nothing() {
    let mut d = Debouncer::new(100, 0);
    assert_eq!(d.on_event(WatchEvent::Failed, 1000), WatchAction::Report);
    assert_eq!(d, Debouncer::new(100, 0));
}

#[test]
fn no_second_run_while_one_is_in_progress() {
    let mut d = Debouncer::new(0, 0);
    assert_eq!(d.on_event(WatchEvent::Changed, 0), WatchAction::Generate);
    assert_eq!(d.on_event(WatchEvent::Changed, 1000), WatchAction::Drop);
    d.completed(1000);
    assert_eq!(d.on_event(WatchEvent::Changed, 1000), WatchAction::Generate);
}

#[test]
fn clock_that_went_back_counts_as_no_time_passed() {
    let mut d = Debouncer::new(1, 50);
    assert_eq!(d.on_event(WatchEvent::Changed, 10), WatchAction::Drop);
    let mut z = Debouncer::new(0, 50);
    assert_eq!(z.on_event(WatchEvent::Changed, 10), WatchAction::Generate);
}
