use everygarf::date::Date;
use everygarf::retry::Attempts;
use everygarf::state::{State, Status, Update, UpdateSuccess, UpdateWarning};

fn day(d: u32) -> Date {
    Date::new(2020, 1, d).unwrap()
}

fn saved(d: u32) -> Update {
    Update::Success(UpdateSuccess::SaveImage { date: day(d) })
}

#[test]
fn new_state_waits_for_proxy() {
    let state = State::new(3);
    assert_eq!(state.status(), Status::PingProxy);
    assert_eq!(state.completed_units(), 0);
    assert_eq!(state.total_units(), 3);
    assert!(state.latest_success().is_none());
    assert!(state.latest_warning().is_none());
}

#[test]
fn milestones_move_status_forward() {
    let mut state = State::new(1);
    state.update(Update::Success(UpdateSuccess::ProxyPing));
    assert_eq!(state.status(), Status::FetchCache);
    state.update(Update::Success(UpdateSuccess::FetchCache));
    assert_eq!(state.status(), Status::Working);
    state.update(Update::Success(UpdateSuccess::ProxyPing));
    assert_eq!(state.status(), Status::Working);
    state.update(Update::Success(UpdateSuccess::Complete));
    assert_eq!(state.status(), Status::Complete);
    state.update(Update::Success(UpdateSuccess::FetchCache));
    assert_eq!(state.status(), Status::Complete);
}

#[test]
fn failed_state_stays_failed_and_clears_success() {
    let mut state = State::new(2);
    state.update(Update::Success(UpdateSuccess::ProxyPing));
    assert!(state.latest_success().is_some());
    state.set_failed();
    assert_eq!(state.status(), Status::Failed);
    assert!(state.latest_success().is_none());
    state.update(Update::Success(UpdateSuccess::FetchCache));
    state.update(Update::Success(UpdateSuccess::Complete));
    state.update(saved(1));
    assert_eq!(state.status(), Status::Failed);
    assert!(state.latest_success().is_none());
    assert_eq!(state.completed_units(), 0);
}

#[test]
fn saved_items_count_only_while_working_and_up_to_total() {
    let mut state = State::new(2);
    state.update(saved(1));
    assert_eq!(state.completed_units(), 0);
    state.update(Update::Success(UpdateSuccess::ProxyPing));
    state.update(Update::Success(UpdateSuccess::FetchCache));
    state.update(saved(1));
    assert_eq!(state.completed_units(), 1);
    state.update(Update::Success(UpdateSuccess::FetchUrl { date: day(2) }));
    state.update(Update::Success(UpdateSuccess::FetchImage { date: day(2) }));
    assert_eq!(state.completed_units(), 1);
    state.update(saved(2));
    state.update(saved(3));
    state.update(saved(4));
    assert_eq!(state.completed_units(), 2);
    assert_eq!(state.latest_success(), Some(UpdateSuccess::SaveImage { date: day(4) }));
}

#[test]
fn completed_count_never_decreases_or_passes_total() {
    let mut state = State::new(3);
    state.skip_disabled_stages(false, false);
    let mut last = 0;
    for i in 0..10u32 {
        let update = if i % 3 == 0 {
            Update::Warning(UpdateWarning::FetchImage { attempt: 0, date: day(i + 1) })
        } else {
            saved(i + 1)
        };
        state.update(update);
        assert!(state.completed_units() >= last);
        assert!(state.completed_units() <= state.total_units());
        last = state.completed_units();
    }
    assert_eq!(last, 3);
}

#[test]
fn warnings_change_only_the_latest_warning() {
    let mut state = State::new(1);
    let warning = UpdateWarning::FetchUrl { attempt: 2, date: day(5) };
    state.update(Update::Warning(warning));
    assert_eq!(state.latest_warning(), Some(warning));
    assert_eq!(state.status(), Status::PingProxy);
    assert!(state.latest_success().is_none());
}

#[test]
fn disabled_stages_are_skipped() {
    let mut state = State::new(1);
    state.skip_disabled_stages(true, false);
    assert_eq!(state.status(), Status::PingProxy);
    state.update(Update::Success(UpdateSuccess::ProxyPing));
    state.skip_disabled_stages(true, false);
    assert_eq!(state.status(), Status::Working);

    let mut state = State::new(1);
    state.skip_disabled_stages(false, true);
    assert_eq!(state.status(), Status::FetchCache);

    let mut state = State::new(1);
    state.skip_disabled_stages(false, false);
    assert_eq!(state.status(), Status::Working);
}

#[test]
fn first_draw_is_recorded_once() {
    let mut state = State::new(1);
    assert!(state.record_draw());
    assert!(!state.record_draw());
    assert!(!state.record_draw());
}

#[test]
fn progress_bar_fill() {
    let mut state = State::new(3);
    assert_eq!(state.bar_fill(40), 0);
    state.skip_disabled_stages(false, false);
    state.update(saved(1));
    assert_eq!(state.bar_fill(40), 13);
    state.update(saved(2));
    assert_eq!(state.bar_fill(40), 26);
    state.update(saved(3));
    assert_eq!(state.bar_fill(40), 40);
    assert_eq!(State::new(0).bar_fill(40), 40);
}

#[test]
fn retries_follow_the_budget() {
    let mut attempts = Attempts::new(2);
    assert_eq!(attempts.fail(), Some(0));
    assert_eq!(attempts.fail(), Some(1));
    assert_eq!(attempts.fail(), None);
    assert_eq!(attempts.fail(), None);
}

/// Runs an operation that fails `k` times, then succeeds, under a budget of
/// `max_attempts`: the warnings it sent and whether it succeeded.
fn run_retry(max_attempts: usize, k: usize) -> (Vec<usize>, bool) {
    let mut attempts = Attempts::new(max_attempts);
    let mut warnings = Vec::new();
    let mut tried = 0;
    loop {
        let ok = tried >= k;
        tried += 1;
        if ok {
            return (warnings, true);
        }
        match attempts.fail() {
            Some(i) => warnings.push(i),
            None => return (warnings, false),
        }
    }
}

#[test]
fn retry_outcome_for_failures_within_and_beyond_budget() {
    assert_eq!(run_retry(3, 0), (vec![], true));
    assert_eq!(run_retry(3, 2), (vec![0, 1], true));
    assert_eq!(run_retry(3, 3), (vec![0, 1, 2], true));
    assert_eq!(run_retry(3, 4), (vec![0, 1, 2], false));
    assert_eq!(run_retry(1, 1), (vec![0], true));
    assert_eq!(run_retry(1, 5), (vec![0], false));
}

#[test]
fn milestones_take_only_their_own_step() {
    let mut state = State::new(1);
    state.update(Update::Success(UpdateSuccess::FetchCache));
    assert_eq!(state.status(), Status::PingProxy);
    state.update(Update::Success(UpdateSuccess::Complete));
    assert_eq!(state.status(), Status::PingProxy);
    state.update(Update::Success(UpdateSuccess::ProxyPing));
    assert_eq!(state.status(), Status::FetchCache);
    state.update(Update::Success(UpdateSuccess::Complete));
    assert_eq!(state.status(), Status::FetchCache);
    state.update(Update::Success(UpdateSuccess::ProxyPing));
    assert_eq!(state.status(), Status::FetchCache);
    state.update(Update::Success(UpdateSuccess::FetchCache));
    assert_eq!(state.status(), Status::Working);
    state.update(Update::Success(UpdateSuccess::FetchCache));
    assert_eq!(state.status(), Status::Working);
}
