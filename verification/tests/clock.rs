use loghours::loopstate::{Command, Phase};
use loghours::state::{to_reading, LogCommand, LogState};

fn wait_millis(millis: u64) {
    let begin = std::time::Instant::now();
    while begin.elapsed() < std::time::Duration::from_millis(millis) {
        std::hint::spin_loop();
    }
}

#[test]
fn clock_timer_starts_idle() {
    let state = LogState::new();
    assert!(!state.is_running());
    assert!(!state.is_paused());
    assert_eq!(state.total_elapsed(), 0);
    assert_eq!(state.get_total_minutes(), 0);
}

#[test]
fn clock_timer_toggle_while_idle_is_ignored() {
    let mut state = LogState::new();
    state.toggle_pause();
    assert!(!state.is_running());
    assert_eq!(state.total_elapsed(), 0);
}

#[test]
fn clock_timer_counts_real_time() {
    let mut state = LogState::new();
    state.start();
    wait_millis(20);
    state.pause();
    assert!(state.is_running());
    assert!(state.is_paused());
    let banked = state.total_elapsed();
    assert!(banked >= 20_000_000);
    wait_millis(5);
    state.pause();
    assert_eq!(state.total_elapsed(), banked);
    state.resume();
    assert!(!state.is_paused());
    wait_millis(5);
    state.quit();
    let total = state.total_elapsed();
    assert!(total >= banked + 5_000_000);
    state.quit();
    assert_eq!(state.total_elapsed(), total);
    assert!(!state.is_running());
    assert_eq!(state.get_total_minutes(), 0);
}

#[test]
fn clock_timer_reads_without_banking() {
    let mut state = LogState::new();
    state.apply(Command::Start);
    let first = state.total_elapsed();
    let second = state.total_elapsed();
    assert!(second >= first);
    state.apply(Command::Quit);
    let last = state.total_elapsed();
    assert!(last >= second);
    assert!(last < 36_000_000_000);
}

#[test]
fn clock_timer_goes_through_its_phases() {
    let mut state = LogState::new();
    assert_eq!(state.phase(), Phase::Idle);
    state.pause();
    state.resume();
    assert_eq!(state.phase(), Phase::Idle);
    state.start();
    assert_eq!(state.phase(), Phase::Active);
    state.start();
    state.resume();
    assert_eq!(state.phase(), Phase::Active);
    state.toggle_pause();
    assert_eq!(state.phase(), Phase::Paused);
    state.toggle_pause();
    assert_eq!(state.phase(), Phase::Active);
    state.apply(LogCommand::Pause);
    assert_eq!(state.phase(), Phase::Paused);
    state.quit();
    assert_eq!(state.phase(), Phase::Stopped);
    state.start();
    state.toggle_pause();
    assert_eq!(state.phase(), Phase::Stopped);
}

#[test]
fn readings_hold_at_the_largest_number() {
    assert_eq!(to_reading(0), 0);
    assert_eq!(to_reading(5), 5);
    assert_eq!(to_reading(36_000_000_000), 36_000_000_000);
    assert_eq!(to_reading(u64::MAX as u128 - 1), u64::MAX - 1);
    assert_eq!(to_reading(u64::MAX as u128), u64::MAX);
    assert_eq!(to_reading(u64::MAX as u128 + 1), u64::MAX);
    assert_eq!(to_reading(u128::MAX), u64::MAX);
}
