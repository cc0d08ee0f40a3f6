use raindesk::pomodoro::{notification_text, PomodoroPhase, PomodoroState, PomodoroStatus};

#[test]
fn new_timer_defaults() {
    let s = PomodoroState::new();
    assert_eq!(s.phase, PomodoroPhase::Work);
    assert_eq!(s.status, PomodoroStatus::Idle);
    assert_eq!(s.remaining_secs, 25 * 60);
    assert_eq!(s.completed_sessions, 0);
    assert_eq!(s.work_duration_secs, 25 * 60);
    assert_eq!(s.short_break_duration_secs, 5 * 60);
    assert_eq!(s.long_break_duration_secs, 15 * 60);
    assert_eq!(s.sessions_until_long_break, 4);
}

#[test]
fn start_and_pause() {
    let mut s = PomodoroState::new();
    s.pause();
    assert_eq!(s.status, PomodoroStatus::Idle);
    s.start();
    assert_eq!(s.status, PomodoroStatus::Running);
    s.pause();
    assert_eq!(s.status, PomodoroStatus::Paused);
    s.start();
    assert_eq!(s.status, PomodoroStatus::Running);
}

#[test]
fn tick_only_counts_while_running() {
    let mut s = PomodoroState::new();
    assert_eq!(s.tick(), None);
    assert_eq!(s.remaining_secs, 1500);
    s.start();
    assert_eq!(s.tick(), None);
    assert_eq!(s.remaining_secs, 1499);
}

#[test]
fn work_session_ends_in_short_break() {
    let mut s = PomodoroState::new();
    s.start();
    s.remaining_secs = 1;
    let r = s.tick();
    assert_eq!(r, Some(PomodoroPhase::ShortBreak));
    assert_eq!(s.phase, PomodoroPhase::ShortBreak);
    assert_eq!(s.remaining_secs, 300);
    assert_eq!(s.completed_sessions, 1);
}

#[test]
fn fourth_work_session_ends_in_long_break() {
    let mut s = PomodoroState::new();
    s.start();
    s.completed_sessions = 3;
    s.remaining_secs = 1;
    let r = s.tick();
    assert_eq!(r, Some(PomodoroPhase::LongBreak));
    assert_eq!(s.remaining_secs, 900);
    assert_eq!(s.completed_sessions, 4);
}

#[test]
fn breaks_end_in_work() {
    let mut s = PomodoroState::new();
    s.start();
    s.phase = PomodoroPhase::ShortBreak;
    s.remaining_secs = 1;
    assert_eq!(s.tick(), Some(PomodoroPhase::Work));
    assert_eq!(s.remaining_secs, s.work_duration_secs);
    s.phase = PomodoroPhase::LongBreak;
    s.remaining_secs = 1;
    assert_eq!(s.tick(), Some(PomodoroPhase::Work));
}

#[test]
fn skip_phase_transitions_immediately() {
    let mut s = PomodoroState::new();
    s.skip_phase();
    assert_eq!(s.phase, PomodoroPhase::ShortBreak);
    assert_eq!(s.completed_sessions, 1);
    s.skip_phase();
    assert_eq!(s.phase, PomodoroPhase::Work);
}

#[test]
fn reset_returns_to_idle_work() {
    let mut s = PomodoroState::new();
    s.start();
    s.skip_phase();
    s.reset();
    assert_eq!(s.phase, PomodoroPhase::Work);
    assert_eq!(s.status, PomodoroStatus::Idle);
    assert_eq!(s.remaining_secs, s.work_duration_secs);
    assert_eq!(s.completed_sessions, 0);
}

#[test]
fn formatted_time_is_zero_padded_mm_ss() {
    let mut s = PomodoroState::new();
    assert_eq!(s.formatted_time(), "25:00");
    s.remaining_secs = 59;
    assert_eq!(s.formatted_time(), "00:59");
    s.remaining_secs = 600;
    assert_eq!(s.formatted_time(), "10:00");
    s.remaining_secs = 3661;
    assert_eq!(s.formatted_time(), "61:01");
    s.remaining_secs = 0;
    assert_eq!(s.formatted_time(), "00:00");
}

#[test]
fn phase_names() {
    let mut s = PomodoroState::new();
    assert_eq!(s.phase_name(), "Work");
    s.phase = PomodoroPhase::ShortBreak;
    assert_eq!(s.phase_name(), "Short Break");
    s.phase = PomodoroPhase::LongBreak;
    assert_eq!(s.phase_name(), "Long Break");
}

#[test]
fn notification_texts_follow_the_phase() {
    assert_eq!(
        notification_text(PomodoroPhase::Work),
        ("Back to Work!", "Focus time has started.")
    );
    assert_eq!(
        notification_text(PomodoroPhase::ShortBreak),
        ("Short Break", "Take a quick breather.")
    );
    assert_eq!(
        notification_text(PomodoroPhase::LongBreak),
        ("Long Break", "Great job! Take a longer rest.")
    );
}
