use vstd::prelude::*;
use vstd::string::StringExecFns;

verus! {

/// Pomodoro timer phases.
#[derive(Clone, Copy, Debug, PartialEq, Eq, Structural)]
pub enum PomodoroPhase {
    Work,
    ShortBreak,
    LongBreak,
}

impl Default for PomodoroPhase {
    fn default() -> (p: PomodoroPhase)
        ensures
            p is Work,
    {
        PomodoroPhase::Work
    }
}

/// Pomodoro timer status.
#[derive(Clone, Copy, Debug, PartialEq, Eq, Structural)]
pub enum PomodoroStatus {
    Idle,
    Running,
    Paused,
}

impl Default for PomodoroStatus {
    fn default() -> (s: PomodoroStatus)
        ensures
            s is Idle,
    {
        PomodoroStatus::Idle
    }
}

/// Pomodoro timer state: the running phase, its remaining seconds, the
/// session count and the configured durations, all in seconds.
#[derive(Clone, Copy, Debug, PartialEq, Eq, Structural)]
pub struct PomodoroState {
    pub phase: PomodoroPhase,
    pub status: PomodoroStatus,
    pub remaining_secs: u32,
    pub completed_sessions: u32,
    pub work_duration_secs: u32,
    pub short_break_duration_secs: u32,
    pub long_break_duration_secs: u32,
    pub sessions_until_long_break: u32,
}

/// The state after a phase transition: finishing work starts a break — a
/// long one after every `sessions_until_long_break`-th session — and
/// finishing any break starts work.
pub open spec fn transition_spec(s: PomodoroState) -> PomodoroState {
    match s.phase {
        PomodoroPhase::Work => {
            let cs = (s.completed_sessions + 1) as u32;
            if cs as int % s.sessions_until_long_break as int == 0 {
                PomodoroState {
                    phase: PomodoroPhase::LongBreak,
                    remaining_secs: s.long_break_duration_secs,
                    completed_sessions: cs,
                    ..s
                }
            } else {
                PomodoroState {
                    phase: PomodoroPhase::ShortBreak,
                    remaining_secs: s.short_break_duration_secs,
                    completed_sessions: cs,
                    ..s
                }
            }
        },
        _ => PomodoroState {
            phase: PomodoroPhase::Work,
            remaining_secs: s.work_duration_secs,
            ..s
        },
    }
}

/// One second of running time: the countdown falls by one, and reaching
/// zero triggers a phase transition. Yields the new state, and the new
/// phase if a transition happened.
pub open spec fn tick_spec(s: PomodoroState) -> (PomodoroState, Option<PomodoroPhase>) {
    if !(s.status is Running) {
        (s, None)
    } else {
        let rem = if s.remaining_secs > 0 {
            (s.remaining_secs - 1) as u32
        } else {
            s.remaining_secs
        };
        if rem == 0 {
            let t = transition_spec(PomodoroState { remaining_secs: rem, ..s });
            (t, Some(t.phase))
        } else {
            (PomodoroState { remaining_secs: rem, ..s }, None)
        }
    }
}

impl Default for PomodoroState {
    /// The stock timer of [`PomodoroState::new`].
    fn default() -> (s: PomodoroState)
        ensures
            s == PomodoroState::default_spec(),
            s.wf(),
    {
        PomodoroState::new()
    }
}

impl PomodoroState {
    /// The stock timer's state.
    pub open spec fn default_spec() -> PomodoroState {
        PomodoroState {
            phase: PomodoroPhase::Work,
            status: PomodoroStatus::Idle,
            remaining_secs: 1500,
            completed_sessions: 0,
            work_duration_secs: 1500,
            short_break_duration_secs: 300,
            long_break_duration_secs: 900,
            sessions_until_long_break: 4,
        }
    }

    /// Phase transitions compute a remainder by `sessions_until_long_break`,
    /// so that field must never be zero.
    pub open spec fn wf(self) -> bool {
        self.sessions_until_long_break >= 1
    }

    /// The stock timer: 25-minute work sessions, 5-minute short breaks,
    /// 15-minute long breaks, a long break every fourth session.
    pub fn new() -> (s: PomodoroState)
        ensures
            s == PomodoroState::default_spec(),
            s.wf(),
    {
        PomodoroState {
            phase: PomodoroPhase::Work,
            status: PomodoroStatus::Idle,
            remaining_secs: 25 * 60,
            completed_sessions: 0,
            work_duration_secs: 25 * 60,
            short_break_duration_secs: 5 * 60,
            long_break_duration_secs: 15 * 60,
            sessions_until_long_break: 4,
        }
    }

    /// Start or resume the timer.
    pub fn start(&mut self)
        ensures
            *final(self) == (PomodoroState { status: PomodoroStatus::Running, ..*old(self) }),
    {
        self.status = PomodoroStatus::Running;
    }

    /// Pause the timer; pausing anything but a running timer changes nothing.
    pub fn pause(&mut self)
        ensures
            *final(self) == if old(self).status is Running {
                PomodoroState { status: PomodoroStatus::Paused, ..*old(self) }
            } else {
                *old(self)
            },
    {
        if self.status == PomodoroStatus::Running {
            self.status = PomodoroStatus::Paused;
        }
    }

    /// Back to an idle work phase at full duration, with the session count
    /// cleared; the configured durations stay.
    pub fn reset(&mut self)
        ensures
            *final(self) == (PomodoroState {
                phase: PomodoroPhase::Work,
                status: PomodoroStatus::Idle,
                remaining_secs: old(self).work_duration_secs,
                completed_sessions: 0,
                ..*old(self)
            }),
    {
        self.phase = PomodoroPhase::Work;
        self.status = PomodoroStatus::Idle;
        self.remaining_secs = self.work_duration_secs;
        self.completed_sessions = 0;
    }

    /// Skip straight to the next phase.
    pub fn skip_phase(&mut self)
        requires
            old(self).wf(),
            old(self).phase is Work ==> old(self).completed_sessions < u32::MAX,
        ensures
            *final(self) == transition_spec(*old(self)),
    {
        self.transition_to_next_phase();
    }

    /// Count one second of running time; returns the new phase if the
    /// countdown ended and a transition happened.
    pub fn tick(&mut self) -> (r: Option<PomodoroPhase>)
        requires
            old(self).wf(),
            old(self).phase is Work ==> old(self).completed_sessions < u32::MAX,
        ensures
            *final(self) == tick_spec(*old(self)).0,
            r == tick_spec(*old(self)).1,
    {
        if self.status != PomodoroStatus::Running {
            return None;
        }
        if self.remaining_secs > 0 {
            self.remaining_secs = self.remaining_secs - 1;
        }
        if self.remaining_secs == 0 {
            self.transition_to_next_phase();
            Some(self.phase)
        } else {
            None
        }
    }

    /// Move to the phase that follows the current one.
    fn transition_to_next_phase(&mut self)
        requires
            old(self).wf(),
            old(self).phase is Work ==> old(self).completed_sessions < u32::MAX,
        ensures
            *final(self) == transition_spec(*old(self)),
    {
        match self.phase {
            PomodoroPhase::Work => {
                self.completed_sessions = self.completed_sessions + 1;
                if self.completed_sessions % self.sessions_until_long_break == 0 {
                    self.phase = PomodoroPhase::LongBreak;
                    self.remaining_secs = self.long_break_duration_secs;
                } else {
                    self.phase = PomodoroPhase::ShortBreak;
                    self.remaining_secs = self.short_break_duration_secs;
                }
            },
            _ => {
                self.phase = PomodoroPhase::Work;
                self.remaining_secs = self.work_duration_secs;
            },
        }
    }

    /// The remaining time as `MM:SS`, the minutes zero-padded to at least
    /// two digits.
    pub fn formatted_time(&self) -> (r: String)
        ensures
            r@ == time_str_spec(self.remaining_secs as int),
    {
        let minutes: u32 = self.remaining_secs / 60;
        let seconds: u32 = self.remaining_secs % 60;
        let mut out: String = String::new();
        if minutes < 10 {
            out.append(digit_str(0));
        }
        push_dec(minutes, &mut out);
        out.append(colon_str());
        out.append(digit_str(seconds / 10));
        out.append(digit_str(seconds % 10));
        proof {
            assert(out@ =~= time_str_spec(self.remaining_secs as int));
        }
        out
    }

    /// The display name of the current phase.
    pub fn phase_name(&self) -> (r: &'static str)
        ensures
            r@ == phase_name_spec(self.phase),
    {
        match self.phase {
            PomodoroPhase::Work => "Work",
            PomodoroPhase::ShortBreak => "Short Break",
            PomodoroPhase::LongBreak => "Long Break",
        }
    }
}

/// The display name of a phase.
pub open spec fn phase_name_spec(p: PomodoroPhase) -> Seq<char> {
    match p {
        PomodoroPhase::Work => "Work"@,
        PomodoroPhase::ShortBreak => "Short Break"@,
        PomodoroPhase::LongBreak => "Long Break"@,
    }
}

/// The desktop-notification title and body announcing a phase.
pub open spec fn notification_text_spec(p: PomodoroPhase) -> (Seq<char>, Seq<char>) {
    match p {
        PomodoroPhase::Work => ("Back to Work!"@, "Focus time has started."@),
        PomodoroPhase::ShortBreak => ("Short Break"@, "Take a quick breather."@),
        PomodoroPhase::LongBreak => ("Long Break"@, "Great job! Take a longer rest."@),
    }
}

/// The desktop-notification title and body announcing arrival in `phase`.
pub fn notification_text(phase: PomodoroPhase) -> (r: (&'static str, &'static str))
    ensures
        r.0@ == notification_text_spec(phase).0,
        r.1@ == notification_text_spec(phase).1,
{
    match phase {
        PomodoroPhase::Work => ("Back to Work!", "Focus time has started."),
        PomodoroPhase::ShortBreak => ("Short Break", "Take a quick breather."),
        PomodoroPhase::LongBreak => ("Long Break", "Great job! Take a longer rest."),
    }
}

/// The character of a decimal digit.
pub open spec fn digit_seq(d: int) -> Seq<char> {
    if d == 0 {
        seq!['0']
    } else if d == 1 {
        seq!['1']
    } else if d == 2 {
        seq!['2']
    } else if d == 3 {
        seq!['3']
    } else if d == 4 {
        seq!['4']
    } else if d == 5 {
        seq!['5']
    } else if d == 6 {
        seq!['6']
    } else if d == 7 {
        seq!['7']
    } else if d == 8 {
        seq!['8']
    } else {
        seq!['9']
    }
}

/// The decimal digits of `n`, most significant first.
pub open spec fn dec_digits(n: int) -> Seq<char>
    decreases n,
{
    if n < 10 {
        digit_seq(n)
    } else {
        dec_digits(n / 10) + digit_seq(n % 10)
    }
}

/// The decimal digits of `n`, zero-padded on the left to at least two.
pub open spec fn pad2_spec(n: int) -> Seq<char> {
    if n < 10 {
        seq!['0'] + digit_seq(n)
    } else {
        dec_digits(n)
    }
}

/// `total` seconds as `MM:SS`.
pub open spec fn time_str_spec(total: int) -> Seq<char> {
    pad2_spec(total / 60) + seq![':'] + digit_seq(total % 60 / 10) + digit_seq(total % 60 % 10)
}

/// One decimal digit as a string slice.
fn digit_str(d: u32) -> (r: &'static str)
    requires
        d < 10,
    ensures
        r@ == digit_seq(d as int),
{
    let r: &'static str = match d {
        0 => "0",
        1 => "1",
        2 => "2",
        3 => "3",
        4 => "4",
        5 => "5",
        6 => "6",
        7 => "7",
        8 => "8",
        _ => "9",
    };
    proof {
        reveal_strlit("0");
        reveal_strlit("1");
        reveal_strlit("2");
        reveal_strlit("3");
        reveal_strlit("4");
        reveal_strlit("5");
        reveal_strlit("6");
        reveal_strlit("7");
        reveal_strlit("8");
        reveal_strlit("9");
        assert(r@ =~= digit_seq(d as int));
    }
    r
}

/// The separating colon as a string slice.
fn colon_str() -> (r: &'static str)
    ensures
        r@ == seq![':'],
{
    let r: &'static str = ":";
    proof {
        reveal_strlit(":");
        assert(r@ =~= seq![':']);
    }
    r
}

/// Append the decimal digits of `n` to `out`.
fn push_dec(n: u32, out: &mut String)
    ensures
        final(out)@ == old(out)@ + dec_digits(n as int),
    decreases n,
{
    if n < 10 {
        out.append(digit_str(n));
    } else {
        push_dec(n / 10, out);
        out.append(digit_str(n % 10));
        proof {
            assert(out@ =~= old(out)@ + dec_digits(n as int));
        }
    }
}

} // verus!
