//! The work/break cycle state machine.

use crate::config::Config;
use crate::text::{decimal, decimal_padded, decimal_padded_string, decimal_string};
use vstd::prelude::*;

verus! {

/// Work phases that make up one session; the last is followed by a long break.
pub const WORK_PHASES_PER_SESSION: u8 = 4;

pub const SECS_PER_MINUTE: u64 = 60;

/// The current phase of the pomodoro cycle
#[derive(Debug, Clone, Copy, PartialEq, Eq, Structural)]
pub enum Phase {
    Work,
    ShortBreak,
    LongBreak,
}

/// What a step of the timer completed
#[derive(Debug, Clone, Copy, PartialEq, Eq, Structural)]
pub enum Transition {
    /// No transition occurred
    Unchanged,
    /// Work phase completed, transitioned to break
    WorkComplete,
    /// Break phase completed, transitioned to work
    BreakComplete,
}

impl Phase {
    pub open spec fn spec_is_break(self) -> bool {
        self != Phase::Work
    }

    #[verifier::when_used_as_spec(spec_is_break)]
    pub fn is_break(self) -> (b: bool)
        ensures
            b == self.spec_is_break(),
    {
        match self {
            Phase::Work => false,
            Phase::ShortBreak => true,
            Phase::LongBreak => true,
        }
    }
}

/// The mathematical state of a timer: what every contract of [`Timer`] speaks of.
pub struct TimerState {
    pub phase: Phase,
    /// seconds elapsed in the current phase
    pub elapsed: nat,
    /// configured durations, in seconds
    pub work: nat,
    pub short_break: nat,
    pub long_break: nat,
    /// work phases completed since the last long break
    pub iterations: nat,
    /// long breaks completed
    pub sessions: nat,
    pub running: bool,
    pub auto_start_work: bool,
    pub auto_start_break: bool,
}

impl TimerState {
    /// The state a timer is built in: at the start of a paused work phase.
    pub open spec fn initial(
        work_mins: nat,
        short_break_mins: nat,
        long_break_mins: nat,
        auto_start_work: bool,
        auto_start_break: bool,
    ) -> TimerState {
        TimerState {
            phase: Phase::Work,
            elapsed: 0,
            work: work_mins * SECS_PER_MINUTE as nat,
            short_break: short_break_mins * SECS_PER_MINUTE as nat,
            long_break: long_break_mins * SECS_PER_MINUTE as nat,
            iterations: 0,
            sessions: 0,
            running: false,
            auto_start_work,
            auto_start_break,
        }
    }

    /// Length of the current phase in seconds.
    pub open spec fn duration(self) -> nat {
        match self.phase {
            Phase::Work => self.work,
            Phase::ShortBreak => self.short_break,
            Phase::LongBreak => self.long_break,
        }
    }

    /// Seconds left in the current phase.
    pub open spec fn remaining(self) -> nat {
        if self.elapsed <= self.duration() {
            (self.duration() - self.elapsed) as nat
        } else {
            0
        }
    }

    pub open spec fn at_phase_boundary(self) -> bool {
        self.elapsed == 0
    }

    /// The states a timer can be in: the iteration count fits the phase, and
    /// the elapsed time stays below the phase's duration.
    pub open spec fn wf(self) -> bool {
        &&& match self.phase {
            Phase::Work => self.iterations < WORK_PHASES_PER_SESSION,
            Phase::ShortBreak => 1 <= self.iterations < WORK_PHASES_PER_SESSION,
            Phase::LongBreak => self.iterations == WORK_PHASES_PER_SESSION,
        }
        &&& (self.elapsed == 0 || self.elapsed < self.duration())
    }

    pub open spec fn toggled(self) -> TimerState {
        TimerState { running: !self.running, ..self }
    }

    pub open spec fn started(self) -> TimerState {
        TimerState { running: true, ..self }
    }

    pub open spec fn paused(self) -> TimerState {
        TimerState { running: false, ..self }
    }

    /// Back at the start of a paused first work phase; the sessions stay counted.
    pub open spec fn reset(self) -> TimerState {
        TimerState { phase: Phase::Work, elapsed: 0, iterations: 0, running: false, ..self }
    }

    /// The phase that follows the current one.
    pub open spec fn next_phase(self) -> Phase {
        match self.phase {
            Phase::Work => if self.iterations + 1 >= WORK_PHASES_PER_SESSION {
                Phase::LongBreak
            } else {
                Phase::ShortBreak
            },
            Phase::ShortBreak => Phase::Work,
            Phase::LongBreak => Phase::Work,
        }
    }

    /// What leaving the current phase completes.
    pub open spec fn completion(self) -> Transition {
        if self.phase == Phase::Work {
            Transition::WorkComplete
        } else {
            Transition::BreakComplete
        }
    }

    /// The state after one phase transition.
    pub open spec fn advanced(self) -> TimerState {
        TimerState {
            phase: self.next_phase(),
            elapsed: 0,
            iterations: match self.phase {
                Phase::Work => self.iterations + 1,
                Phase::ShortBreak => self.iterations,
                Phase::LongBreak => 0,
            },
            sessions: if self.phase == Phase::LongBreak {
                self.sessions + 1
            } else {
                self.sessions
            },
            running: if self.phase == Phase::Work {
                self.auto_start_break
            } else {
                self.auto_start_work
            },
            ..self
        }
    }

    /// Whether a tick in this state ends the phase.
    pub open spec fn tick_completes(self) -> bool {
        self.running && self.elapsed + 1 >= self.duration()
    }

    /// The state after one tick.
    pub open spec fn ticked(self) -> TimerState {
        if !self.running {
            self
        } else if self.tick_completes() {
            self.advanced()
        } else {
            TimerState { elapsed: self.elapsed + 1, ..self }
        }
    }

    /// What one tick in this state reports.
    pub open spec fn tick_marker(self) -> Transition {
        if self.tick_completes() {
            self.completion()
        } else {
            Transition::Unchanged
        }
    }

    /// The state after `n` ticks.
    pub open spec fn ticked_n(self, n: nat) -> TimerState
        decreases n,
    {
        if n == 0 {
            self
        } else {
            self.ticked_n((n - 1) as nat).ticked()
        }
    }

    /// The state after `n` phase transitions.
    pub open spec fn advanced_n(self, n: nat) -> TimerState
        decreases n,
    {
        if n == 0 {
            self
        } else {
            self.advanced_n((n - 1) as nat).advanced()
        }
    }

    /// Whether a transition from this state keeps the session counter in `u32`.
    pub open spec fn can_advance(self) -> bool {
        self.phase == Phase::LongBreak ==> self.sessions < u32::MAX
    }
}

/// `secs` seconds as a clock reading: `MM:SS`, and `H:MM:SS` from one hour on.
pub open spec fn clock(secs: nat) -> Seq<char> {
    let hours = secs / 3600;
    let mins = (secs % 3600) / 60;
    let secs = secs % 60;
    if hours > 0 {
        decimal(hours) + seq![':'] + decimal_padded(mins) + seq![':'] + decimal_padded(secs)
    } else {
        decimal_padded(mins) + seq![':'] + decimal_padded(secs)
    }
}

/// Format a number of seconds as MM:SS or H:MM:SS
pub fn format_clock(secs: u64) -> (text: String)
    ensures
        text@ == clock(secs as nat),
{
    proof {
        reveal_strlit(":");
        assert(":"@ =~= seq![':']);
    }
    let hours = secs / 3600;
    let mins = (secs % 3600) / 60;
    let secs = secs % 60;
    let mins_text = decimal_padded_string(mins);
    let secs_text = decimal_padded_string(secs);
    if hours > 0 {
        decimal_string(hours).concat(":").concat(mins_text.as_str()).concat(":").concat(
            secs_text.as_str(),
        )
    } else {
        mins_text.concat(":").concat(secs_text.as_str())
    }
}

/// Pomodoro timer state machine
#[derive(Debug)]
pub struct Timer {
    /// Current phase
    phase: Phase,
    /// Elapsed seconds in current phase
    elapsed_secs: u64,
    /// Duration settings in seconds
    work_secs: u64,
    short_break_secs: u64,
    long_break_secs: u64,
    /// Work iterations completed (resets after long break)
    iterations: u8,
    /// Total completed pomodoro sessions
    sessions_completed: u32,
    /// Whether the timer is running
    running: bool,
    /// Auto-start work after break
    auto_start_work: bool,
    /// Auto-start break after work
    auto_start_break: bool,
}

impl View for Timer {
    type V = TimerState;

    closed spec fn view(&self) -> TimerState {
        TimerState {
            phase: self.phase,
            elapsed: self.elapsed_secs as nat,
            work: self.work_secs as nat,
            short_break: self.short_break_secs as nat,
            long_break: self.long_break_secs as nat,
            iterations: self.iterations as nat,
            sessions: self.sessions_completed as nat,
            running: self.running,
            auto_start_work: self.auto_start_work,
            auto_start_break: self.auto_start_break,
        }
    }
}

impl Clone for Timer {
    fn clone(&self) -> (copy: Timer)
        ensures
            copy@ == self@,
            copy@.wf(),
    {
        proof {
            use_type_invariant(self);
        }
        Timer {
            phase: self.phase,
            elapsed_secs: self.elapsed_secs,
            work_secs: self.work_secs,
            short_break_secs: self.short_break_secs,
            long_break_secs: self.long_break_secs,
            iterations: self.iterations,
            sessions_completed: self.sessions_completed,
            running: self.running,
            auto_start_work: self.auto_start_work,
            auto_start_break: self.auto_start_break,
        }
    }
}

impl Timer {
    #[verifier::type_invariant]
    closed spec fn inv(self) -> bool {
        self@.wf()
    }

    pub fn new(config: &Config) -> (timer: Timer)
        requires
            config.work * 60 <= u64::MAX,
            config.short_break * 60 <= u64::MAX,
            config.long_break * 60 <= u64::MAX,
        ensures
            timer@ == TimerState::initial(
                config.work as nat,
                config.short_break as nat,
                config.long_break as nat,
                config.auto_start_work,
                config.auto_start_break,
            ),
            timer@.wf(),
    {
        Timer {
            phase: Phase::Work,
            elapsed_secs: 0,
            work_secs: config.work * SECS_PER_MINUTE,
            short_break_secs: config.short_break * SECS_PER_MINUTE,
            long_break_secs: config.long_break * SECS_PER_MINUTE,
            iterations: 0,
            sessions_completed: 0,
            running: false,
            auto_start_work: config.auto_start_work,
            auto_start_break: config.auto_start_break,
        }
    }

    pub fn phase(&self) -> (phase: Phase)
        ensures
            phase == self@.phase,
            self@.wf(),
    {
        proof {
            use_type_invariant(self);
        }
        self.phase
    }

    pub fn is_running(&self) -> (running: bool)
        ensures
            running == self@.running,
    {
        self.running
    }

    pub fn iterations(&self) -> (iterations: u8)
        ensures
            iterations == self@.iterations,
            iterations <= WORK_PHASES_PER_SESSION,
            self@.wf(),
    {
        proof {
            use_type_invariant(self);
        }
        self.iterations
    }

    pub fn sessions_completed(&self) -> (sessions: u32)
        ensures
            sessions == self@.sessions,
    {
        self.sessions_completed
    }

    /// Seconds elapsed in the current phase
    pub fn elapsed_secs(&self) -> (elapsed: u64)
        ensures
            elapsed == self@.elapsed,
            elapsed <= self@.duration(),
            self@.wf(),
    {
        proof {
            use_type_invariant(self);
        }
        self.elapsed_secs
    }

    /// Get the duration of the current phase in seconds
    pub fn current_duration(&self) -> (duration: u64)
        ensures
            duration == self@.duration(),
    {
        match self.phase {
            Phase::Work => self.work_secs,
            Phase::ShortBreak => self.short_break_secs,
            Phase::LongBreak => self.long_break_secs,
        }
    }

    /// Get remaining time in seconds
    pub fn remaining_secs(&self) -> (remaining: u64)
        ensures
            remaining == self@.remaining(),
            remaining == self@.duration() - self@.elapsed,
    {
        proof {
            use_type_invariant(self);
        }
        self.current_duration().saturating_sub(self.elapsed_secs)
    }

    /// Format remaining time as MM:SS or H:MM:SS
    pub fn remaining_formatted(&self) -> (text: String)
        ensures
            text@ == clock(self@.remaining()),
    {
        format_clock(self.remaining_secs())
    }

    /// Whether no time has elapsed in the current phase
    pub fn at_phase_boundary(&self) -> (at_boundary: bool)
        ensures
            at_boundary == self@.at_phase_boundary(),
    {
        self.elapsed_secs == 0
    }

    /// Toggle between running and paused
    pub fn toggle(&mut self)
        ensures
            final(self)@ == old(self)@.toggled(),
            final(self)@.wf(),
    {
        proof {
            use_type_invariant(&*self);
        }
        self.running = !self.running;
    }

    /// Start the timer
    pub fn start(&mut self)
        ensures
            final(self)@ == old(self)@.started(),
            final(self)@.wf(),
    {
        proof {
            use_type_invariant(&*self);
        }
        self.running = true;
    }

    /// Pause the timer
    pub fn pause(&mut self)
        ensures
            final(self)@ == old(self)@.paused(),
            final(self)@.wf(),
    {
        proof {
            use_type_invariant(&*self);
        }
        self.running = false;
    }

    /// Reset to initial state
    pub fn reset(&mut self)
        ensures
            final(self)@ == old(self)@.reset(),
            final(self)@.wf(),
    {
        *self = Timer {
            phase: Phase::Work,
            elapsed_secs: 0,
            iterations: 0,
            running: false,
            ..*self
        };
    }

    /// Skip to the next phase without waiting
    /// Returns the type of transition that occurred
    pub fn skip(&mut self) -> (marker: Transition)
        requires
            old(self)@.can_advance(),
        ensures
            final(self)@ == old(self)@.advanced(),
            final(self)@.wf(),
            marker == old(self)@.completion(),
    {
        self.transition_to_next_phase()
    }

    /// Advance time by one second, handling phase transitions
    /// Returns the type of transition that occurred (if any)
    pub fn tick(&mut self) -> (marker: Transition)
        requires
            old(self)@.can_advance(),
        ensures
            final(self)@ == old(self)@.ticked(),
            final(self)@.wf(),
            marker == old(self)@.tick_marker(),
    {
        proof {
            use_type_invariant(&*self);
        }
        if !self.running {
            return Transition::Unchanged;
        }
        if self.elapsed_secs + 1 >= self.current_duration() {
            return self.transition_to_next_phase();
        }
        self.elapsed_secs = self.elapsed_secs + 1;
        Transition::Unchanged
    }

    fn transition_to_next_phase(&mut self) -> (marker: Transition)
        requires
            old(self)@.can_advance(),
        ensures
            final(self)@ == old(self)@.advanced(),
            final(self)@.wf(),
            marker == old(self)@.completion(),
    {
        proof {
            use_type_invariant(&*self);
        }
        let from_phase = self.phase;
        match from_phase {
            Phase::Work => {
                let iterations: u8 = self.iterations + 1;
                let phase = if iterations >= WORK_PHASES_PER_SESSION {
                    Phase::LongBreak
                } else {
                    Phase::ShortBreak
                };
                *self = Timer {
                    phase,
                    elapsed_secs: 0,
                    iterations,
                    running: self.auto_start_break,
                    ..*self
                };
            },
            Phase::ShortBreak => {
                *self = Timer {
                    phase: Phase::Work,
                    elapsed_secs: 0,
                    running: self.auto_start_work,
                    ..*self
                };
            },
            Phase::LongBreak => {
                *self = Timer {
                    phase: Phase::Work,
                    elapsed_secs: 0,
                    iterations: 0,
                    sessions_completed: self.sessions_completed + 1,
                    running: self.auto_start_work,
                    ..*self
                };
            },
        }
        if from_phase == Phase::Work {
            Transition::WorkComplete
        } else {
            Transition::BreakComplete
        }
    }
}

/// Every operation of the timer leads from a well-formed state to a
/// well-formed state.
pub proof fn lemma_wf_preserved(s: TimerState)
    requires
        s.wf(),
    ensures
        s.toggled().wf(),
        s.started().wf(),
        s.paused().wf(),
        s.reset().wf(),
        s.advanced().wf(),
        s.ticked().wf(),
{
}

/// While the timer runs, a tick takes one second off the remaining time and
/// stays in the phase, as long as more than one second remains; the tick that
/// would use up the last second ends the phase instead, and the new phase
/// starts with its full duration remaining.
pub proof fn lemma_tick_counts_down(s: TimerState)
    requires
        s.wf(),
        s.running,
    ensures
        s.remaining() > 1 ==> {
            &&& s.ticked().remaining() == s.remaining() - 1
            &&& s.ticked() == (TimerState { elapsed: s.elapsed + 1, ..s })
            &&& s.tick_marker() == Transition::Unchanged
        },
        s.remaining() <= 1 ==> {
            &&& s.ticked() == s.advanced()
            &&& s.tick_marker() == s.completion()
            &&& s.tick_marker() != Transition::Unchanged
            &&& s.ticked().remaining() == s.ticked().duration()
        },
{
}

/// A paused timer does not move: a tick changes nothing and reports nothing.
pub proof fn lemma_tick_paused(s: TimerState)
    requires
        !s.running,
    ensures
        s.ticked() == s,
        s.tick_marker() == Transition::Unchanged,
{
}

/// Fewer ticks than seconds remain: each took one second off, and nothing
/// else changed.
pub proof fn lemma_ticks_count_down(s: TimerState, n: nat)
    requires
        s.wf(),
        s.running,
        n < s.remaining(),
    ensures
        s.ticked_n(n) == (TimerState { elapsed: s.elapsed + n, ..s }),
        s.ticked_n(n).remaining() == s.remaining() - n,
    decreases n,
{
    if n > 0 {
        lemma_ticks_count_down(s, (n - 1) as nat);
    }
}

/// As many ticks as seconds remain end the phase: the last of them performs
/// the transition.
pub proof fn lemma_ticks_complete_phase(s: TimerState)
    requires
        s.wf(),
        s.running,
        s.remaining() >= 1,
    ensures
        s.ticked_n(s.remaining()) == s.advanced(),
        s.ticked_n((s.remaining() - 1) as nat).tick_marker() == s.completion(),
{
    lemma_ticks_count_down(s, (s.remaining() - 1) as nat);
}

/// A reset leads to the start of a paused first work phase whatever the
/// state was, and leaves the session counter and the settings alone.
pub proof fn lemma_reset(s: TimerState)
    ensures
        s.reset().phase == Phase::Work,
        s.reset().elapsed == 0,
        s.reset().iterations == 0,
        !s.reset().running,
        s.reset().sessions == s.sessions,
        s.reset().wf(),
        s.reset() == (TimerState {
            phase: Phase::Work,
            elapsed: 0,
            iterations: 0,
            running: false,
            ..s
        }),
{
}

/// One transition: the fourth completed work phase leads to the long break
/// and the earlier ones to a short break; a short break leads back to work;
/// the long break leads back to work, clears the iterations and counts one
/// more session. The marker says work was completed exactly when work was left.
pub proof fn lemma_advance(s: TimerState)
    requires
        s.wf(),
    ensures
        s.advanced().elapsed == 0,
        s.phase == Phase::Work ==> {
            &&& s.advanced().iterations == s.iterations + 1
            &&& s.advanced().sessions == s.sessions
            &&& s.advanced().running == s.auto_start_break
            &&& (s.iterations == 3 ==> s.advanced().phase == Phase::LongBreak)
            &&& (s.iterations < 3 ==> s.advanced().phase == Phase::ShortBreak)
        },
        s.phase == Phase::ShortBreak ==> {
            &&& s.advanced().phase == Phase::Work
            &&& s.advanced().iterations == s.iterations
            &&& s.advanced().sessions == s.sessions
            &&& s.advanced().running == s.auto_start_work
        },
        s.phase == Phase::LongBreak ==> {
            &&& s.advanced().phase == Phase::Work
            &&& s.advanced().iterations == 0
            &&& s.advanced().sessions == s.sessions + 1
            &&& s.advanced().running == s.auto_start_work
        },
        s.completion() == Transition::WorkComplete <==> s.phase == Phase::Work,
        s.completion() == Transition::BreakComplete <==> s.phase.is_break(),
{
}

/// A transition does not depend on whether the timer runs nor on the time
/// elapsed in the phase.
pub proof fn lemma_advance_ignores_progress(s: TimerState, elapsed: nat, running: bool)
    ensures
        (TimerState { elapsed, running, ..s }).advanced() == s.advanced(),
        (TimerState { elapsed, running, ..s }).completion() == s.completion(),
{
}

/// From the start of a first work phase, the seventh transition is the one
/// that completes the fourth work phase, and the first to enter the long
/// break; the eighth closes the session: back at work, no iterations, one
/// more session counted.
pub proof fn lemma_session_cycle(s: TimerState)
    requires
        s.phase == Phase::Work,
        s.iterations == 0,
    ensures
        forall|k: nat| k < 7 ==> (#[trigger] s.advanced_n(k)).phase != Phase::LongBreak,
        forall|k: nat| k <= 3 ==> (#[trigger] s.advanced_n(2 * k)).phase == Phase::Work,
        forall|k: nat| k <= 3 ==> (#[trigger] s.advanced_n(2 * k)).iterations == k,
        s.advanced_n(7).phase == Phase::LongBreak,
        s.advanced_n(7).iterations == 4,
        s.advanced_n(7).sessions == s.sessions,
        s.advanced_n(8).phase == Phase::Work,
        s.advanced_n(8).iterations == 0,
        s.advanced_n(8).sessions == s.sessions + 1,
{
    reveal_with_fuel(TimerState::advanced_n, 9);
    assert forall|k: nat| k < 7 implies (#[trigger] s.advanced_n(k)).phase != Phase::LongBreak by {
        assert(k == 0 || k == 1 || k == 2 || k == 3 || k == 4 || k == 5 || k == 6);
    }
    assert forall|k: nat| k <= 3 implies (#[trigger] s.advanced_n(2 * k)).phase == Phase::Work
        && s.advanced_n(2 * k).iterations == k by {
        assert(k == 0 || k == 1 || k == 2 || k == 3);
    }
}

/// Toggling twice changes nothing, toggling once flips the running flag;
/// starting and pausing are idempotent.
pub proof fn lemma_toggle(s: TimerState)
    ensures
        s.toggled().toggled() == s,
        s.toggled().running == !s.running,
        s.toggled() != s,
        s.toggled() == (TimerState { running: !s.running, ..s }),
        s.started().started() == s.started(),
        s.paused().paused() == s.paused(),
        s.started().running,
        !s.paused().running,
{
}

/// A new timer, once started, stays in its first work phase for exactly as
/// many ticks as the phase has seconds: the last of them leads to the first
/// short break, with one iteration counted, running only if breaks start by
/// themselves.
pub proof fn lemma_first_work_phase_runs_out(
    work_mins: nat,
    short_break_mins: nat,
    long_break_mins: nat,
    auto_start_work: bool,
    auto_start_break: bool,
)
    requires
        work_mins >= 1,
    ensures
        ({
            let fresh = TimerState::initial(
                work_mins,
                short_break_mins,
                long_break_mins,
                auto_start_work,
                auto_start_break,
            );
            let after = fresh.started().ticked_n(work_mins * 60);
            &&& after.phase == Phase::ShortBreak
            &&& after.iterations == 1
            &&& after.running == auto_start_break
            &&& after.elapsed == 0
            &&& after.sessions == 0
            &&& forall|n: nat|
                n < work_mins * 60 ==> (#[trigger] fresh.started().ticked_n(n)).phase
                    == Phase::Work
        }),
{
    let fresh = TimerState::initial(
        work_mins,
        short_break_mins,
        long_break_mins,
        auto_start_work,
        auto_start_break,
    );
    lemma_ticks_complete_phase(fresh.started());
    assert forall|n: nat| n < work_mins * 60 implies (#[trigger] fresh.started().ticked_n(
        n,
    )).phase == Phase::Work by {
        lemma_ticks_count_down(fresh.started(), n);
    }
}

/// Ticks add up: `a + b` ticks are `a` ticks and then `b` more.
pub proof fn lemma_ticks_add(s: TimerState, a: nat, b: nat)
    ensures
        s.ticked_n(a + b) == s.ticked_n(a).ticked_n(b),
    decreases b,
{
    if b > 0 {
        lemma_ticks_add(s, a, (b - 1) as nat);
        assert(s.ticked_n(a + b) == s.ticked_n((a + b - 1) as nat).ticked());
    }
}

/// A running timer with both auto-starts set goes through a whole session
/// by itself: from the start of the first work phase, four work phases,
/// three short breaks and the long break take exactly as many ticks as they
/// have seconds, and leave the timer at the start of the next session's
/// first work phase, still running, with one more session counted.
pub proof fn lemma_session_runs_out(s: TimerState)
    requires
        s.phase == Phase::Work,
        s.iterations == 0,
        s.elapsed == 0,
        s.running,
        s.auto_start_work,
        s.auto_start_break,
        s.work >= 1,
        s.short_break >= 1,
        s.long_break >= 1,
    ensures
        s.ticked_n(4 * s.work + 3 * s.short_break + s.long_break) == (TimerState {
            sessions: s.sessions + 1,
            ..s
        }),
{
    let w = s.work;
    let b = s.short_break;
    let l = s.long_break;
    let s1 = s.advanced();
    let s2 = s1.advanced();
    let s3 = s2.advanced();
    let s4 = s3.advanced();
    let s5 = s4.advanced();
    let s6 = s5.advanced();
    let s7 = s6.advanced();
    let s8 = s7.advanced();
    lemma_ticks_complete_phase(s);
    lemma_ticks_complete_phase(s1);
    lemma_ticks_complete_phase(s2);
    lemma_ticks_complete_phase(s3);
    lemma_ticks_complete_phase(s4);
    lemma_ticks_complete_phase(s5);
    lemma_ticks_complete_phase(s6);
    lemma_ticks_complete_phase(s7);
    lemma_ticks_add(s, w, b);
    lemma_ticks_add(s, w + b, w);
    lemma_ticks_add(s, w + b + w, b);
    lemma_ticks_add(s, w + b + w + b, w);
    lemma_ticks_add(s, w + b + w + b + w, b);
    lemma_ticks_add(s, w + b + w + b + w + b, w);
    lemma_ticks_add(s, w + b + w + b + w + b + w, l);
    assert(s.ticked_n(w) == s1);
    assert(s.ticked_n(w + b) == s2);
    assert(s.ticked_n(w + b + w) == s3);
    assert(s.ticked_n(w + b + w + b) == s4);
    assert(s.ticked_n(w + b + w + b + w) == s5);
    assert(s.ticked_n(w + b + w + b + w + b) == s6);
    assert(s.ticked_n(w + b + w + b + w + b + w) == s7);
    assert(s.ticked_n(w + b + w + b + w + b + w + l) == s8);
    assert(w + b + w + b + w + b + w + l == 4 * w + 3 * b + l);
}

} // verus!
