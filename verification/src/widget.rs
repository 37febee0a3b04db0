//! One cycle of the poll loop: apply the commands that arrived, tick the
//! timer if a second has passed, and report what there is to show.

use crate::socket::Command;
use crate::timer::{clock, Phase, Timer, TimerState, Transition};
use vstd::prelude::*;

verus! {

/// Poll interval, in milliseconds, while a paused timer pulses.
pub const PULSE_INTERVAL_MS: u64 = 100;

/// The state after the commands of `commands`, applied in order.
pub open spec fn apply_all(state: TimerState, commands: Seq<Command>) -> TimerState
    decreases commands.len(),
{
    if commands.len() == 0 {
        state
    } else {
        commands.last().applied(apply_all(state, commands.drop_last()))
    }
}

/// Whether each command of `commands` can be applied in the state that the
/// ones before it lead to.
pub open spec fn all_applicable(state: TimerState, commands: Seq<Command>) -> bool {
    forall|i: int|
        0 <= i < commands.len() ==> (#[trigger] commands[i]).applicable(
            apply_all(state, commands.take(i)),
        )
}

/// Whether a tick is due: a whole second has passed since the last one.
pub open spec fn tick_due(since_last_tick: Option<u64>) -> bool {
    since_last_tick matches Some(secs) && secs >= 1
}

/// The key under which a phase's sound and icon are configured.
pub open spec fn phase_key(phase: Phase) -> Seq<char> {
    match phase {
        Phase::Work => "work"@,
        Phase::ShortBreak => "short_break"@,
        Phase::LongBreak => "long_break"@,
    }
}

/// The text state of the widget: the remaining time, a bar, and `R` for a
/// running or `P` for a paused timer.
pub open spec fn status(state: TimerState) -> Seq<char> {
    clock(state.remaining()) + seq!['|', if state.running { 'R' } else { 'P' }]
}

/// Whether the widget pulses: it is set to, and the timer is paused midway
/// through a phase.
pub open spec fn pulses(state: TimerState, pulse_on_pause: bool) -> bool {
    pulse_on_pause && !state.running && !state.at_phase_boundary()
}

/// What a renderer needs to know of the timer.
#[derive(Debug, Clone, PartialEq, Eq)]
pub struct DisplayState {
    pub phase: Phase,
    pub running: bool,
    /// remaining time as `MM:SS` or `H:MM:SS`
    pub remaining_formatted: String,
    /// seconds elapsed in the phase: the progress ratio's numerator
    pub elapsed_secs: u64,
    /// length of the phase in seconds: the progress ratio's denominator
    pub duration_secs: u64,
    pub at_phase_boundary: bool,
    pub iterations: u8,
    pub sessions_completed: u32,
}

impl DisplayState {
    /// Whether this is what there is to show of `state`.
    pub open spec fn shows(self, state: TimerState) -> bool {
        &&& self.phase == state.phase
        &&& self.running == state.running
        &&& self.remaining_formatted@ == clock(state.remaining())
        &&& self.elapsed_secs == state.elapsed
        &&& self.duration_secs == state.duration()
        &&& self.at_phase_boundary == state.at_phase_boundary()
        &&& self.iterations == state.iterations
        &&& self.sessions_completed == state.sessions
    }
}

/// The result of one poll cycle.
#[derive(Debug, Clone, PartialEq, Eq)]
pub struct PollOutcome {
    /// the timer after the cycle
    pub display: DisplayState,
    /// the text state: remaining time and running flag
    pub text: String,
    /// what the tick of this cycle completed, if there was one
    pub transition: Transition,
    /// the phase that has just begun, whose sound is to be played
    pub sound: Option<Phase>,
    /// whether the caller is to take the present moment as that of the last tick
    pub tick_recorded: bool,
    /// whether to poll again after `PULSE_INTERVAL_MS` rather than the usual interval
    pub pulse: bool,
}

pub fn sound_key(phase: Phase) -> (key: &'static str)
    ensures
        key@ == phase_key(phase),
{
    match phase {
        Phase::Work => "work",
        Phase::ShortBreak => "short_break",
        Phase::LongBreak => "long_break",
    }
}

pub fn status_text(timer: &Timer) -> (text: String)
    ensures
        text@ == status(timer@),
{
    proof {
        reveal_strlit("|R");
        reveal_strlit("|P");
    }
    let flag = if timer.is_running() {
        "|R"
    } else {
        "|P"
    };
    assert(flag@ =~= seq!['|', if timer@.running { 'R' } else { 'P' }]);
    timer.remaining_formatted().concat(flag)
}

pub fn display_state(timer: &Timer) -> (display: DisplayState)
    ensures
        display.shows(timer@),
{
    DisplayState {
        phase: timer.phase(),
        running: timer.is_running(),
        remaining_formatted: timer.remaining_formatted(),
        elapsed_secs: timer.elapsed_secs(),
        duration_secs: timer.current_duration(),
        at_phase_boundary: timer.at_phase_boundary(),
        iterations: timer.iterations(),
        sessions_completed: timer.sessions_completed(),
    }
}

/// Apply the commands in arrival order.
pub fn process_commands(timer: &mut Timer, commands: &Vec<Command>)
    requires
        all_applicable(old(timer)@, commands@),
    ensures
        final(timer)@ == apply_all(old(timer)@, commands@),
{
    let mut i: usize = 0;
    while i < commands.len()
        invariant
            i <= commands.len(),
            timer@ == apply_all(old(timer)@, commands@.take(i as int)),
            all_applicable(old(timer)@, commands@),
        decreases commands.len() - i,
    {
        proof {
            let next = commands@.take(i + 1);
            assert(next.drop_last() =~= commands@.take(i as int));
            assert(next.last() == commands@[i as int]);
        }
        commands[i].apply(timer);
        i = i + 1;
    }
    assert(commands@.take(i as int) =~= commands@);
}

/// One poll cycle: the commands are applied in order; then the timer ticks
/// once if at least a second has passed since the last tick, however many
/// have; a transition asks for the sound of the phase that begins.
pub fn poll(
    timer: &mut Timer,
    commands: &Vec<Command>,
    since_last_tick: Option<u64>,
    pulse_on_pause: bool,
) -> (outcome: PollOutcome)
    requires
        all_applicable(old(timer)@, commands@),
        tick_due(since_last_tick) ==> apply_all(old(timer)@, commands@).can_advance(),
    ensures
        final(timer)@ == (if tick_due(since_last_tick) {
            apply_all(old(timer)@, commands@).ticked()
        } else {
            apply_all(old(timer)@, commands@)
        }),
        outcome.transition == (if tick_due(since_last_tick) {
            apply_all(old(timer)@, commands@).tick_marker()
        } else {
            Transition::Unchanged
        }),
        outcome.sound == (if outcome.transition == Transition::Unchanged {
            None
        } else {
            Some(final(timer)@.phase)
        }),
        outcome.tick_recorded == (since_last_tick is None || tick_due(since_last_tick)),
        outcome.display.shows(final(timer)@),
        outcome.text@ == status(final(timer)@),
        outcome.pulse == pulses(final(timer)@, pulse_on_pause),
{
    process_commands(timer, commands);
    let mut transition = Transition::Unchanged;
    let mut tick_recorded = true;
    match since_last_tick {
        Some(secs) => {
            if secs >= 1 {
                transition = timer.tick();
            } else {
                tick_recorded = false;
            }
        },
        None => {},
    }
    let sound = match transition {
        Transition::Unchanged => None,
        _ => Some(timer.phase()),
    };
    let pulse = pulse_on_pause && !timer.is_running() && !timer.at_phase_boundary();
    PollOutcome {
        display: display_state(timer),
        text: status_text(timer),
        transition,
        sound,
        tick_recorded,
        pulse,
    }
}

proof fn lemma_sessions_grow_slowly(state: TimerState, commands: Seq<Command>)
    ensures
        apply_all(state, commands).sessions <= state.sessions + commands.len(),
    decreases commands.len(),
{
    if commands.len() > 0 {
        lemma_sessions_grow_slowly(state, commands.drop_last());
    }
}

/// Commands can all be applied, and a tick can follow, wherever the session
/// counter has room for one more session for each of them.
pub proof fn lemma_applicable_with_room(state: TimerState, commands: Seq<Command>)
    requires
        state.sessions + commands.len() < u32::MAX,
    ensures
        all_applicable(state, commands),
        apply_all(state, commands).can_advance(),
{
    assert forall|i: int| 0 <= i < commands.len() implies (#[trigger] commands[i]).applicable(
        apply_all(state, commands.take(i)),
    ) by {
        lemma_sessions_grow_slowly(state, commands.take(i));
    }
    lemma_sessions_grow_slowly(state, commands);
}

/// Once a reset has been applied the timer is at the start of a paused work
/// phase, whatever came before, and the tick of the same cycle leaves it there.
pub proof fn lemma_reset_is_observed(state: TimerState, earlier: Seq<Command>)
    ensures
        apply_all(state, earlier.push(Command::Reset)) == apply_all(state, earlier).reset(),
        apply_all(state, earlier.push(Command::Reset)).phase == Phase::Work,
        apply_all(state, earlier.push(Command::Reset)).elapsed == 0,
        apply_all(state, earlier.push(Command::Reset)).ticked() == apply_all(
            state,
            earlier.push(Command::Reset),
        ),
{
    assert(earlier.push(Command::Reset).drop_last() =~= earlier);
}

} // verus!
