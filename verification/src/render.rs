//! What the button shows: the display modes and their names, and the
//! choices a renderer makes from the state of the timer. Drawing itself is
//! not done here.

use crate::text::same_text;
use crate::timer::{Phase, Timer, TimerState};
use vstd::prelude::*;

verus! {

/// Render mode for the timer display
#[derive(Debug, Clone, Copy, PartialEq, Eq, Structural)]
pub enum RenderMode {
    /// Traditional text-based display with time countdown
    Text,
    /// Fill background from bottom to top (or vice versa) as progress indicator
    FillBg,
    /// Fill an icon from bottom to top (or vice versa) as progress indicator
    FillIcon,
    /// Icon starts green (unripe) and gradually regains its own colors as timer progresses
    Ripen,
}

/// Fill direction for fill modes
#[derive(Debug, Clone, Copy, PartialEq, Eq, Structural)]
pub enum FillDirection {
    /// Fill from bottom to top (empty → full)
    EmptyToFull,
    /// Drain from top to bottom (full → empty)
    FullToEmpty,
}

/// When to display the phase indicator (work, short brk, long brk)
#[derive(Debug, Clone, Copy, PartialEq, Eq, Structural)]
pub enum PhaseIndicatorDisplay {
    /// Never show the phase indicator
    Never,
    /// Show phase indicator only when running
    Running,
    /// Show phase indicator only when paused (default)
    Paused,
    /// Always show the phase indicator
    Both,
}

impl RenderMode {
    /// The name of this mode in the configuration.
    pub open spec fn name(self) -> Seq<char> {
        match self {
            RenderMode::Text => "text"@,
            RenderMode::FillBg => "fill_bg"@,
            RenderMode::FillIcon => "fill_icon"@,
            RenderMode::Ripen => "ripen"@,
        }
    }

    /// The mode that bears the name `name`, if any.
    pub open spec fn named(name: Seq<char>) -> Option<RenderMode> {
        if name == RenderMode::Text.name() {
            Some(RenderMode::Text)
        } else if name == RenderMode::FillBg.name() {
            Some(RenderMode::FillBg)
        } else if name == RenderMode::FillIcon.name() {
            Some(RenderMode::FillIcon)
        } else if name == RenderMode::Ripen.name() {
            Some(RenderMode::Ripen)
        } else {
            None
        }
    }

    pub fn as_str(&self) -> (name: &'static str)
        ensures
            name@ == self.name(),
    {
        match self {
            RenderMode::Text => "text",
            RenderMode::FillBg => "fill_bg",
            RenderMode::FillIcon => "fill_icon",
            RenderMode::Ripen => "ripen",
        }
    }

    pub fn parse(name: &str) -> (mode: Option<RenderMode>)
        ensures
            mode == RenderMode::named(name@),
    {
        if same_text(name, "text") {
            Some(RenderMode::Text)
        } else if same_text(name, "fill_bg") {
            Some(RenderMode::FillBg)
        } else if same_text(name, "fill_icon") {
            Some(RenderMode::FillIcon)
        } else if same_text(name, "ripen") {
            Some(RenderMode::Ripen)
        } else {
            None
        }
    }
}

impl Default for RenderMode {
    fn default() -> (mode: RenderMode)
        ensures
            mode == RenderMode::Text,
    {
        RenderMode::Text
    }
}

impl FillDirection {
    /// The name of this direction in the configuration.
    pub open spec fn name(self) -> Seq<char> {
        match self {
            FillDirection::EmptyToFull => "empty_to_full"@,
            FillDirection::FullToEmpty => "full_to_empty"@,
        }
    }

    /// The direction that bears the name `name`, if any.
    pub open spec fn named(name: Seq<char>) -> Option<FillDirection> {
        if name == FillDirection::EmptyToFull.name() {
            Some(FillDirection::EmptyToFull)
        } else if name == FillDirection::FullToEmpty.name() {
            Some(FillDirection::FullToEmpty)
        } else {
            None
        }
    }

    pub fn as_str(&self) -> (name: &'static str)
        ensures
            name@ == self.name(),
    {
        match self {
            FillDirection::EmptyToFull => "empty_to_full",
            FillDirection::FullToEmpty => "full_to_empty",
        }
    }

    pub fn parse(name: &str) -> (direction: Option<FillDirection>)
        ensures
            direction == FillDirection::named(name@),
    {
        if same_text(name, "empty_to_full") {
            Some(FillDirection::EmptyToFull)
        } else if same_text(name, "full_to_empty") {
            Some(FillDirection::FullToEmpty)
        } else {
            None
        }
    }
}

impl Default for FillDirection {
    fn default() -> (direction: FillDirection)
        ensures
            direction == FillDirection::EmptyToFull,
    {
        FillDirection::EmptyToFull
    }
}

impl PhaseIndicatorDisplay {
    /// The name of this setting in the configuration.
    pub open spec fn name(self) -> Seq<char> {
        match self {
            PhaseIndicatorDisplay::Never => "none"@,
            PhaseIndicatorDisplay::Running => "running"@,
            PhaseIndicatorDisplay::Paused => "paused"@,
            PhaseIndicatorDisplay::Both => "both"@,
        }
    }

    /// The setting that bears the name `name`, if any.
    pub open spec fn named(name: Seq<char>) -> Option<PhaseIndicatorDisplay> {
        if name == PhaseIndicatorDisplay::Never.name() {
            Some(PhaseIndicatorDisplay::Never)
        } else if name == PhaseIndicatorDisplay::Running.name() {
            Some(PhaseIndicatorDisplay::Running)
        } else if name == PhaseIndicatorDisplay::Paused.name() {
            Some(PhaseIndicatorDisplay::Paused)
        } else if name == PhaseIndicatorDisplay::Both.name() {
            Some(PhaseIndicatorDisplay::Both)
        } else {
            None
        }
    }

    pub open spec fn spec_should_show(self, is_running: bool) -> bool {
        match self {
            PhaseIndicatorDisplay::Never => false,
            PhaseIndicatorDisplay::Running => is_running,
            PhaseIndicatorDisplay::Paused => !is_running,
            PhaseIndicatorDisplay::Both => true,
        }
    }

    pub fn as_str(&self) -> (name: &'static str)
        ensures
            name@ == self.name(),
    {
        match self {
            PhaseIndicatorDisplay::Never => "none",
            PhaseIndicatorDisplay::Running => "running",
            PhaseIndicatorDisplay::Paused => "paused",
            PhaseIndicatorDisplay::Both => "both",
        }
    }

    pub fn parse(name: &str) -> (display: Option<PhaseIndicatorDisplay>)
        ensures
            display == PhaseIndicatorDisplay::named(name@),
    {
        if same_text(name, "none") {
            Some(PhaseIndicatorDisplay::Never)
        } else if same_text(name, "running") {
            Some(PhaseIndicatorDisplay::Running)
        } else if same_text(name, "paused") {
            Some(PhaseIndicatorDisplay::Paused)
        } else if same_text(name, "both") {
            Some(PhaseIndicatorDisplay::Both)
        } else {
            None
        }
    }

    /// Returns true if the phase indicator should be shown given the current running state
    #[verifier::when_used_as_spec(spec_should_show)]
    pub fn should_show(self, is_running: bool) -> (show: bool)
        ensures
            show == self.spec_should_show(is_running),
    {
        match self {
            PhaseIndicatorDisplay::Never => false,
            PhaseIndicatorDisplay::Running => is_running,
            PhaseIndicatorDisplay::Paused => !is_running,
            PhaseIndicatorDisplay::Both => true,
        }
    }
}

impl Default for PhaseIndicatorDisplay {
    fn default() -> (display: PhaseIndicatorDisplay)
        ensures
            display == PhaseIndicatorDisplay::Paused,
    {
        PhaseIndicatorDisplay::Paused
    }
}

/// Each mode is found again under its name, and a name names at most one mode.
pub proof fn lemma_render_mode_names(mode: RenderMode, name: Seq<char>)
    ensures
        RenderMode::named(mode.name()) == Some(mode),
        RenderMode::named(name) == Some(mode) <==> name == mode.name(),
{
    reveal_strlit("text");
    reveal_strlit("fill_bg");
    reveal_strlit("fill_icon");
    reveal_strlit("ripen");
    assert(RenderMode::Text.name().len() == 4);
    assert(RenderMode::FillBg.name().len() == 7);
    assert(RenderMode::FillIcon.name().len() == 9);
    assert(RenderMode::Ripen.name().len() == 5);
}

/// Each direction is found again under its name, and a name names at most one.
pub proof fn lemma_fill_direction_names(direction: FillDirection, name: Seq<char>)
    ensures
        FillDirection::named(direction.name()) == Some(direction),
        FillDirection::named(name) == Some(direction) <==> name == direction.name(),
{
    reveal_strlit("empty_to_full");
    reveal_strlit("full_to_empty");
    assert(FillDirection::EmptyToFull.name()[0] != FillDirection::FullToEmpty.name()[0]);
}

/// Each setting is found again under its name, and a name names at most one.
pub proof fn lemma_phase_indicator_names(display: PhaseIndicatorDisplay, name: Seq<char>)
    ensures
        PhaseIndicatorDisplay::named(display.name()) == Some(display),
        PhaseIndicatorDisplay::named(name) == Some(display) <==> name == display.name(),
{
    reveal_strlit("none");
    reveal_strlit("running");
    reveal_strlit("paused");
    reveal_strlit("both");
    assert(PhaseIndicatorDisplay::Never.name()[0] != PhaseIndicatorDisplay::Both.name()[0]);
    assert(PhaseIndicatorDisplay::Never.name().len() == 4);
    assert(PhaseIndicatorDisplay::Both.name().len() == 4);
    assert(PhaseIndicatorDisplay::Running.name().len() == 7);
    assert(PhaseIndicatorDisplay::Paused.name().len() == 6);
}

/// Whether the timer is paused midway through a phase.
pub open spec fn paused_midway(state: TimerState) -> bool {
    !state.running && !state.at_phase_boundary()
}

/// How many iteration dots are filled: a dot fills when its work phase
/// starts, so during work that is running or was begun one more than the
/// completed iterations, and never more than four.
pub open spec fn iterations_shown(state: TimerState) -> nat {
    if state.phase == Phase::Work && (state.running || !state.at_phase_boundary()) {
        if state.iterations + 1 < 4 {
            state.iterations + 1
        } else {
            4
        }
    } else {
        state.iterations
    }
}

/// The four iteration dots, the first `filled` of them filled.
pub open spec fn dots(filled: nat) -> Seq<char> {
    Seq::new(4, |i: int| if i < filled { '●' } else { '○' })
}

/// Calculate display iterations: dots fill when work STARTS (not ends)
pub fn display_iterations(timer: &Timer) -> (shown: u8)
    ensures
        shown == iterations_shown(timer@),
        shown <= 4,
{
    let iterations = timer.iterations();
    let work_has_started = timer.is_running() || !timer.at_phase_boundary();
    if timer.phase() == Phase::Work && work_has_started {
        if iterations + 1 < 4 {
            iterations + 1
        } else {
            4
        }
    } else {
        iterations
    }
}

/// The text of the iteration dots: filled for active and completed
/// iterations, empty for the remaining ones.
pub fn iteration_dots(filled: u8) -> (text: String)
    ensures
        text@ == dots(filled as nat),
{
    let mut text = String::new();
    let mut i: u8 = 0;
    proof {
        reveal_strlit("●");
        reveal_strlit("○");
    }
    while i < 4
        invariant
            i <= 4,
            text@ == dots(filled as nat).take(i as int),
            "●"@ == seq!['●'],
            "○"@ == seq!['○'],
        decreases 4 - i,
    {
        text = text.concat(if i < filled { "●" } else { "○" });
        i = i + 1;
        assert(text@ =~= dots(filled as nat).take(i as int));
    }
    assert(dots(filled as nat).take(4) =~= dots(filled as nat));
    text
}

/// What is drawn first, before any overlay.
#[derive(Debug, Clone, Copy, PartialEq, Eq, Structural)]
pub enum Screen {
    /// the phase's icon, with the iteration dots
    Icon,
    /// the phase's label on the paused background
    Label,
    /// the display of a render mode
    Mode(RenderMode),
}

/// What is drawn: a timer that waits at the start of a phase shows the
/// phase's icon, or its label where there is no icon; any other shows the
/// display of the render mode, where a mode that fills an icon falls back to
/// filling the background if there is no icon.
pub open spec fn screen_of(
    state: TimerState,
    mode: RenderMode,
    has_icon: bool,
    has_label: bool,
) -> Screen {
    if !state.running && state.at_phase_boundary() && has_icon {
        Screen::Icon
    } else if !state.running && state.at_phase_boundary() && has_label {
        Screen::Label
    } else if mode == RenderMode::FillIcon && !has_icon {
        Screen::Mode(RenderMode::FillBg)
    } else {
        Screen::Mode(mode)
    }
}

pub fn screen(timer: &Timer, mode: RenderMode, has_icon: bool, has_label: bool) -> (shown: Screen)
    ensures
        shown == screen_of(timer@, mode, has_icon, has_label),
{
    let waiting = !timer.is_running() && timer.at_phase_boundary();
    if waiting && has_icon {
        Screen::Icon
    } else if waiting && has_label {
        Screen::Label
    } else {
        match mode {
            RenderMode::FillIcon => if has_icon {
                Screen::Mode(RenderMode::FillIcon)
            } else {
                Screen::Mode(RenderMode::FillBg)
            },
            _ => Screen::Mode(mode),
        }
    }
}

/// The background of the text display.
#[derive(Debug, Clone, Copy, PartialEq, Eq, Structural)]
pub enum Background {
    Paused,
    Break,
    Work,
}

/// The background of the text display: that of a paused timer, else that of
/// the kind of phase.
pub fn background(timer: &Timer) -> (color: Background)
    ensures
        color == (if !timer@.running {
            Background::Paused
        } else if timer@.phase.is_break() {
            Background::Break
        } else {
            Background::Work
        }),
{
    if !timer.is_running() {
        Background::Paused
    } else if timer.phase().is_break() {
        Background::Break
    } else {
        Background::Work
    }
}

/// What stands at the top of the button.
#[derive(Debug, Clone, Copy, PartialEq, Eq, Structural)]
pub enum TopIndicator {
    RemainingTime,
    Phase,
    Nothing,
}

/// What stands at the bottom of the button.
#[derive(Debug, Clone, Copy, PartialEq, Eq, Structural)]
pub enum BottomIndicator {
    Phase,
    /// the iteration dots, so many of them filled
    Dots(u8),
    Nothing,
}

/// The elements laid over the button.
#[derive(Debug, Clone, Copy, PartialEq, Eq, Structural)]
pub struct Overlay {
    pub top: TopIndicator,
    /// whether the paused text is drawn in the centre
    pub paused_text: bool,
    pub bottom: BottomIndicator,
    /// whether the dots have the colour of a running timer
    pub running_colors: bool,
}

/// The overlay for a timer in `state`: the remaining time stands on top
/// while the timer is paused midway, else the phase where the setting shows
/// it; the bottom holds the phase while paused midway if the setting shows
/// it for a paused timer, and the dots otherwise.
pub open spec fn overlay_of(
    state: TimerState,
    display: PhaseIndicatorDisplay,
    has_phase_text: bool,
    has_paused_text: bool,
) -> Overlay {
    Overlay {
        top: if paused_midway(state) {
            TopIndicator::RemainingTime
        } else if display.should_show(state.running) && has_phase_text {
            TopIndicator::Phase
        } else {
            TopIndicator::Nothing
        },
        paused_text: !state.running && has_paused_text,
        bottom: if paused_midway(state) && display.should_show(false) {
            if has_phase_text {
                BottomIndicator::Phase
            } else {
                BottomIndicator::Nothing
            }
        } else {
            BottomIndicator::Dots(iterations_shown(state) as u8)
        },
        running_colors: state.running,
    }
}

pub fn overlay(
    timer: &Timer,
    display: PhaseIndicatorDisplay,
    has_phase_text: bool,
    has_paused_text: bool,
) -> (plan: Overlay)
    ensures
        plan == overlay_of(timer@, display, has_phase_text, has_paused_text),
{
    let is_running = timer.is_running();
    let is_paused_mid_interval = !is_running && !timer.at_phase_boundary();
    let show_phase = display.should_show(is_running);
    let top = if is_paused_mid_interval {
        TopIndicator::RemainingTime
    } else if show_phase && has_phase_text {
        TopIndicator::Phase
    } else {
        TopIndicator::Nothing
    };
    let show_phase_bottom = is_paused_mid_interval && display.should_show(false);
    let bottom = if show_phase_bottom {
        if has_phase_text {
            BottomIndicator::Phase
        } else {
            BottomIndicator::Nothing
        }
    } else {
        BottomIndicator::Dots(display_iterations(timer))
    };
    Overlay { top, paused_text: !is_running && has_paused_text, bottom, running_colors: is_running }
}

/// The phase indicator shown where the configuration names none.
pub fn default_phase_indicator(phase: Phase) -> (text: &'static str)
    ensures
        text@ == (match phase {
            Phase::Work => "work"@,
            Phase::ShortBreak => "short brk"@,
            Phase::LongBreak => "long brk"@,
        }),
{
    match phase {
        Phase::Work => "work",
        Phase::ShortBreak => "short brk",
        Phase::LongBreak => "long brk",
    }
}

/// The label shown for a phase where the configuration names none.
pub fn default_label(phase: Phase) -> (text: &'static str)
    ensures
        text@ == (match phase {
            Phase::Work => "Work"@,
            Phase::ShortBreak => "Short\nBreak"@,
            Phase::LongBreak => "Long\nBreak"@,
        }),
{
    match phase {
        Phase::Work => "Work",
        Phase::ShortBreak => "Short\nBreak",
        Phase::LongBreak => "Long\nBreak",
    }
}

/// The color of the pixel at column `x` of row `y` in an image of rows of
/// `width` pixels, three bytes each: black where the data ends before it.
pub open spec fn pixel_at(data: Seq<u8>, width: nat, x: nat, y: nat) -> (u8, u8, u8) {
    let first = ((y * width + x) * 3) as int;
    if first + 2 < data.len() {
        (data[first], data[first + 1], data[first + 2])
    } else {
        (0, 0, 0)
    }
}

/// The color of a pixel of an icon, black where the icon's data ends.
pub fn icon_pixel(data: &Vec<u8>, width: u32, x: u32, y: u32) -> (pixel: (u8, u8, u8))
    requires
        (y * width + x) * 3 <= u32::MAX,
    ensures
        pixel == pixel_at(data@, width as nat, x as nat, y as nat),
{
    assert(y * width <= (y * width + x) * 3) by (nonlinear_arith);
    let first = ((y * width + x) * 3) as usize;
    if first < data.len() && data.len() - first > 2 {
        (data[first], data[first + 1], data[first + 2])
    } else {
        (0, 0, 0)
    }
}

} // verus!
