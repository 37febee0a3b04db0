//! The settings of the widget: what a configuration gives, and what is made
//! of it, with defaults filled in and unusable values replaced.

use crate::render::{FillDirection, PhaseIndicatorDisplay, RenderMode};
use crate::table::Table;
use crate::text::same_text;
use vstd::prelude::*;

verus! {

pub const DEFAULT_WORK_MINS: u64 = 25;

pub const DEFAULT_SHORT_BREAK_MINS: u64 = 5;

pub const DEFAULT_LONG_BREAK_MINS: u64 = 15;

pub const DEFAULT_INTERVAL_MS: u64 = 1000;

pub const DEFAULT_RENDER_MODE: &'static str = "text";

pub const DEFAULT_FILL_DIRECTION: &'static str = "empty_to_full";

pub const DEFAULT_PHASE_INDICATOR_DISPLAY: &'static str = "paused";

/// The field that the host adds to every configuration.
pub const WIDGET_ID_FIELD: &'static str = "_widget_id";

/// Final configuration after building
#[derive(Debug, Clone)]
pub struct Config {
    /// Work duration in minutes
    pub work: u64,
    /// Short break duration in minutes
    pub short_break: u64,
    /// Long break duration in minutes
    pub long_break: u64,
    /// Auto-start work after break
    pub auto_start_work: bool,
    /// Auto-start break after work
    pub auto_start_break: bool,
    /// Polling interval in milliseconds
    pub interval: u64,
    /// Render mode
    pub render_mode: RenderMode,
    /// Fill direction for fill_bg mode
    pub fill_direction: FillDirection,
    /// When to display the phase indicator
    pub phase_indicator_display: PhaseIndicatorDisplay,
    /// Pulse brightness when paused (for icon-based render modes)
    pub pulse_on_pause: bool,
    /// Sound files to play on phase transitions (keys: work, short_break, long_break)
    /// Sound indicates the phase that is STARTING, not the one that ended
    pub sounds: Table,
    /// Phase indicator text (keys: work, short_break, long_break)
    pub phases: Table,
    /// Labels/fallback text (keys: work, short_break, long_break, paused)
    pub labels: Table,
    /// Colors (keys: fg, work_bg, break_bg, paused_bg, empty_bg) - format: #RRGGBB or #RGB
    pub colors: Table,
}

/// What a configuration gives, before defaults are merged in
#[derive(Debug, Clone)]
pub struct ConfigBuilder {
    pub work: u64,
    pub short_break: u64,
    pub long_break: u64,
    pub auto_start_work: bool,
    pub auto_start_break: bool,
    pub interval: u64,
    pub render_mode: String,
    pub fill_direction: String,
    pub phase_indicator_display: String,
    pub pulse_on_pause: bool,
    pub sounds: Table,
    pub phases: Table,
    pub labels: Table,
    pub colors: Table,
    /// The names of the fields that are not settings
    pub unknown: Vec<String>,
}

/// The colors used where the configuration names none.
pub open spec fn default_colors_map() -> Map<Seq<char>, Seq<char>> {
    map![
        "fg"@ => "#ffffff"@,
        "work_bg"@ => "#e57373"@,
        "break_bg"@ => "#81c784"@,
        "paused_bg"@ => "#7f8c8d"@,
        "empty_bg"@ => "#2c3e50"@,
        "dot_running"@ => "#008000"@,
        "dot_paused"@ => "#808080"@,
    ]
}

/// The labels used where the configuration names none.
pub open spec fn default_labels_map() -> Map<Seq<char>, Seq<char>> {
    map!["paused"@ => "PAUSED"@]
}

/// A duration in minutes, at least one.
pub open spec fn clamped(minutes: u64) -> u64 {
    if minutes == 0 {
        1
    } else {
        minutes
    }
}

/// The field names to warn of: all but the one that the host adds.
pub open spec fn reportable(names: Seq<String>) -> Seq<Seq<char>>
    decreases names.len(),
{
    if names.len() == 0 {
        Seq::empty()
    } else if names.last()@ == WIDGET_ID_FIELD@ {
        reportable(names.drop_last())
    } else {
        reportable(names.drop_last()).push(names.last()@)
    }
}

/// The views of the strings of `names`.
pub open spec fn texts(names: Seq<String>) -> Seq<Seq<char>> {
    names.map_values(|name: String| name@)
}

impl ConfigBuilder {
    /// The configuration that this one builds.
    pub open spec fn built(self, config: Config) -> bool {
        &&& config.work == clamped(self.work)
        &&& config.short_break == clamped(self.short_break)
        &&& config.long_break == clamped(self.long_break)
        &&& config.auto_start_work == self.auto_start_work
        &&& config.auto_start_break == self.auto_start_break
        &&& config.interval == self.interval
        &&& config.render_mode == (match RenderMode::named(self.render_mode@) {
            Some(mode) => mode,
            None => RenderMode::Text,
        })
        &&& config.fill_direction == (match FillDirection::named(self.fill_direction@) {
            Some(direction) => direction,
            None => FillDirection::EmptyToFull,
        })
        &&& config.phase_indicator_display == (match PhaseIndicatorDisplay::named(
            self.phase_indicator_display@,
        ) {
            Some(display) => display,
            None => PhaseIndicatorDisplay::Paused,
        })
        &&& config.pulse_on_pause == self.pulse_on_pause
        &&& config.sounds@ == self.sounds@
        &&& config.phases@ == self.phases@
        &&& config.labels@ == default_labels_map().union_prefer_right(self.labels@)
        &&& config.colors@ == default_colors_map().union_prefer_right(self.colors@)
    }

    pub fn default_colors() -> (colors: Table)
        ensures
            colors@ == default_colors_map(),
    {
        let mut colors = Table::new();
        colors.insert(String::from_str("fg"), String::from_str("#ffffff"));  // White
        colors.insert(String::from_str("work_bg"), String::from_str("#e57373"));  // Soft coral
        colors.insert(String::from_str("break_bg"), String::from_str("#81c784"));  // Soft mint
        colors.insert(String::from_str("paused_bg"), String::from_str("#7f8c8d"));  // Gray
        colors.insert(String::from_str("empty_bg"), String::from_str("#2c3e50"));  // Dark blue-gray
        colors.insert(String::from_str("dot_running"), String::from_str("#008000"));  // Dark green
        colors.insert(String::from_str("dot_paused"), String::from_str("#808080"));  // Gray
        colors
    }

    pub fn default_labels() -> (labels: Table)
        ensures
            labels@ == default_labels_map(),
    {
        let mut labels = Table::new();
        labels.insert(String::from_str("paused"), String::from_str("PAUSED"));
        labels
    }

    /// The unknown fields to warn of: all but the one that the host adds.
    pub fn unknown_fields(&self) -> (names: Vec<String>)
        ensures
            texts(names@) == reportable(self.unknown@),
    {
        let mut names: Vec<String> = Vec::new();
        let mut i: usize = 0;
        assert(texts(names@) =~= reportable(self.unknown@.take(0)));
        while i < self.unknown.len()
            invariant
                i <= self.unknown.len(),
                texts(names@) == reportable(self.unknown@.take(i as int)),
            decreases self.unknown.len() - i,
        {
            proof {
                let part = self.unknown@.take(i + 1);
                assert(part.drop_last() =~= self.unknown@.take(i as int));
                assert(part.last() == self.unknown@[i as int]);
            }
            let ghost before = names@;
            if !same_text(self.unknown[i].as_str(), WIDGET_ID_FIELD) {
                names.push(self.unknown[i].clone());
                assert(texts(names@) =~= texts(before).push(self.unknown@[i as int]@));
            }
            i = i + 1;
        }
        assert(self.unknown@.take(i as int) =~= self.unknown@);
        names
    }

    /// Build the final Config: durations of zero become one minute, the
    /// default colors and labels stand where none are named, and a mode
    /// that no name names is replaced by the default one.
    pub fn build(self) -> (config: Config)
        ensures
            self.built(config),
    {
        let render_mode = match RenderMode::parse(self.render_mode.as_str()) {
            Some(mode) => mode,
            None => RenderMode::default(),
        };
        let fill_direction = match FillDirection::parse(self.fill_direction.as_str()) {
            Some(direction) => direction,
            None => FillDirection::default(),
        };
        let phase_indicator_display = match PhaseIndicatorDisplay::parse(
            self.phase_indicator_display.as_str(),
        ) {
            Some(display) => display,
            None => PhaseIndicatorDisplay::default(),
        };
        let mut colors = Self::default_colors();
        colors.extend(&self.colors);
        let mut labels = Self::default_labels();
        labels.extend(&self.labels);
        Config {
            work: if self.work == 0 { 1 } else { self.work },
            short_break: if self.short_break == 0 { 1 } else { self.short_break },
            long_break: if self.long_break == 0 { 1 } else { self.long_break },
            auto_start_work: self.auto_start_work,
            auto_start_break: self.auto_start_break,
            interval: self.interval,
            render_mode,
            fill_direction,
            phase_indicator_display,
            pulse_on_pause: self.pulse_on_pause,
            sounds: self.sounds,
            phases: self.phases,
            labels,
            colors,
        }
    }
}

impl Default for ConfigBuilder {
    fn default() -> (builder: ConfigBuilder)
        ensures
            builder.work == DEFAULT_WORK_MINS,
            builder.short_break == DEFAULT_SHORT_BREAK_MINS,
            builder.long_break == DEFAULT_LONG_BREAK_MINS,
            !builder.auto_start_work,
            !builder.auto_start_break,
            builder.interval == DEFAULT_INTERVAL_MS,
            builder.render_mode@ == DEFAULT_RENDER_MODE@,
            builder.fill_direction@ == DEFAULT_FILL_DIRECTION@,
            builder.phase_indicator_display@ == DEFAULT_PHASE_INDICATOR_DISPLAY@,
            !builder.pulse_on_pause,
            builder.sounds@ == Map::<Seq<char>, Seq<char>>::empty(),
            builder.phases@ == Map::<Seq<char>, Seq<char>>::empty(),
            builder.labels@ == Map::<Seq<char>, Seq<char>>::empty(),
            builder.colors@ == Map::<Seq<char>, Seq<char>>::empty(),
            builder.unknown@ == Seq::<String>::empty(),
    {
        ConfigBuilder {
            work: DEFAULT_WORK_MINS,
            short_break: DEFAULT_SHORT_BREAK_MINS,
            long_break: DEFAULT_LONG_BREAK_MINS,
            auto_start_work: false,
            auto_start_break: false,
            interval: DEFAULT_INTERVAL_MS,
            render_mode: String::from_str(DEFAULT_RENDER_MODE),
            fill_direction: String::from_str(DEFAULT_FILL_DIRECTION),
            phase_indicator_display: String::from_str(DEFAULT_PHASE_INDICATOR_DISPLAY),
            pulse_on_pause: false,
            sounds: Table::new(),
            phases: Table::new(),
            labels: Table::new(),
            colors: Table::new(),
            unknown: Vec::new(),
        }
    }
}

impl Default for Config {
    /// The configuration built where nothing is configured.
    fn default() -> (config: Config)
        ensures
            config.work == DEFAULT_WORK_MINS,
            config.short_break == DEFAULT_SHORT_BREAK_MINS,
            config.long_break == DEFAULT_LONG_BREAK_MINS,
            !config.auto_start_work,
            !config.auto_start_break,
            config.interval == DEFAULT_INTERVAL_MS,
            config.render_mode == RenderMode::Text,
            config.fill_direction == FillDirection::EmptyToFull,
            config.phase_indicator_display == PhaseIndicatorDisplay::Paused,
            !config.pulse_on_pause,
            config.sounds@ == Map::<Seq<char>, Seq<char>>::empty(),
            config.phases@ == Map::<Seq<char>, Seq<char>>::empty(),
            config.labels@ == default_labels_map(),
            config.colors@ == default_colors_map(),
    {
        proof {
            crate::render::lemma_render_mode_names(RenderMode::Text, DEFAULT_RENDER_MODE@);
            crate::render::lemma_fill_direction_names(
                FillDirection::EmptyToFull,
                DEFAULT_FILL_DIRECTION@,
            );
            crate::render::lemma_phase_indicator_names(
                PhaseIndicatorDisplay::Paused,
                DEFAULT_PHASE_INDICATOR_DISPLAY@,
            );
        }
        let config = ConfigBuilder::default().build();
        assert(config.labels@ =~= default_labels_map());
        assert(config.colors@ =~= default_colors_map());
        config
    }
}

/// The default colors and labels, key by key.
pub proof fn lemma_defaults()
    ensures
        default_colors_map().dom() =~= set![
            "fg"@,
            "work_bg"@,
            "break_bg"@,
            "paused_bg"@,
            "empty_bg"@,
            "dot_running"@,
            "dot_paused"@,
        ],
        default_colors_map()["fg"@] == "#ffffff"@,
        default_colors_map()["work_bg"@] == "#e57373"@,
        default_colors_map()["break_bg"@] == "#81c784"@,
        default_colors_map()["paused_bg"@] == "#7f8c8d"@,
        default_colors_map()["empty_bg"@] == "#2c3e50"@,
        default_colors_map()["dot_running"@] == "#008000"@,
        default_colors_map()["dot_paused"@] == "#808080"@,
        default_labels_map().dom() =~= set!["paused"@],
        default_labels_map()["paused"@] == "PAUSED"@,
{
    reveal_strlit("fg");
    reveal_strlit("work_bg");
    reveal_strlit("break_bg");
    reveal_strlit("paused_bg");
    reveal_strlit("empty_bg");
    reveal_strlit("dot_running");
    reveal_strlit("dot_paused");
    assert("fg"@.len() == 2);
    assert("work_bg"@[0] == 'w');
    assert("break_bg"@[0] == 'b');
    assert("paused_bg"@[0] == 'p');
    assert("empty_bg"@[0] == 'e');
    assert("dot_running"@[4] == 'r');
    assert("dot_paused"@[4] == 'p');
}

/// Every built configuration has durations of at least a minute.
pub proof fn lemma_built_durations_positive(builder: ConfigBuilder, config: Config)
    requires
        builder.built(config),
    ensures
        config.work >= 1,
        config.short_break >= 1,
        config.long_break >= 1,
{
}

/// A color or label that the configuration names is kept; one that it does
/// not name has its default value, if there is one for it.
pub proof fn lemma_built_tables(builder: ConfigBuilder, config: Config, key: Seq<char>)
    requires
        builder.built(config),
    ensures
        builder.colors@.contains_key(key) ==> config.colors@.contains_key(key)
            && config.colors@[key] == builder.colors@[key],
        !builder.colors@.contains_key(key) && default_colors_map().contains_key(key)
            ==> config.colors@.contains_key(key) && config.colors@[key] == default_colors_map()[key],
        config.colors@.contains_key(key) <==> builder.colors@.contains_key(key)
            || default_colors_map().contains_key(key),
        builder.labels@.contains_key(key) ==> config.labels@.contains_key(key)
            && config.labels@[key] == builder.labels@[key],
        !builder.labels@.contains_key(key) && default_labels_map().contains_key(key)
            ==> config.labels@.contains_key(key) && config.labels@[key] == default_labels_map()[key],
        config.labels@.contains_key(key) <==> builder.labels@.contains_key(key)
            || default_labels_map().contains_key(key),
{
}

} // verus!
