//! The cycle of sitting and standing.
//!
//! The cycle has two phases and no end. Each phase lasts the minutes that the
//! settings give it, counted from the timestamp at which it began. When a
//! phase has lasted that long, or when nothing readable says when it began,
//! the other phase begins.

use crate::document::{durations_positive, AppData, NotificationSettings, SettingsView};
use crate::text::same_text;
use crate::timestamp::{minutes_between, rfc3339_minutes_between};
use vstd::prelude::*;

verus! {

/// A phase of the cycle.
#[derive(Clone, Copy, Debug, PartialEq, Eq, Structural)]
pub enum StandMode {
    Sitting,
    Standing,
}

/// How long the present phase has lasted.
#[derive(Clone, Copy, Debug, PartialEq, Eq, Structural)]
pub enum PhaseAge {
    /// Nothing readable says when the phase began.
    Unknown,
    /// The whole minutes since the phase began.
    Minutes(i64),
}

/// The beginning of a new phase: the phase, and the document that records it.
#[derive(Debug, Clone, PartialEq, Eq)]
pub struct StandSwitch {
    pub mode: StandMode,
    pub document: AppData,
}

impl StandMode {
    /// The text by which a document names the phase.
    pub open spec fn label_text(self) -> Seq<char> {
        match self {
            StandMode::Sitting => "sitting"@,
            StandMode::Standing => "standing"@,
        }
    }

    /// The other phase.
    pub open spec fn other(self) -> StandMode {
        match self {
            StandMode::Sitting => StandMode::Standing,
            StandMode::Standing => StandMode::Sitting,
        }
    }

    /// The text by which a document names the phase.
    pub fn label(&self) -> (r: &'static str)
        ensures
            r@ == self.label_text(),
    {
        match self {
            StandMode::Sitting => "sitting",
            StandMode::Standing => "standing",
        }
    }

    /// The phase that follows this one.
    pub fn flipped(&self) -> (r: StandMode)
        ensures
            r == self.other(),
    {
        match self {
            StandMode::Sitting => StandMode::Standing,
            StandMode::Standing => StandMode::Sitting,
        }
    }
}

/// The phase that a document's text names: sitting for `sitting` and for the
/// empty text, standing for any other.
pub open spec fn mode_of(text: Seq<char>) -> StandMode {
    if text.len() == 0 || text == "sitting"@ {
        StandMode::Sitting
    } else {
        StandMode::Standing
    }
}

/// The minutes that the present phase is to last.
pub open spec fn phase_minutes(settings: SettingsView) -> u32 {
    match mode_of(settings.stand_mode) {
        StandMode::Sitting => settings.sit_duration_minutes,
        StandMode::Standing => settings.stand_duration_minutes,
    }
}

/// How long the phase that began at `changed_at` has lasted at `now`. The
/// age is unknown where no beginning is recorded, and where the minutes
/// cannot be counted because the beginning or `now` is no RFC 3339 timestamp.
pub open spec fn age_of(changed_at: Option<Seq<char>>, now: Seq<char>) -> PhaseAge {
    match changed_at {
        None => PhaseAge::Unknown,
        Some(began) => match rfc3339_minutes_between(now, began) {
            None => PhaseAge::Unknown,
            Some(minutes) => PhaseAge::Minutes(minutes),
        },
    }
}

/// The other phase is to begin: stand reminders are on, and the present
/// phase has lasted its minutes or has no known beginning.
pub open spec fn switch_due(settings: SettingsView, age: PhaseAge) -> bool {
    settings.stand_reminder_enabled && match age {
        PhaseAge::Unknown => true,
        PhaseAge::Minutes(minutes) => minutes >= phase_minutes(settings),
    }
}

/// The settings once the other phase has begun at `now`.
pub open spec fn switched(settings: SettingsView, now: Seq<char>) -> SettingsView {
    SettingsView {
        stand_mode: mode_of(settings.stand_mode).other().label_text(),
        stand_mode_changed_at: Some(now),
        ..settings
    }
}

impl NotificationSettings {
    /// The present phase.
    pub fn current_mode(&self) -> (mode: StandMode)
        ensures
            mode == mode_of(self.stand_mode@),
    {
        let text = self.stand_mode.as_str();
        if text.is_empty() || same_text(text, "sitting") {
            StandMode::Sitting
        } else {
            StandMode::Standing
        }
    }

    /// The minutes that the present phase is to last.
    pub fn phase_duration(&self) -> (minutes: u32)
        ensures
            minutes == phase_minutes(self@),
    {
        match self.current_mode() {
            StandMode::Sitting => self.sit_duration_minutes,
            StandMode::Standing => self.stand_duration_minutes,
        }
    }

    /// How long the present phase has lasted at `now`, an RFC 3339 timestamp.
    /// Where `now` is none, the age is unknown whatever the document records.
    pub fn phase_age(&self, now: &str) -> (age: PhaseAge)
        ensures
            age == age_of(self@.stand_mode_changed_at, now@),
    {
        match &self.stand_mode_changed_at {
            None => PhaseAge::Unknown,
            Some(began) => match minutes_between(now, began.as_str()) {
                None => PhaseAge::Unknown,
                Some(minutes) => PhaseAge::Minutes(minutes),
            },
        }
    }

    /// Whether the other phase is to begin, the present one having lasted `age`.
    pub fn switch_is_due(&self, age: PhaseAge) -> (due: bool)
        ensures
            due == switch_due(self@, age),
    {
        self.stand_reminder_enabled && match age {
            PhaseAge::Unknown => true,
            PhaseAge::Minutes(minutes) => minutes >= self.phase_duration() as i64,
        }
    }
}

/// One step of the cycle on a document whose present phase has lasted `age`.
/// Where the other phase is due, it begins at `now`: the document names the
/// new phase and `now` as its beginning, and is otherwise as it was. `now`
/// is recorded as it is given, whether or not it is an RFC 3339 timestamp.
pub fn duty_cycle_step(data: AppData, age: PhaseAge, now: &str) -> (r: Option<StandSwitch>)
    ensures
        r is Some <==> switch_due(data.notifications@, age),
        r matches Some(switch) ==> {
            &&& switch.mode == mode_of(data.notifications.stand_mode@).other()
            &&& switch.document.notifications@ == switched(data.notifications@, now@)
            &&& switch.document.same_payload(&data)
            &&& durations_positive(switch.document.notifications@) == durations_positive(
                data.notifications@,
            )
        },
{
    if !data.notifications.switch_is_due(age) {
        return None;
    }
    let mode = data.notifications.current_mode().flipped();
    let mut document = data;
    document.notifications.stand_mode = mode.label().to_owned();
    document.notifications.stand_mode_changed_at = Some(now.to_owned());
    Some(StandSwitch { mode, document })
}

/// A cycle that is switched on and has no recorded beginning takes its first
/// step at once, whatever the clock shows and whatever the durations are.
pub proof fn law_first_step_is_immediate(settings: SettingsView, now: Seq<char>)
    requires
        settings.stand_reminder_enabled,
        settings.stand_mode_changed_at is None,
    ensures
        switch_due(settings, age_of(settings.stand_mode_changed_at, now)),
{
}

/// Where the minutes since the beginning cannot be counted, the step is due.
/// That is so where the recorded beginning is no RFC 3339 timestamp, which
/// then counts as no beginning at all. It is equally so where `now` itself
/// is none, whatever the beginning: a caller that hands over such a `now`
/// gets a step at every call, each recording that `now` as the beginning.
pub proof fn law_uncountable_age_is_due(settings: SettingsView, now: Seq<char>)
    requires
        settings.stand_reminder_enabled,
        settings.stand_mode_changed_at matches Some(began) && rfc3339_minutes_between(now, began)
            is None,
    ensures
        switch_due(settings, age_of(settings.stand_mode_changed_at, now)),
{
}

/// A `now` from which no minutes can be counted even to itself is no RFC 3339
/// timestamp. A step records it all the same, and the phase that it begins
/// is over at once when looked at with the same `now`.
pub proof fn law_unreadable_now_steps_again(settings: SettingsView, now: Seq<char>)
    requires
        settings.stand_reminder_enabled,
        rfc3339_minutes_between(now, now) is None,
    ensures
        switched(settings, now).stand_mode_changed_at == Some(now),
        switch_due(
            switched(settings, now),
            age_of(switched(settings, now).stand_mode_changed_at, now),
        ),
{
}

/// A step leaves the two durations as they are, and with them the rule that
/// both are one minute or more.
pub proof fn law_step_keeps_durations(settings: SettingsView, now: Seq<char>)
    ensures
        switched(settings, now).sit_duration_minutes == settings.sit_duration_minutes,
        switched(settings, now).stand_duration_minutes == settings.stand_duration_minutes,
        durations_positive(switched(settings, now)) == durations_positive(settings),
{
}

/// A phase ends when it has lasted its minutes, and not before: a phase of
/// `n` minutes is over after `n + 1` minutes and after `n`, and is not over
/// after `n - 1`.
pub proof fn law_phase_ends_on_time(settings: SettingsView)
    requires
        settings.stand_reminder_enabled,
    ensures
        switch_due(settings, PhaseAge::Minutes((phase_minutes(settings) + 1) as i64)),
        switch_due(settings, PhaseAge::Minutes(phase_minutes(settings) as i64)),
        !switch_due(settings, PhaseAge::Minutes((phase_minutes(settings) - 1) as i64)),
{
}

/// Sitting for `n` minutes ends after `n + 1` minutes, and standing begins;
/// after `n - 1` minutes it goes on.
pub proof fn law_sitting_ends_on_time(settings: SettingsView, now: Seq<char>)
    requires
        settings.stand_reminder_enabled,
        mode_of(settings.stand_mode) == StandMode::Sitting,
    ensures
        switch_due(settings, PhaseAge::Minutes((settings.sit_duration_minutes + 1) as i64)),
        mode_of(switched(settings, now).stand_mode) == StandMode::Standing,
        !switch_due(settings, PhaseAge::Minutes((settings.sit_duration_minutes - 1) as i64)),
{
    reveal_strlit("sitting");
    reveal_strlit("standing");
    assert("standing"@[1] != "sitting"@[1]);
}

/// Sitting is followed by standing and standing by sitting: after a step the
/// document names the other phase, and `now` as its beginning.
pub proof fn law_phases_alternate(settings: SettingsView, now: Seq<char>)
    ensures
        mode_of(switched(settings, now).stand_mode) == mode_of(settings.stand_mode).other(),
        switched(settings, now).stand_mode_changed_at == Some(now),
        mode_of(switched(switched(settings, now), now).stand_mode) == mode_of(settings.stand_mode),
{
    reveal_strlit("sitting");
    reveal_strlit("standing");
    assert("standing"@[1] != "sitting"@[1]);
}

/// A phase of one minute or more that has only just begun goes on: the step
/// that began it is not followed by another at once. A phase of no minutes
/// is over as soon as it has begun.
pub proof fn law_fresh_phase_goes_on(settings: SettingsView)
    ensures
        phase_minutes(settings) > 0 ==> !switch_due(settings, PhaseAge::Minutes(0)),
        phase_minutes(settings) == 0 && settings.stand_reminder_enabled ==> switch_due(
            settings,
            PhaseAge::Minutes(0),
        ),
{
}

/// While stand reminders are switched off the cycle stands still.
pub proof fn law_no_step_when_switched_off(settings: SettingsView, age: PhaseAge)
    requires
        !settings.stand_reminder_enabled,
    ensures
        !switch_due(settings, age),
{
}

} // verus!
