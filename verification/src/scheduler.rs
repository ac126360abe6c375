//! What one tick of the scheduler does.
//!
//! The scheduler's owner wakes at a fixed interval, reads the document and
//! the wall clock, and hands both to [`Scheduler::tick`]. The answer says
//! which notices to deliver, in order, and whether the sit and stand cycle
//! begins a new phase, in which case the changed document is to be saved and
//! the main window shown. The scheduler remembers the dates on which the
//! daily and the weekly reminder last fired, and nothing else.

use crate::document::{text_of, AppData, SettingsView};
use crate::duty_cycle::{
    age_of, duty_cycle_step, mode_of, switch_due, switched, PhaseAge, StandMode, StandSwitch,
};
use crate::reminder::{
    day_matches, in_firing_window, named_day, parse_time, time_of_day, within_firing_window,
    Weekday,
};
use crate::text::same_text;
use vstd::prelude::*;

verus! {

/// One reading of the wall clock, in local time.
#[derive(Debug, Clone, PartialEq, Eq)]
pub struct Clock {
    /// The calendar date, `YYYY-MM-DD`.
    pub date: String,
    /// The hour of the day, 0 to 23.
    pub hour: u32,
    /// The minute of the hour, 0 to 59.
    pub minute: u32,
    pub weekday: Weekday,
    /// The instant, as an RFC 3339 timestamp. The age of the present phase
    /// of the sit and stand cycle is counted from the document's timestamp
    /// to this one, and a new phase records this text as its beginning.
    ///
    /// The text is taken as it is given. Where it is no RFC 3339 timestamp
    /// no age can be counted, so a cycle that is switched on begins a new
    /// phase at every tick, and each records the unreadable text.
    pub timestamp: String,
}

/// A reading of the wall clock as plain values.
pub struct ClockView {
    pub date: Seq<char>,
    pub hour: u32,
    pub minute: u32,
    pub weekday: Weekday,
    pub timestamp: Seq<char>,
}

impl View for Clock {
    type V = ClockView;

    open spec fn view(&self) -> ClockView {
        ClockView {
            date: self.date@,
            hour: self.hour,
            minute: self.minute,
            weekday: self.weekday,
            timestamp: self.timestamp@,
        }
    }
}

/// The dates on which the daily and the weekly reminder last fired.
#[derive(Debug, Clone, PartialEq, Eq)]
pub struct LastNotification {
    pub daily_date: Option<String>,
    pub weekly_date: Option<String>,
}

/// The two dates as plain values.
pub struct MarkersView {
    pub daily: Option<Seq<char>>,
    pub weekly: Option<Seq<char>>,
}

impl View for LastNotification {
    type V = MarkersView;

    open spec fn view(&self) -> MarkersView {
        MarkersView { daily: text_of(self.daily_date), weekly: text_of(self.weekly_date) }
    }
}

impl Default for LastNotification {
    fn default() -> (r: Self)
        ensures
            r@ == (MarkersView { daily: None, weekly: None }),
    {
        LastNotification { daily_date: None, weekly_date: None }
    }
}

/// A message for the user.
#[derive(Clone, Copy, Debug, PartialEq, Eq, Structural)]
pub enum Notice {
    DailyCheckIn,
    WeeklyReflection,
    TimeToStand,
    YouCanSit,
}

impl Notice {
    /// The title of the message.
    pub open spec fn title_text(self) -> Seq<char> {
        match self {
            Notice::DailyCheckIn => "Daily Check-in"@,
            Notice::WeeklyReflection => "Weekly Reflection"@,
            Notice::TimeToStand => "Time to Stand!"@,
            Notice::YouCanSit => "You Can Sit Now"@,
        }
    }

    /// The body of the message.
    pub open spec fn body_text(self) -> Seq<char> {
        match self {
            Notice::DailyCheckIn => "Time to review your growth goals!"@,
            Notice::WeeklyReflection => "Take a moment to reflect on your week's progress."@,
            Notice::TimeToStand => "Take a break and stand up for a bit."@,
            Notice::YouCanSit => "Good job standing! You can sit down now."@,
        }
    }

    /// The title of the message.
    pub fn title(&self) -> (r: &'static str)
        ensures
            r@ == self.title_text(),
    {
        match self {
            Notice::DailyCheckIn => "Daily Check-in",
            Notice::WeeklyReflection => "Weekly Reflection",
            Notice::TimeToStand => "Time to Stand!",
            Notice::YouCanSit => "You Can Sit Now",
        }
    }

    /// The body of the message.
    pub fn body(&self) -> (r: &'static str)
        ensures
            r@ == self.body_text(),
    {
        match self {
            Notice::DailyCheckIn => "Time to review your growth goals!",
            Notice::WeeklyReflection => "Take a moment to reflect on your week's progress.",
            Notice::TimeToStand => "Take a break and stand up for a bit.",
            Notice::YouCanSit => "Good job standing! You can sit down now.",
        }
    }
}

impl StandMode {
    /// The message that announces the beginning of the phase.
    pub open spec fn announced_by(self) -> Notice {
        match self {
            StandMode::Standing => Notice::TimeToStand,
            StandMode::Sitting => Notice::YouCanSit,
        }
    }

    /// The message that announces the beginning of the phase.
    pub fn notice(&self) -> (r: Notice)
        ensures
            r == self.announced_by(),
    {
        match self {
            StandMode::Standing => Notice::TimeToStand,
            StandMode::Sitting => Notice::YouCanSit,
        }
    }
}

/// What one tick asks of the scheduler's owner.
#[derive(Debug, Clone, PartialEq, Eq)]
pub struct TickPlan {
    /// The messages to deliver, in order.
    pub notices: Vec<Notice>,
    /// The new phase of the sit and stand cycle, if one begins: its document
    /// is to be saved, and the main window shown and focused.
    pub stand: Option<StandSwitch>,
}

/// The clock is within the firing window of a reminder set for `target`.
/// A reminder whose time of day could not be read has no window.
pub open spec fn window_open(target: Option<(u32, u32)>, clock: ClockView) -> bool {
    match target {
        Some((hour, minute)) => in_firing_window(
            clock.hour as int,
            clock.minute as int,
            hour as int,
            minute as int,
        ),
        None => false,
    }
}

/// A reminder set for `target` fires at `clock`: its window is open, and it
/// has not fired on the clock's date.
pub open spec fn reminder_due(
    target: Option<(u32, u32)>,
    clock: ClockView,
    last_fired: Option<Seq<char>>,
) -> bool {
    window_open(target, clock) && last_fired != Some(clock.date)
}

/// The daily reminder is switched on and its window is open.
pub open spec fn daily_window_open(settings: SettingsView, clock: ClockView) -> bool {
    &&& settings.enabled
    &&& settings.daily_reminder
    &&& window_open(time_of_day(settings.daily_time), clock)
}

/// The weekly reminder is switched on, the clock shows its day of the week,
/// and its window is open.
pub open spec fn weekly_window_open(settings: SettingsView, clock: ClockView) -> bool {
    &&& settings.enabled
    &&& settings.weekly_reminder
    &&& named_day(settings.weekly_day) == Some(clock.weekday)
    &&& window_open(time_of_day(settings.weekly_time), clock)
}

/// The daily reminder fires: its window is open, and it has not fired on the
/// clock's date.
pub open spec fn daily_due(settings: SettingsView, clock: ClockView, last: MarkersView) -> bool {
    daily_window_open(settings, clock) && last.daily != Some(clock.date)
}

/// The weekly reminder fires: its window is open, and it has not fired on
/// the clock's date.
pub open spec fn weekly_due(settings: SettingsView, clock: ClockView, last: MarkersView) -> bool {
    weekly_window_open(settings, clock) && last.weekly != Some(clock.date)
}

/// The sit and stand cycle begins a new phase.
pub open spec fn stand_due(settings: SettingsView, age: PhaseAge) -> bool {
    settings.enabled && switch_due(settings, age)
}

/// The dates of the last firing after a tick: a reminder that fired has the
/// clock's date, the other keeps what it had.
pub open spec fn markers_after(settings: SettingsView, clock: ClockView, last: MarkersView) -> MarkersView {
    MarkersView {
        daily: if daily_due(settings, clock, last) {
            Some(clock.date)
        } else {
            last.daily
        },
        weekly: if weekly_due(settings, clock, last) {
            Some(clock.date)
        } else {
            last.weekly
        },
    }
}

/// The messages of a tick: the daily reminder, the weekly reminder and the
/// announcement of a new phase, each where it is due, in this order.
pub open spec fn notices_due(
    settings: SettingsView,
    clock: ClockView,
    last: MarkersView,
    age: PhaseAge,
) -> Seq<Notice> {
    let daily = if daily_due(settings, clock, last) {
        seq![Notice::DailyCheckIn]
    } else {
        Seq::<Notice>::empty()
    };
    let weekly = if weekly_due(settings, clock, last) {
        seq![Notice::WeeklyReflection]
    } else {
        Seq::<Notice>::empty()
    };
    let stand = if stand_due(settings, age) {
        seq![mode_of(settings.stand_mode).other().announced_by()]
    } else {
        Seq::<Notice>::empty()
    };
    daily + weekly + stand
}

/// `plan` is what a tick on `data` at `clock` asks for, the reminders having
/// last fired on `last` and the present phase having lasted `age`.
pub open spec fn plan_of_tick(
    plan: TickPlan,
    data: AppData,
    clock: ClockView,
    last: MarkersView,
    age: PhaseAge,
) -> bool {
    &&& plan.notices@ == notices_due(data.notifications@, clock, last, age)
    &&& plan.stand is Some <==> stand_due(data.notifications@, age)
    &&& plan.stand matches Some(switch) ==> {
        &&& switch.mode == mode_of(data.notifications.stand_mode@).other()
        &&& switch.document.notifications@ == switched(data.notifications@, clock.timestamp)
        &&& switch.document.same_payload(&data)
    }
}

/// Whether a reminder last fired on `date`.
fn fired_on(last_fired: &Option<String>, date: &str) -> (r: bool)
    ensures
        r == (text_of(*last_fired) == Some(date@)),
{
    match last_fired {
        Some(fired) => same_text(fired.as_str(), date),
        None => false,
    }
}

/// Whether a reminder set for the time of day that `time` names fires at `clock`.
fn reminder_fires(time: &str, clock: &Clock, last_fired: &Option<String>) -> (r: bool)
    ensures
        r == reminder_due(time_of_day(time@), clock@, text_of(*last_fired)),
{
    match parse_time(time) {
        Some((hour, minute)) => within_firing_window(clock.hour, clock.minute, hour, minute)
            && !fired_on(last_fired, clock.date.as_str()),
        None => false,
    }
}

/// The owner of the dates on which the reminders last fired.
#[derive(Debug, Clone, PartialEq, Eq)]
pub struct Scheduler {
    pub last_sent: LastNotification,
}

impl View for Scheduler {
    type V = MarkersView;

    open spec fn view(&self) -> MarkersView {
        self.last_sent@
    }
}

impl Scheduler {
    /// A scheduler whose reminders have not fired yet.
    pub fn new() -> (r: Self)
        ensures
            r@ == (MarkersView { daily: None, weekly: None }),
    {
        Scheduler { last_sent: LastNotification::default() }
    }

    /// One tick on a document whose present phase has lasted `age`.
    ///
    /// With the reminders switched off nothing happens. Otherwise the daily
    /// and the weekly reminder fire where they are due and are marked as
    /// fired on the clock's date, and the sit and stand cycle takes one step.
    pub fn advance(&mut self, data: AppData, clock: &Clock, age: PhaseAge) -> (plan: TickPlan)
        ensures
            plan_of_tick(plan, data, clock@, old(self)@, age),
            final(self)@ == markers_after(data.notifications@, clock@, old(self)@),
    {
        let mut notices: Vec<Notice> = Vec::new();
        if !data.notifications.enabled {
            assert(notices@ =~= notices_due(data.notifications@, clock@, old(self)@, age));
            return TickPlan { notices, stand: None };
        }
        if data.notifications.daily_reminder && reminder_fires(
            data.notifications.daily_time.as_str(),
            clock,
            &self.last_sent.daily_date,
        ) {
            notices.push(Notice::DailyCheckIn);
            self.last_sent.daily_date = Some(clock.date.clone());
        }
        if data.notifications.weekly_reminder && day_matches(
            data.notifications.weekly_day.as_str(),
            clock.weekday,
        ) && reminder_fires(
            data.notifications.weekly_time.as_str(),
            clock,
            &self.last_sent.weekly_date,
        ) {
            notices.push(Notice::WeeklyReflection);
            self.last_sent.weekly_date = Some(clock.date.clone());
        }
        let stand = duty_cycle_step(data, age, clock.timestamp.as_str());
        match &stand {
            Some(switch) => {
                notices.push(switch.mode.notice());
            },
            None => {},
        }
        assert(notices@ =~= notices_due(data.notifications@, clock@, old(self)@, age));
        TickPlan { notices, stand }
    }

    /// One tick: [`Scheduler::advance`], with the age of the present phase
    /// taken from the document's timestamp and the clock's.
    pub fn tick(&mut self, data: AppData, clock: &Clock) -> (plan: TickPlan)
        ensures
            plan_of_tick(
                plan,
                data,
                clock@,
                old(self)@,
                age_of(data.notifications@.stand_mode_changed_at, clock@.timestamp),
            ),
            final(self)@ == markers_after(data.notifications@, clock@, old(self)@),
    {
        let age = data.notifications.phase_age(clock.timestamp.as_str());
        self.advance(data, clock, age)
    }
}

/// What one tick is given, as plain values.
pub struct TickView {
    pub settings: SettingsView,
    pub clock: ClockView,
}

/// The dates of the last firing after a run of ticks, taken in order.
pub open spec fn markers_after_all(last: MarkersView, ticks: Seq<TickView>) -> MarkersView
    decreases ticks.len(),
{
    if ticks.len() == 0 {
        last
    } else {
        markers_after(
            ticks.last().settings,
            ticks.last().clock,
            markers_after_all(last, ticks.drop_last()),
        )
    }
}

/// How often the daily reminder fires in a run of ticks.
pub open spec fn daily_firings(last: MarkersView, ticks: Seq<TickView>) -> nat
    decreases ticks.len(),
{
    if ticks.len() == 0 {
        0
    } else {
        let before = markers_after_all(last, ticks.drop_last());
        let fires: nat = if daily_due(ticks.last().settings, ticks.last().clock, before) {
            1
        } else {
            0
        };
        daily_firings(last, ticks.drop_last()) + fires
    }
}

/// How often the weekly reminder fires in a run of ticks.
pub open spec fn weekly_firings(last: MarkersView, ticks: Seq<TickView>) -> nat
    decreases ticks.len(),
{
    if ticks.len() == 0 {
        0
    } else {
        let before = markers_after_all(last, ticks.drop_last());
        let fires: nat = if weekly_due(ticks.last().settings, ticks.last().clock, before) {
            1
        } else {
            0
        };
        weekly_firings(last, ticks.drop_last()) + fires
    }
}

/// Every tick of the run reads the same calendar date.
pub open spec fn all_on(ticks: Seq<TickView>, date: Seq<char>) -> bool {
    forall|i: int| 0 <= i < ticks.len() ==> (#[trigger] ticks[i]).clock.date == date
}

/// The daily reminder, switched on and set for a readable time of day, fires
/// in the minutes of its window and in no other minute, as long as it has
/// not fired on the clock's date. Nothing else in the settings or on the
/// clock has a say.
pub proof fn law_daily_fires_in_window(
    settings: SettingsView,
    clock: ClockView,
    last: MarkersView,
    target_hour: u32,
    target_minute: u32,
)
    requires
        settings.enabled,
        settings.daily_reminder,
        time_of_day(settings.daily_time) == Some((target_hour, target_minute)),
        last.daily != Some(clock.date),
    ensures
        daily_due(settings, clock, last) <==> clock.hour == target_hour && target_minute
            <= clock.minute < target_minute + 5,
{
}

/// The weekly reminder, switched on and set for a readable time of day,
/// fires on its day of the week in the minutes of its window and at no other
/// time, as long as it has not fired on the clock's date.
pub proof fn law_weekly_fires_in_window(
    settings: SettingsView,
    clock: ClockView,
    last: MarkersView,
    target_hour: u32,
    target_minute: u32,
)
    requires
        settings.enabled,
        settings.weekly_reminder,
        time_of_day(settings.weekly_time) == Some((target_hour, target_minute)),
        last.weekly != Some(clock.date),
    ensures
        weekly_due(settings, clock, last) <==> named_day(settings.weekly_day) == Some(
            clock.weekday,
        ) && clock.hour == target_hour && target_minute <= clock.minute < target_minute + 5,
{
}

/// A weekly reminder whose day is no day name never fires, at any time.
pub proof fn law_unnamed_day_never_fires(settings: SettingsView, clock: ClockView, last: MarkersView)
    requires
        named_day(settings.weekly_day) is None,
    ensures
        !weekly_due(settings, clock, last),
        markers_after(settings, clock, last).weekly == last.weekly,
{
}

/// A reminder whose time of day cannot be read never fires.
pub proof fn law_unreadable_time_never_fires(
    settings: SettingsView,
    clock: ClockView,
    last: MarkersView,
)
    ensures
        time_of_day(settings.daily_time) is None ==> !daily_due(settings, clock, last),
        time_of_day(settings.weekly_time) is None ==> !weekly_due(settings, clock, last),
{
}

/// A reminder that has fired does not fire again on the same date, whatever
/// the settings and the clock of the later tick.
pub proof fn law_fired_is_marked(
    settings: SettingsView,
    clock: ClockView,
    last: MarkersView,
    later_settings: SettingsView,
    later_clock: ClockView,
)
    requires
        later_clock.date == clock.date,
    ensures
        daily_due(settings, clock, last) ==> !daily_due(
            later_settings,
            later_clock,
            markers_after(settings, clock, last),
        ),
        weekly_due(settings, clock, last) ==> !weekly_due(
            later_settings,
            later_clock,
            markers_after(settings, clock, last),
        ),
{
}

/// In a run of ticks on one calendar date each reminder fires at most once,
/// and one that has fired is marked with that date.
pub proof fn law_at_most_once_a_day(last: MarkersView, ticks: Seq<TickView>, date: Seq<char>)
    requires
        all_on(ticks, date),
    ensures
        daily_firings(last, ticks) <= 1,
        weekly_firings(last, ticks) <= 1,
        daily_firings(last, ticks) == 1 || last.daily == Some(date) ==> markers_after_all(
            last,
            ticks,
        ).daily == Some(date),
        weekly_firings(last, ticks) == 1 || last.weekly == Some(date) ==> markers_after_all(
            last,
            ticks,
        ).weekly == Some(date),
        last.daily == Some(date) ==> daily_firings(last, ticks) == 0,
        last.weekly == Some(date) ==> weekly_firings(last, ticks) == 0,
    decreases ticks.len(),
{
    if ticks.len() > 0 {
        let earlier = ticks.drop_last();
        assert forall|i: int| 0 <= i < earlier.len() implies (#[trigger] earlier[i]).clock.date
            == date by {
            assert(earlier[i] == ticks[i]);
        }
        law_at_most_once_a_day(last, earlier, date);
        assert(ticks.last() == ticks[ticks.len() - 1]);
    }
}

/// In a run of ticks on one calendar date, during all of which the window of
/// the daily reminder is open, the reminder fires exactly once, provided
/// that it had not fired on that date before the run.
pub proof fn law_daily_fires_once_in_window(
    last: MarkersView,
    ticks: Seq<TickView>,
    date: Seq<char>,
)
    requires
        ticks.len() > 0,
        all_on(ticks, date),
        last.daily != Some(date),
        forall|i: int|
            0 <= i < ticks.len() ==> daily_window_open((#[trigger] ticks[i]).settings, ticks[i].clock),
    ensures
        daily_firings(last, ticks) == 1,
    decreases ticks.len(),
{
    let earlier = ticks.drop_last();
    assert(ticks.last() == ticks[ticks.len() - 1]);
    assert forall|i: int| 0 <= i < earlier.len() implies (#[trigger] earlier[i]).clock.date
        == date by {
        assert(earlier[i] == ticks[i]);
    }
    if earlier.len() == 0 {
        assert(daily_firings(last, earlier) == 0);
        assert(markers_after_all(last, earlier) == last);
    } else {
        assert forall|i: int| 0 <= i < earlier.len() implies daily_window_open(
            (#[trigger] earlier[i]).settings,
            earlier[i].clock,
        ) by {
            assert(earlier[i] == ticks[i]);
        }
        law_daily_fires_once_in_window(last, earlier, date);
        law_at_most_once_a_day(last, earlier, date);
    }
}

/// In a run of ticks on one calendar date, during all of which the window of
/// the weekly reminder is open, the reminder fires exactly once, provided
/// that it had not fired on that date before the run.
pub proof fn law_weekly_fires_once_in_window(
    last: MarkersView,
    ticks: Seq<TickView>,
    date: Seq<char>,
)
    requires
        ticks.len() > 0,
        all_on(ticks, date),
        last.weekly != Some(date),
        forall|i: int|
            0 <= i < ticks.len() ==> weekly_window_open(
                (#[trigger] ticks[i]).settings,
                ticks[i].clock,
            ),
    ensures
        weekly_firings(last, ticks) == 1,
    decreases ticks.len(),
{
    let earlier = ticks.drop_last();
    assert(ticks.last() == ticks[ticks.len() - 1]);
    assert forall|i: int| 0 <= i < earlier.len() implies (#[trigger] earlier[i]).clock.date
        == date by {
        assert(earlier[i] == ticks[i]);
    }
    if earlier.len() == 0 {
        assert(weekly_firings(last, earlier) == 0);
        assert(markers_after_all(last, earlier) == last);
    } else {
        assert forall|i: int| 0 <= i < earlier.len() implies weekly_window_open(
            (#[trigger] earlier[i]).settings,
            earlier[i].clock,
        ) by {
            assert(earlier[i] == ticks[i]);
        }
        law_weekly_fires_once_in_window(last, earlier, date);
        law_at_most_once_a_day(last, earlier, date);
    }
}

/// With the reminders switched off a tick does nothing: no message, no new
/// phase, and the dates of the last firing stay as they are.
pub proof fn law_switched_off_is_idle(
    settings: SettingsView,
    clock: ClockView,
    last: MarkersView,
    age: PhaseAge,
)
    requires
        !settings.enabled,
    ensures
        notices_due(settings, clock, last, age) =~= Seq::<Notice>::empty(),
        !stand_due(settings, age),
        markers_after(settings, clock, last) == last,
{
}

/// With the reminders and the stand reminders switched on, a document that
/// records no beginning of a phase begins a new phase at the first tick, and
/// the tick announces it.
pub proof fn law_first_tick_begins_a_phase(
    settings: SettingsView,
    clock: ClockView,
    last: MarkersView,
)
    requires
        settings.enabled,
        settings.stand_reminder_enabled,
        settings.stand_mode_changed_at is None,
    ensures
        stand_due(settings, age_of(settings.stand_mode_changed_at, clock.timestamp)),
        notices_due(
            settings,
            clock,
            last,
            age_of(settings.stand_mode_changed_at, clock.timestamp),
        ).last() == mode_of(settings.stand_mode).other().announced_by(),
{
}

} // verus!
