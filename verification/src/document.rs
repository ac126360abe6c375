//! The persisted document and the values that absent fields take.
//!
//! The engine reads and changes the notification settings. Every other part
//! of the document is carried along as it was found.

use vstd::prelude::*;

verus! {

/// Minutes of sitting before a reminder to stand, where a document names none.
pub const DEFAULT_SIT_DURATION: u32 = 45;

/// Minutes of standing before a reminder to sit, where a document names none.
pub const DEFAULT_STAND_DURATION: u32 = 10;

/// Minutes of sitting before a reminder to stand, where a document names none.
pub fn default_sit_duration() -> (minutes: u32)
    ensures
        minutes == 45,
        minutes == DEFAULT_SIT_DURATION,
{
    DEFAULT_SIT_DURATION
}

/// Minutes of standing before a reminder to sit, where a document names none.
pub fn default_stand_duration() -> (minutes: u32)
    ensures
        minutes == 10,
        minutes == DEFAULT_STAND_DURATION,
{
    DEFAULT_STAND_DURATION
}

/// The category of a task where a document names none.
pub fn default_category() -> (category: String)
    ensures
        category@ == "work"@,
{
    "work".to_owned()
}

/// The theme where a document names none.
pub fn default_theme() -> (theme: String)
    ensures
        theme@ == "editorial"@,
{
    "editorial".to_owned()
}

/// The value of a switch that is on unless a document turns it off.
pub fn default_true() -> (on: bool)
    ensures
        on,
{
    true
}

/// One line of a plan.
#[derive(Debug, Clone, PartialEq, Eq)]
pub struct PlanItem {
    pub id: String,
    pub text: String,
    pub completed: bool,
    pub notes: String,
    pub target_examples: Option<u32>,
}

/// A titled group of plan items for one period.
#[derive(Debug, Clone, PartialEq, Eq)]
pub struct Section {
    pub id: String,
    pub title: String,
    pub period: String,
    pub items: Vec<PlanItem>,
}

/// What the user has chosen about reminders, and where the sit and stand
/// cycle stands.
#[derive(Debug, Clone, PartialEq, Eq)]
pub struct NotificationSettings {
    /// The switch over every reminder.
    pub enabled: bool,
    pub daily_reminder: bool,
    /// The time of day of the daily reminder, `HH:MM`.
    pub daily_time: String,
    pub weekly_reminder: bool,
    /// The day of the weekly reminder, an English day name.
    pub weekly_day: String,
    /// The time of day of the weekly reminder, `HH:MM`.
    pub weekly_time: String,
    pub stand_reminder_enabled: bool,
    /// Minutes of sitting before a reminder to stand: one or more, and 45
    /// where a document names none.
    pub sit_duration_minutes: u32,
    /// Minutes of standing before a reminder to sit: one or more, and 10
    /// where a document names none.
    pub stand_duration_minutes: u32,
    /// `sitting` or `standing`; an empty text stands for `sitting`.
    pub stand_mode: String,
    /// When the present phase began, as an RFC 3339 timestamp.
    pub stand_mode_changed_at: Option<String>,
}

/// A note taken in passing.
#[derive(Debug, Clone, PartialEq, Eq)]
pub struct QuickNote {
    pub id: String,
    pub text: String,
    pub timestamp: String,
}

/// An accomplishment worth keeping a record of.
#[derive(Debug, Clone, PartialEq, Eq)]
pub struct BragDocEntry {
    pub id: String,
    pub title: String,
    pub text: String,
    pub links: Option<Vec<String>>,
    pub images: Option<Vec<String>>,
    pub timestamp: String,
}

/// A task planned for one day.
#[derive(Debug, Clone, PartialEq, Eq)]
pub struct DailyTask {
    pub id: String,
    pub text: String,
    pub description: String,
    pub goal_id: Option<String>,
    pub completed: bool,
    pub completed_at: Option<String>,
    pub date: String,
    pub moved_to_date: Option<String>,
    pub order: Option<i32>,
    pub is_frog: Option<bool>,
    pub category: String,
    pub timebox_minutes: Option<i32>,
}

/// A countdown that is running.
#[derive(Debug, Clone, PartialEq, Eq)]
pub struct ActiveTimer {
    pub id: String,
    pub timer_type: String,
    pub task_id: Option<String>,
    pub task_name: Option<String>,
    pub end_time: String,
    pub duration_minutes: i32,
}

/// Something to do that has no day yet.
#[derive(Debug, Clone, PartialEq, Eq)]
pub struct Todo {
    pub id: String,
    pub text: String,
    pub description: String,
    pub goal_id: Option<String>,
    pub last_scheduled_date: Option<String>,
    pub created_at: String,
}

/// A wish for the application.
#[derive(Debug, Clone, PartialEq, Eq)]
pub struct FeatureRequest {
    pub id: String,
    pub text: String,
    pub created_at: String,
    pub completed: bool,
    pub completed_at: Option<String>,
}

/// A fault found in the application.
#[derive(Debug, Clone, PartialEq, Eq)]
pub struct BugReport {
    pub id: String,
    pub text: String,
    pub created_at: String,
    pub completed: bool,
    pub completed_at: Option<String>,
}

/// The document: everything that is kept between runs.
#[derive(Debug, Clone, PartialEq, Eq)]
pub struct AppData {
    pub sections: Vec<Section>,
    pub notifications: NotificationSettings,
    pub quick_notes: Vec<QuickNote>,
    pub brag_docs: Vec<BragDocEntry>,
    pub daily_tasks: Vec<DailyTask>,
    pub todos: Vec<Todo>,
    pub feature_requests: Vec<FeatureRequest>,
    pub bug_reports: Vec<BugReport>,
    pub theme: String,
    pub dark_mode: bool,
    pub user_name: Option<String>,
    pub onboarding_complete: bool,
    pub apple_music_enabled: bool,
    pub frog_enabled: bool,
    pub atc_days: Vec<String>,
    pub active_timer: Option<ActiveTimer>,
    pub active_timers: Vec<ActiveTimer>,
}

/// The characters of a text that may be absent.
pub open spec fn text_of(text: Option<String>) -> Option<Seq<char>> {
    match text {
        Some(text) => Some(text@),
        None => None,
    }
}

/// Both phases of the sit and stand cycle last one minute or more, as the
/// settings of every document are to have it.
pub open spec fn durations_positive(settings: SettingsView) -> bool {
    settings.sit_duration_minutes > 0 && settings.stand_duration_minutes > 0
}

/// The notification settings as plain values.
pub struct SettingsView {
    pub enabled: bool,
    pub daily_reminder: bool,
    pub daily_time: Seq<char>,
    pub weekly_reminder: bool,
    pub weekly_day: Seq<char>,
    pub weekly_time: Seq<char>,
    pub stand_reminder_enabled: bool,
    pub sit_duration_minutes: u32,
    pub stand_duration_minutes: u32,
    pub stand_mode: Seq<char>,
    pub stand_mode_changed_at: Option<Seq<char>>,
}

impl View for NotificationSettings {
    type V = SettingsView;

    open spec fn view(&self) -> SettingsView {
        SettingsView {
            enabled: self.enabled,
            daily_reminder: self.daily_reminder,
            daily_time: self.daily_time@,
            weekly_reminder: self.weekly_reminder,
            weekly_day: self.weekly_day@,
            weekly_time: self.weekly_time@,
            stand_reminder_enabled: self.stand_reminder_enabled,
            sit_duration_minutes: self.sit_duration_minutes,
            stand_duration_minutes: self.stand_duration_minutes,
            stand_mode: self.stand_mode@,
            stand_mode_changed_at: text_of(self.stand_mode_changed_at),
        }
    }
}

impl PlanItem {
    /// Every field is empty, off or absent.
    pub open spec fn is_blank(&self) -> bool {
        &&& self.id@.len() == 0
        &&& self.text@.len() == 0
        &&& !self.completed
        &&& self.notes@.len() == 0
        &&& self.target_examples is None
    }
}

impl Default for PlanItem {
    fn default() -> (r: Self)
        ensures
            r.is_blank(),
    {
        PlanItem {
            id: String::new(),
            text: String::new(),
            completed: false,
            notes: String::new(),
            target_examples: None,
        }
    }
}

impl Section {
    /// Every field is empty.
    pub open spec fn is_blank(&self) -> bool {
        &&& self.id@.len() == 0
        &&& self.title@.len() == 0
        &&& self.period@.len() == 0
        &&& self.items@.len() == 0
    }
}

impl Default for Section {
    fn default() -> (r: Self)
        ensures
            r.is_blank(),
    {
        Section { id: String::new(), title: String::new(), period: String::new(), items: Vec::new() }
    }
}

impl NotificationSettings {
    /// Every switch is off, every text empty, no phase has begun, and the
    /// two durations are those of a document that names none: 45 minutes of
    /// sitting and 10 of standing.
    pub open spec fn is_blank(&self) -> bool {
        self@ == (SettingsView {
            enabled: false,
            daily_reminder: false,
            daily_time: Seq::empty(),
            weekly_reminder: false,
            weekly_day: Seq::empty(),
            weekly_time: Seq::empty(),
            stand_reminder_enabled: false,
            sit_duration_minutes: DEFAULT_SIT_DURATION,
            stand_duration_minutes: DEFAULT_STAND_DURATION,
            stand_mode: Seq::empty(),
            stand_mode_changed_at: None,
        })
    }

    /// Whether both phases of the sit and stand cycle last one minute or more.
    pub fn has_positive_durations(&self) -> (r: bool)
        ensures
            r == durations_positive(self@),
    {
        self.sit_duration_minutes > 0 && self.stand_duration_minutes > 0
    }
}

impl Default for NotificationSettings {
    fn default() -> (r: Self)
        ensures
            r.is_blank(),
            r.sit_duration_minutes == 45,
            r.stand_duration_minutes == 10,
            durations_positive(r@),
    {
        NotificationSettings {
            enabled: false,
            daily_reminder: false,
            daily_time: String::new(),
            weekly_reminder: false,
            weekly_day: String::new(),
            weekly_time: String::new(),
            stand_reminder_enabled: false,
            sit_duration_minutes: default_sit_duration(),
            stand_duration_minutes: default_stand_duration(),
            stand_mode: String::new(),
            stand_mode_changed_at: None,
        }
    }
}

impl QuickNote {
    /// Every field is empty.
    pub open spec fn is_blank(&self) -> bool {
        &&& self.id@.len() == 0
        &&& self.text@.len() == 0
        &&& self.timestamp@.len() == 0
    }
}

impl Default for QuickNote {
    fn default() -> (r: Self)
        ensures
            r.is_blank(),
    {
        QuickNote { id: String::new(), text: String::new(), timestamp: String::new() }
    }
}

impl BragDocEntry {
    /// Every field is empty or absent.
    pub open spec fn is_blank(&self) -> bool {
        &&& self.id@.len() == 0
        &&& self.title@.len() == 0
        &&& self.text@.len() == 0
        &&& self.links is None
        &&& self.images is None
        &&& self.timestamp@.len() == 0
    }
}

impl Default for BragDocEntry {
    fn default() -> (r: Self)
        ensures
            r.is_blank(),
    {
        BragDocEntry {
            id: String::new(),
            title: String::new(),
            text: String::new(),
            links: None,
            images: None,
            timestamp: String::new(),
        }
    }
}

impl DailyTask {
    /// Every field is empty, off or absent.
    pub open spec fn is_blank(&self) -> bool {
        &&& self.id@.len() == 0
        &&& self.text@.len() == 0
        &&& self.description@.len() == 0
        &&& self.goal_id is None
        &&& !self.completed
        &&& self.completed_at is None
        &&& self.date@.len() == 0
        &&& self.moved_to_date is None
        &&& self.order is None
        &&& self.is_frog is None
        &&& self.category@.len() == 0
        &&& self.timebox_minutes is None
    }
}

impl Default for DailyTask {
    fn default() -> (r: Self)
        ensures
            r.is_blank(),
    {
        DailyTask {
            id: String::new(),
            text: String::new(),
            description: String::new(),
            goal_id: None,
            completed: false,
            completed_at: None,
            date: String::new(),
            moved_to_date: None,
            order: None,
            is_frog: None,
            category: String::new(),
            timebox_minutes: None,
        }
    }
}

impl ActiveTimer {
    /// Every field is empty, zero or absent.
    pub open spec fn is_blank(&self) -> bool {
        &&& self.id@.len() == 0
        &&& self.timer_type@.len() == 0
        &&& self.task_id is None
        &&& self.task_name is None
        &&& self.end_time@.len() == 0
        &&& self.duration_minutes == 0
    }
}

impl Default for ActiveTimer {
    fn default() -> (r: Self)
        ensures
            r.is_blank(),
    {
        ActiveTimer {
            id: String::new(),
            timer_type: String::new(),
            task_id: None,
            task_name: None,
            end_time: String::new(),
            duration_minutes: 0,
        }
    }
}

impl Todo {
    /// Every field is empty or absent.
    pub open spec fn is_blank(&self) -> bool {
        &&& self.id@.len() == 0
        &&& self.text@.len() == 0
        &&& self.description@.len() == 0
        &&& self.goal_id is None
        &&& self.last_scheduled_date is None
        &&& self.created_at@.len() == 0
    }
}

impl Default for Todo {
    fn default() -> (r: Self)
        ensures
            r.is_blank(),
    {
        Todo {
            id: String::new(),
            text: String::new(),
            description: String::new(),
            goal_id: None,
            last_scheduled_date: None,
            created_at: String::new(),
        }
    }
}

impl FeatureRequest {
    /// Every field is empty, off or absent.
    pub open spec fn is_blank(&self) -> bool {
        &&& self.id@.len() == 0
        &&& self.text@.len() == 0
        &&& self.created_at@.len() == 0
        &&& !self.completed
        &&& self.completed_at is None
    }
}

impl Default for FeatureRequest {
    fn default() -> (r: Self)
        ensures
            r.is_blank(),
    {
        FeatureRequest {
            id: String::new(),
            text: String::new(),
            created_at: String::new(),
            completed: false,
            completed_at: None,
        }
    }
}

impl BugReport {
    /// Every field is empty, off or absent.
    pub open spec fn is_blank(&self) -> bool {
        &&& self.id@.len() == 0
        &&& self.text@.len() == 0
        &&& self.created_at@.len() == 0
        &&& !self.completed
        &&& self.completed_at is None
    }
}

impl Default for BugReport {
    fn default() -> (r: Self)
        ensures
            r.is_blank(),
    {
        BugReport {
            id: String::new(),
            text: String::new(),
            created_at: String::new(),
            completed: false,
            completed_at: None,
        }
    }
}

impl AppData {
    /// The document that a first run starts from: every list and text empty,
    /// every switch off, the notification settings blank, which gives the
    /// sit and stand cycle its 45 and 10 minutes.
    pub open spec fn is_blank(&self) -> bool {
        &&& self.sections@.len() == 0
        &&& self.notifications.is_blank()
        &&& self.quick_notes@.len() == 0
        &&& self.brag_docs@.len() == 0
        &&& self.daily_tasks@.len() == 0
        &&& self.todos@.len() == 0
        &&& self.feature_requests@.len() == 0
        &&& self.bug_reports@.len() == 0
        &&& self.theme@.len() == 0
        &&& !self.dark_mode
        &&& self.user_name is None
        &&& !self.onboarding_complete
        &&& !self.apple_music_enabled
        &&& !self.frog_enabled
        &&& self.atc_days@.len() == 0
        &&& self.active_timer is None
        &&& self.active_timers@.len() == 0
    }

    /// `other` is this document but for its notification settings.
    pub open spec fn same_payload(&self, other: &AppData) -> bool {
        &&& self.sections == other.sections
        &&& self.quick_notes == other.quick_notes
        &&& self.brag_docs == other.brag_docs
        &&& self.daily_tasks == other.daily_tasks
        &&& self.todos == other.todos
        &&& self.feature_requests == other.feature_requests
        &&& self.bug_reports == other.bug_reports
        &&& self.theme == other.theme
        &&& self.dark_mode == other.dark_mode
        &&& self.user_name == other.user_name
        &&& self.onboarding_complete == other.onboarding_complete
        &&& self.apple_music_enabled == other.apple_music_enabled
        &&& self.frog_enabled == other.frog_enabled
        &&& self.atc_days == other.atc_days
        &&& self.active_timer == other.active_timer
        &&& self.active_timers == other.active_timers
    }
}

impl Default for AppData {
    fn default() -> (r: Self)
        ensures
            r.is_blank(),
            r.notifications.sit_duration_minutes == 45,
            r.notifications.stand_duration_minutes == 10,
            durations_positive(r.notifications@),
    {
        AppData {
            sections: Vec::new(),
            notifications: NotificationSettings::default(),
            quick_notes: Vec::new(),
            brag_docs: Vec::new(),
            daily_tasks: Vec::new(),
            todos: Vec::new(),
            feature_requests: Vec::new(),
            bug_reports: Vec::new(),
            theme: String::new(),
            dark_mode: false,
            user_name: None,
            onboarding_complete: false,
            apple_music_enabled: false,
            frog_enabled: false,
            atc_days: Vec::new(),
            active_timer: None,
            active_timers: Vec::new(),
        }
    }
}

/// The blank document keeps the rule on the two durations: it has 45 minutes
/// of sitting and 10 of standing, one or more each.
pub proof fn law_blank_document_has_default_durations(data: AppData)
    requires
        data.is_blank(),
    ensures
        data.notifications@.sit_duration_minutes == 45,
        data.notifications@.stand_duration_minutes == 10,
        durations_positive(data.notifications@),
{
}

} // verus!
