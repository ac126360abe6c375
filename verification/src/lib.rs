//! The reminder engine of a personal productivity application.
//!
//! The engine decides and its callers act. It reads no clock and touches no
//! file: the callers read the wall clock and the disk, hand over plain
//! values, and do what the engine answers.
//!
//! - [`scheduler`] is one tick of the background scheduler: which reminders
//!   fire, and whether the sit and stand cycle begins a new phase.
//! - [`reminder`] says when a reminder set for a time of day fires, and
//!   [`duty_cycle`] when a phase of sitting or standing is over.
//! - [`store`] says which document a load hands out, and [`backup`] which
//!   snapshots are made, kept and recovered from.
//! - [`document`] is the document itself.
//! - [`images`], [`now_playing`] and [`permission`] serve the commands of
//!   the front end.
//!
//! The functions are verified against the contracts written on them. The
//! few that call into the chrono and base64 crates say so: their contracts
//! are taken on trust.

pub mod backup;
pub mod document;
pub mod duty_cycle;
pub mod images;
pub mod now_playing;
pub mod permission;
pub mod reminder;
pub mod scheduler;
pub mod store;
pub mod text;
pub mod timestamp;

pub use backup::{prune_old_backups, recover, snapshot_if_needed, BackupAttempt, Retention};
pub use document::{
    default_category, default_sit_duration, default_stand_duration, default_theme, default_true,
    ActiveTimer, AppData, BragDocEntry, BugReport, DailyTask, FeatureRequest,
    NotificationSettings, PlanItem, QuickNote, Section, Todo,
};
pub use duty_cycle::{duty_cycle_step, PhaseAge, StandMode, StandSwitch};
pub use reminder::{day_matches, parse_time, within_firing_window, Weekday};
pub use scheduler::{Clock, LastNotification, Notice, Scheduler, TickPlan};
pub use store::{document_for_tick, load, Loaded, PrimaryRead};
