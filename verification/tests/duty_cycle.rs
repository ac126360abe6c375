use reminder_engine::document::{AppData, NotificationSettings};
use reminder_engine::duty_cycle::{duty_cycle_step, PhaseAge, StandMode};

fn settings(mode: &str, sit: u32, stand: u32) -> NotificationSettings {
    let mut settings = NotificationSettings::default();
    settings.stand_reminder_enabled = true;
    settings.sit_duration_minutes = sit;
    settings.stand_duration_minutes = stand;
    settings.stand_mode = mode.to_string();
    settings
}

fn document(mode: &str, sit: u32, stand: u32) -> AppData {
    let mut data = AppData::default();
    data.notifications = settings(mode, sit, stand);
    data.user_name = Some("me".to_string());
    data.theme = "editorial".to_string();
    data
}

#[test]
fn mode_text_names_the_phase() {
    assert_eq!(settings("", 45, 10).current_mode(), StandMode::Sitting);
    assert_eq!(settings("sitting", 45, 10).current_mode(), StandMode::Sitting);
    assert_eq!(settings("standing", 45, 10).current_mode(), StandMode::Standing);
    assert_eq!(settings("Sitting", 45, 10).current_mode(), StandMode::Standing);
    assert_eq!(settings("sitting ", 45, 10).current_mode(), StandMode::Standing);
    assert_eq!(settings("sittin", 45, 10).current_mode(), StandMode::Standing);
    assert_eq!(settings("lying", 45, 10).current_mode(), StandMode::Standing);
    assert_eq!(StandMode::Sitting.label(), "sitting");
    assert_eq!(StandMode::Standing.label(), "standing");
    assert_eq!(StandMode::Sitting.flipped(), StandMode::Standing);
    assert_eq!(StandMode::Standing.flipped(), StandMode::Sitting);
}

#[test]
fn each_phase_has_its_minutes() {
    assert_eq!(settings("", 45, 10).phase_duration(), 45);
    assert_eq!(settings("sitting", 45, 10).phase_duration(), 45);
    assert_eq!(settings("standing", 45, 10).phase_duration(), 10);
    assert_eq!(settings("other", 45, 10).phase_duration(), 10);
}

#[test]
fn phase_age_is_unknown_without_a_readable_beginning() {
    let now = "2024-03-04T10:00:00Z";
    let mut s = settings("sitting", 45, 10);
    assert_eq!(s.phase_age(now), PhaseAge::Unknown);
    s.stand_mode_changed_at = Some("soon".to_string());
    assert_eq!(s.phase_age(now), PhaseAge::Unknown);
    s.stand_mode_changed_at = Some("2024-02-30T10:00:00Z".to_string());
    assert_eq!(s.phase_age(now), PhaseAge::Unknown);
    s.stand_mode_changed_at = Some("2024-03-04T09:00:00Z".to_string());
    assert_eq!(s.phase_age("now"), PhaseAge::Unknown);
}

#[test]
fn phase_age_counts_whole_minutes_towards_zero() {
    let mut s = settings("sitting", 45, 10);
    s.stand_mode_changed_at = Some("2024-03-04T09:00:00Z".to_string());
    assert_eq!(s.phase_age("2024-03-04T09:00:00Z"), PhaseAge::Minutes(0));
    assert_eq!(s.phase_age("2024-03-04T09:00:59.999999999Z"), PhaseAge::Minutes(0));
    assert_eq!(s.phase_age("2024-03-04T09:01:00Z"), PhaseAge::Minutes(1));
    assert_eq!(s.phase_age("2024-03-04T10:00:00Z"), PhaseAge::Minutes(60));
    assert_eq!(s.phase_age("2024-03-04T11:00:00+01:00"), PhaseAge::Minutes(60));
    assert_eq!(s.phase_age("2024-03-04t11:00:00+01:00"), PhaseAge::Minutes(60));
    assert_eq!(s.phase_age("2024-03-05T09:00:00Z"), PhaseAge::Minutes(1440));
    assert_eq!(s.phase_age("2024-03-04T08:59:30Z"), PhaseAge::Minutes(0));
    assert_eq!(s.phase_age("2024-03-04T08:59:00Z"), PhaseAge::Minutes(-1));
    assert_eq!(s.phase_age("2024-03-04T08:58:00.5Z"), PhaseAge::Minutes(-1));
    assert_eq!(s.phase_age("2023-03-04T09:00:00Z"), PhaseAge::Minutes(-527040));
}

#[test]
fn switch_is_due_when_the_phase_is_over() {
    let s = settings("sitting", 45, 10);
    assert!(s.switch_is_due(PhaseAge::Unknown));
    assert!(!s.switch_is_due(PhaseAge::Minutes(44)));
    assert!(s.switch_is_due(PhaseAge::Minutes(45)));
    assert!(s.switch_is_due(PhaseAge::Minutes(46)));
    let s = settings("standing", 45, 10);
    assert!(!s.switch_is_due(PhaseAge::Minutes(9)));
    assert!(s.switch_is_due(PhaseAge::Minutes(10)));
    let mut off = settings("sitting", 45, 10);
    off.stand_reminder_enabled = false;
    assert!(!off.switch_is_due(PhaseAge::Unknown));
    assert!(!off.switch_is_due(PhaseAge::Minutes(1000)));
}

#[test]
fn step_begins_the_other_phase() {
    let now = "2024-03-04T10:00:00+01:00";
    let switch = duty_cycle_step(document("sitting", 45, 10), PhaseAge::Minutes(46), now)
        .expect("a new phase");
    assert_eq!(switch.mode, StandMode::Standing);
    let mut expected = document("standing", 45, 10);
    expected.notifications.stand_mode_changed_at = Some(now.to_string());
    assert_eq!(switch.document, expected);

    let switch = duty_cycle_step(switch.document, PhaseAge::Minutes(10), "later")
        .expect("a new phase");
    assert_eq!(switch.mode, StandMode::Sitting);
    let mut expected = document("sitting", 45, 10);
    expected.notifications.stand_mode_changed_at = Some("later".to_string());
    assert_eq!(switch.document, expected);
}

#[test]
fn step_waits_for_the_phase_to_end() {
    assert_eq!(duty_cycle_step(document("sitting", 45, 10), PhaseAge::Minutes(44), "now"), None);
    assert_eq!(duty_cycle_step(document("standing", 45, 10), PhaseAge::Minutes(9), "now"), None);
    let mut off = document("sitting", 45, 10);
    off.notifications.stand_reminder_enabled = false;
    assert_eq!(duty_cycle_step(off, PhaseAge::Unknown, "now"), None);
}

#[test]
fn step_runs_without_the_switch_over_all_reminders() {
    let mut data = document("", 45, 10);
    data.notifications.enabled = false;
    let switch = duty_cycle_step(data, PhaseAge::Unknown, "now").expect("a new phase");
    assert_eq!(switch.mode, StandMode::Standing);
}
