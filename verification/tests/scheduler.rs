use reminder_engine::document::AppData;
use reminder_engine::duty_cycle::{PhaseAge, StandMode};
use reminder_engine::reminder::Weekday;
use reminder_engine::scheduler::{Clock, LastNotification, Notice, Scheduler, TickPlan};

fn clock(date: &str, hour: u32, minute: u32, weekday: Weekday) -> Clock {
    Clock {
        date: date.to_string(),
        hour,
        minute,
        weekday,
        timestamp: format!("{}T{:02}:{:02}:00+00:00", date, hour, minute),
    }
}

fn reminders(daily: Option<&str>, weekly: Option<(&str, &str)>) -> AppData {
    let mut data = AppData::default();
    data.notifications.enabled = true;
    if let Some(time) = daily {
        data.notifications.daily_reminder = true;
        data.notifications.daily_time = time.to_string();
    }
    if let Some((day, time)) = weekly {
        data.notifications.weekly_reminder = true;
        data.notifications.weekly_day = day.to_string();
        data.notifications.weekly_time = time.to_string();
    }
    data
}

fn standing_desk(mode: &str, changed_at: Option<&str>) -> AppData {
    let mut data = AppData::default();
    data.notifications.enabled = true;
    data.notifications.stand_reminder_enabled = true;
    data.notifications.sit_duration_minutes = 45;
    data.notifications.stand_duration_minutes = 10;
    data.notifications.stand_mode = mode.to_string();
    data.notifications.stand_mode_changed_at = changed_at.map(|t| t.to_string());
    data
}

fn idle(plan: &TickPlan) -> bool {
    plan.notices.is_empty() && plan.stand.is_none()
}

#[test]
fn new_scheduler_has_fired_nothing() {
    let scheduler = Scheduler::new();
    assert_eq!(scheduler.last_sent, LastNotification { daily_date: None, weekly_date: None });
    assert_eq!(LastNotification::default(), scheduler.last_sent);
}

#[test]
fn daily_reminder_fires_in_its_window() {
    for minute in 0..60 {
        let mut scheduler = Scheduler::new();
        let plan = scheduler.tick(
            reminders(Some("09:30"), None),
            &clock("2024-03-04", 9, minute, Weekday::Mon),
        );
        if (30..35).contains(&minute) {
            assert_eq!(plan.notices, vec![Notice::DailyCheckIn], "minute {}", minute);
            assert_eq!(scheduler.last_sent.daily_date.as_deref(), Some("2024-03-04"));
        } else {
            assert!(idle(&plan), "minute {}", minute);
            assert_eq!(scheduler.last_sent.daily_date, None);
        }
        assert_eq!(scheduler.last_sent.weekly_date, None);
        assert!(plan.stand.is_none());
    }
}

#[test]
fn daily_reminder_wants_the_hour() {
    for hour in 0..24 {
        let mut scheduler = Scheduler::new();
        let plan = scheduler.tick(
            reminders(Some("09:30"), None),
            &clock("2024-03-04", hour, 31, Weekday::Mon),
        );
        assert_eq!(plan.notices.len(), if hour == 9 { 1 } else { 0 });
    }
}

#[test]
fn daily_reminder_fires_once_in_a_thousand_ticks() {
    let mut scheduler = Scheduler::new();
    let mut delivered = 0;
    for tick in 0..1000u32 {
        let minute = 30 + tick % 5;
        let plan = scheduler.tick(
            reminders(Some("09:30"), Some(("monday", "09:30"))),
            &clock("2024-03-04", 9, minute, Weekday::Mon),
        );
        delivered += plan.notices.len();
        if tick == 0 {
            assert_eq!(plan.notices, vec![Notice::DailyCheckIn, Notice::WeeklyReflection]);
        } else {
            assert!(idle(&plan));
        }
    }
    assert_eq!(delivered, 2);
    assert_eq!(scheduler.last_sent.daily_date.as_deref(), Some("2024-03-04"));
    assert_eq!(scheduler.last_sent.weekly_date.as_deref(), Some("2024-03-04"));
}

#[test]
fn daily_reminder_fires_again_the_next_day() {
    let mut scheduler = Scheduler::new();
    let first = scheduler.tick(
        reminders(Some("09:30"), None),
        &clock("2024-03-04", 9, 30, Weekday::Mon),
    );
    let second = scheduler.tick(
        reminders(Some("09:30"), None),
        &clock("2024-03-04", 9, 31, Weekday::Mon),
    );
    let third = scheduler.tick(
        reminders(Some("09:30"), None),
        &clock("2024-03-05", 9, 30, Weekday::Tue),
    );
    assert_eq!(first.notices, vec![Notice::DailyCheckIn]);
    assert!(idle(&second));
    assert_eq!(third.notices, vec![Notice::DailyCheckIn]);
    assert_eq!(scheduler.last_sent.daily_date.as_deref(), Some("2024-03-05"));
}

#[test]
fn restarted_scheduler_fires_again_on_the_same_day() {
    let mut scheduler = Scheduler::new();
    let first = scheduler.tick(
        reminders(Some("09:30"), None),
        &clock("2024-03-04", 9, 30, Weekday::Mon),
    );
    let mut restarted = Scheduler::new();
    let again = restarted.tick(
        reminders(Some("09:30"), None),
        &clock("2024-03-04", 9, 32, Weekday::Mon),
    );
    assert_eq!(first.notices, vec![Notice::DailyCheckIn]);
    assert_eq!(again.notices, vec![Notice::DailyCheckIn]);
}

#[test]
fn reminder_near_the_end_of_the_hour_has_a_short_window() {
    let mut scheduler = Scheduler::new();
    let late = scheduler.tick(
        reminders(Some("10:58"), None),
        &clock("2024-03-04", 11, 1, Weekday::Mon),
    );
    assert!(idle(&late));
    let in_time = scheduler.tick(
        reminders(Some("10:58"), None),
        &clock("2024-03-04", 10, 59, Weekday::Mon),
    );
    assert_eq!(in_time.notices, vec![Notice::DailyCheckIn]);
}

#[test]
fn weekly_reminder_wants_its_day() {
    let days = [
        Weekday::Mon,
        Weekday::Tue,
        Weekday::Wed,
        Weekday::Thu,
        Weekday::Fri,
        Weekday::Sat,
        Weekday::Sun,
    ];
    for day in days {
        let mut scheduler = Scheduler::new();
        let plan = scheduler.tick(
            reminders(None, Some(("Friday", "17:00"))),
            &clock("2024-03-08", 17, 2, day),
        );
        if day == Weekday::Fri {
            assert_eq!(plan.notices, vec![Notice::WeeklyReflection]);
            assert_eq!(scheduler.last_sent.weekly_date.as_deref(), Some("2024-03-08"));
        } else {
            assert!(idle(&plan));
            assert_eq!(scheduler.last_sent.weekly_date, None);
        }
        assert_eq!(scheduler.last_sent.daily_date, None);
    }
}

#[test]
fn weekly_reminder_with_an_unknown_day_never_fires() {
    let days = [
        Weekday::Mon,
        Weekday::Tue,
        Weekday::Wed,
        Weekday::Thu,
        Weekday::Fri,
        Weekday::Sat,
        Weekday::Sun,
    ];
    for name in ["", "Fri", "Freitag", "friday ", "everyday"] {
        for day in days {
            for hour in 0..24 {
                for minute in [0, 1, 4, 5, 30, 59] {
                    let mut scheduler = Scheduler::new();
                    let time = format!("{:02}:{:02}", hour, minute);
                    let plan = scheduler.tick(
                        reminders(None, Some((name, &time))),
                        &clock("2024-03-08", hour, minute, day),
                    );
                    assert!(idle(&plan));
                    assert_eq!(scheduler.last_sent.weekly_date, None);
                }
            }
        }
    }
}

#[test]
fn reminder_with_an_unreadable_time_never_fires() {
    for time in ["", "9", "nine:thirty", "09:30:00", "09.30", " 09:30"] {
        for hour in 0..24 {
            let mut scheduler = Scheduler::new();
            let plan = scheduler.tick(
                reminders(Some(time), Some(("monday", time))),
                &clock("2024-03-04", hour, 30, Weekday::Mon),
            );
            assert!(idle(&plan), "{:?}", time);
        }
    }
}

#[test]
fn switched_off_reminders_do_nothing() {
    let mut data = reminders(Some("09:30"), Some(("monday", "09:30")));
    data.notifications.stand_reminder_enabled = true;
    data.notifications.enabled = false;
    let mut scheduler = Scheduler::new();
    let plan = scheduler.tick(data, &clock("2024-03-04", 9, 30, Weekday::Mon));
    assert!(idle(&plan));
    assert_eq!(scheduler, Scheduler::new());

    let mut data = reminders(Some("09:30"), Some(("monday", "09:30")));
    data.notifications.daily_reminder = false;
    data.notifications.weekly_reminder = false;
    let plan = scheduler.tick(data, &clock("2024-03-04", 9, 30, Weekday::Mon));
    assert!(idle(&plan));
    assert_eq!(scheduler, Scheduler::new());
}

#[test]
fn marker_of_one_reminder_does_not_hold_the_other_back() {
    let mut scheduler = Scheduler::new();
    scheduler.last_sent.daily_date = Some("2024-03-04".to_string());
    let plan = scheduler.tick(
        reminders(Some("09:30"), Some(("monday", "09:30"))),
        &clock("2024-03-04", 9, 30, Weekday::Mon),
    );
    assert_eq!(plan.notices, vec![Notice::WeeklyReflection]);

    let mut scheduler = Scheduler::new();
    scheduler.last_sent.weekly_date = Some("2024-03-04".to_string());
    let plan = scheduler.tick(
        reminders(Some("09:30"), Some(("monday", "09:30"))),
        &clock("2024-03-04", 9, 30, Weekday::Mon),
    );
    assert_eq!(plan.notices, vec![Notice::DailyCheckIn]);
}

#[test]
fn first_tick_begins_standing() {
    let mut data = AppData::default();
    data.notifications.enabled = true;
    data.notifications.stand_reminder_enabled = true;
    data.notifications.sit_duration_minutes = 45;
    data.notifications.stand_mode = String::new();
    data.notifications.stand_mode_changed_at = None;
    data.theme = "editorial".to_string();
    data.atc_days = vec!["Mon".to_string()];
    let before = data.clone();

    let now = clock("2024-03-04", 14, 7, Weekday::Mon);
    let mut scheduler = Scheduler::new();
    let plan = scheduler.tick(data, &now);

    assert_eq!(plan.notices, vec![Notice::TimeToStand]);
    assert_eq!(plan.notices[0].title(), "Time to Stand!");
    assert_eq!(plan.notices[0].body(), "Take a break and stand up for a bit.");
    let switch = plan.stand.expect("a new phase");
    assert_eq!(switch.mode, StandMode::Standing);
    assert_eq!(switch.mode.label(), "standing");
    assert_eq!(switch.document.notifications.stand_mode, "standing");
    assert_eq!(
        switch.document.notifications.stand_mode_changed_at.as_deref(),
        Some("2024-03-04T14:07:00+00:00")
    );
    let mut expected = before;
    expected.notifications.stand_mode = "standing".to_string();
    expected.notifications.stand_mode_changed_at = Some(now.timestamp.clone());
    assert_eq!(switch.document, expected);
    assert_eq!(scheduler, Scheduler::new());
}

#[test]
fn sitting_ends_after_its_minutes() {
    let began = "2024-03-04T10:00:00+00:00";
    let mut scheduler = Scheduler::new();
    let early = scheduler.tick(
        standing_desk("sitting", Some(began)),
        &clock("2024-03-04", 10, 44, Weekday::Mon),
    );
    assert!(idle(&early));
    let on_time = scheduler.tick(
        standing_desk("sitting", Some(began)),
        &clock("2024-03-04", 10, 45, Weekday::Mon),
    );
    assert_eq!(on_time.notices, vec![Notice::TimeToStand]);
    let late = scheduler.tick(
        standing_desk("sitting", Some(began)),
        &clock("2024-03-04", 10, 46, Weekday::Mon),
    );
    assert_eq!(late.stand.map(|s| s.mode), Some(StandMode::Standing));
}

#[test]
fn standing_ends_after_its_minutes() {
    let began = "2024-03-04T10:00:00+00:00";
    let mut scheduler = Scheduler::new();
    let early = scheduler.tick(
        standing_desk("standing", Some(began)),
        &clock("2024-03-04", 10, 9, Weekday::Mon),
    );
    assert!(idle(&early));
    let on_time = scheduler.tick(
        standing_desk("standing", Some(began)),
        &clock("2024-03-04", 10, 10, Weekday::Mon),
    );
    assert_eq!(on_time.notices, vec![Notice::YouCanSit]);
    assert_eq!(on_time.notices[0].title(), "You Can Sit Now");
    assert_eq!(on_time.notices[0].body(), "Good job standing! You can sit down now.");
    let switch = on_time.stand.expect("a new phase");
    assert_eq!(switch.mode, StandMode::Sitting);
    assert_eq!(switch.document.notifications.stand_mode, "sitting");
}

#[test]
fn phase_age_counts_whole_minutes_between_instants() {
    let mut now = clock("2024-03-04", 10, 45, Weekday::Mon);
    let mut scheduler = Scheduler::new();

    now.timestamp = "2024-03-04T10:44:59.999+00:00".to_string();
    let plan = scheduler.tick(standing_desk("sitting", Some("2024-03-04T10:00:00Z")), &now);
    assert!(idle(&plan));

    now.timestamp = "2024-03-04T12:45:00+02:00".to_string();
    let plan = scheduler.tick(standing_desk("sitting", Some("2024-03-04T10:00:00Z")), &now);
    assert_eq!(plan.notices, vec![Notice::TimeToStand]);

    now.timestamp = "2024-03-04T10:45:00Z".to_string();
    let plan = scheduler.tick(standing_desk("sitting", Some("2024-03-04T05:00:00.5-05:00")), &now);
    assert!(idle(&plan));

    now.timestamp = "2024-03-05T00:00:00Z".to_string();
    let plan = scheduler.tick(standing_desk("sitting", Some("2024-03-04T23:15:00Z")), &now);
    assert_eq!(plan.notices, vec![Notice::TimeToStand]);

    now.timestamp = "2024-03-04T09:00:00Z".to_string();
    let plan = scheduler.tick(standing_desk("sitting", Some("2024-03-04T10:00:00Z")), &now);
    assert!(idle(&plan));
}

#[test]
fn unreadable_beginning_begins_a_new_phase() {
    for began in ["", "yesterday", "2024-03-04", "2024-03-04 10:00", "2024-13-04T10:00:00Z", "1709546400"] {
        let mut scheduler = Scheduler::new();
        let plan = scheduler.tick(
            standing_desk("sitting", Some(began)),
            &clock("2024-03-04", 10, 1, Weekday::Mon),
        );
        assert_eq!(plan.notices, vec![Notice::TimeToStand], "{:?}", began);
        let switch = plan.stand.expect("a new phase");
        assert_eq!(
            switch.document.notifications.stand_mode_changed_at.as_deref(),
            Some("2024-03-04T10:01:00+00:00")
        );
    }
}

#[test]
fn unreadable_clock_text_begins_a_phase_at_every_tick() {
    let mut now = clock("2024-03-04", 10, 1, Weekday::Mon);
    now.timestamp = "ten past".to_string();
    let mut scheduler = Scheduler::new();

    let first = scheduler.tick(standing_desk("sitting", Some("2024-03-04T10:00:00Z")), &now);
    assert_eq!(first.notices, vec![Notice::TimeToStand]);
    let switch = first.stand.expect("a new phase");
    assert_eq!(switch.document.notifications.stand_mode, "standing");
    assert_eq!(switch.document.notifications.stand_mode_changed_at.as_deref(), Some("ten past"));

    let second = scheduler.tick(switch.document, &now);
    assert_eq!(second.notices, vec![Notice::YouCanSit]);
    let switch = second.stand.expect("a new phase");
    assert_eq!(switch.document.notifications.stand_mode, "sitting");
    assert_eq!(switch.document.notifications.stand_mode_changed_at.as_deref(), Some("ten past"));
}

#[test]
fn unknown_mode_counts_as_standing() {
    let mut scheduler = Scheduler::new();
    let plan = scheduler.tick(
        standing_desk("walking", Some("2024-03-04T10:00:00Z")),
        &clock("2024-03-04", 10, 10, Weekday::Mon),
    );
    let switch = plan.stand.expect("a new phase");
    assert_eq!(switch.mode, StandMode::Sitting);
    assert_eq!(plan.notices, vec![Notice::YouCanSit]);

    let plan = scheduler.tick(
        standing_desk("Sitting", Some("2024-03-04T10:00:00Z")),
        &clock("2024-03-04", 10, 9, Weekday::Mon),
    );
    assert!(idle(&plan));
}

#[test]
fn stand_reminders_switched_off_never_switch() {
    let mut data = standing_desk("sitting", None);
    data.notifications.stand_reminder_enabled = false;
    let mut scheduler = Scheduler::new();
    let plan = scheduler.tick(data, &clock("2024-03-04", 10, 0, Weekday::Mon));
    assert!(idle(&plan));

    let mut data = standing_desk("sitting", None);
    data.notifications.enabled = false;
    let plan = scheduler.tick(data, &clock("2024-03-04", 10, 0, Weekday::Mon));
    assert!(idle(&plan));
}

#[test]
fn durations_of_zero_switch_at_every_tick() {
    let mut data = standing_desk("sitting", Some("2024-03-04T10:00:00Z"));
    data.notifications.sit_duration_minutes = 0;
    let mut scheduler = Scheduler::new();
    let plan = scheduler.tick(data, &clock("2024-03-04", 10, 0, Weekday::Mon));
    assert_eq!(plan.notices, vec![Notice::TimeToStand]);

    let mut data = standing_desk("sitting", Some("2024-03-04T10:00:00Z"));
    data.notifications.sit_duration_minutes = 0;
    let mut early = clock("2024-03-04", 9, 58, Weekday::Mon);
    early.timestamp = "2024-03-04T09:59:30Z".to_string();
    let plan = scheduler.tick(data, &early);
    assert_eq!(plan.notices, vec![Notice::TimeToStand]);

    let mut data = standing_desk("sitting", Some("2024-03-04T10:00:00Z"));
    data.notifications.sit_duration_minutes = 0;
    let plan = scheduler.tick(data, &clock("2024-03-04", 9, 58, Weekday::Mon));
    assert!(idle(&plan));
}

#[test]
fn all_three_fire_in_order() {
    let mut data = reminders(Some("09:30"), Some(("MONDAY", "09:28")));
    data.notifications.stand_reminder_enabled = true;
    data.notifications.stand_mode = "standing".to_string();
    let mut scheduler = Scheduler::new();
    let plan = scheduler.tick(data, &clock("2024-03-04", 9, 31, Weekday::Mon));
    assert_eq!(
        plan.notices,
        vec![Notice::DailyCheckIn, Notice::WeeklyReflection, Notice::YouCanSit]
    );
    assert_eq!(plan.notices[0].title(), "Daily Check-in");
    assert_eq!(plan.notices[0].body(), "Time to review your growth goals!");
    assert_eq!(plan.notices[1].title(), "Weekly Reflection");
    assert_eq!(
        plan.notices[1].body(),
        "Take a moment to reflect on your week's progress."
    );
}

#[test]
fn advance_takes_the_age_as_given() {
    let now = clock("2024-03-04", 10, 0, Weekday::Mon);
    let mut scheduler = Scheduler::new();
    let began = Some("2024-03-04T10:00:00Z");

    let plan = scheduler.advance(standing_desk("sitting", began), &now, PhaseAge::Minutes(46));
    assert_eq!(plan.stand.map(|s| s.mode), Some(StandMode::Standing));
    let plan = scheduler.advance(standing_desk("sitting", began), &now, PhaseAge::Minutes(45));
    assert_eq!(plan.stand.map(|s| s.mode), Some(StandMode::Standing));
    let plan = scheduler.advance(standing_desk("sitting", began), &now, PhaseAge::Minutes(44));
    assert!(idle(&plan));
    let plan = scheduler.advance(standing_desk("sitting", began), &now, PhaseAge::Minutes(-1));
    assert!(idle(&plan));
    let plan = scheduler.advance(standing_desk("sitting", began), &now, PhaseAge::Minutes(i64::MIN));
    assert!(idle(&plan));
    let plan = scheduler.advance(standing_desk("sitting", began), &now, PhaseAge::Minutes(i64::MAX));
    assert_eq!(plan.notices, vec![Notice::TimeToStand]);
    let plan = scheduler.advance(standing_desk("sitting", began), &now, PhaseAge::Unknown);
    assert_eq!(plan.notices, vec![Notice::TimeToStand]);

    let mut longest = standing_desk("standing", began);
    longest.notifications.stand_duration_minutes = u32::MAX;
    let plan = scheduler.advance(longest.clone(), &now, PhaseAge::Minutes(u32::MAX as i64 - 1));
    assert!(idle(&plan));
    let plan = scheduler.advance(longest, &now, PhaseAge::Minutes(u32::MAX as i64));
    assert_eq!(plan.notices, vec![Notice::YouCanSit]);
}
