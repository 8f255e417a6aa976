use nidalee::injector::{injection_plan, InputCommand, WindowRect};
use nidalee::monitor::{center_position, monitor_index_at, MonitorRect, MoveDebounce};

#[test]
fn injection_plan_is_the_exact_sequence() {
    let rect = WindowRect { left: 100, top: 200, right: 300, bottom: 400 };
    let plan = injection_plan(&rect, "ab", "p");
    let expected = vec![
        InputCommand::FocusWindow,
        InputCommand::SleepMs { ms: 500 },
        // 15% of width 200 past left 100; 30% of height 200 past top 200.
        InputCommand::MoveMouse { x: 130, y: 260 },
        InputCommand::SleepMs { ms: 50 },
        InputCommand::ClickLeft,
        InputCommand::SleepMs { ms: 200 },
        InputCommand::TypeChar { c: 'a' },
        InputCommand::SleepMs { ms: 5 },
        InputCommand::TypeChar { c: 'b' },
        InputCommand::SleepMs { ms: 5 },
        InputCommand::SleepMs { ms: 100 },
        InputCommand::PressTab,
        InputCommand::SleepMs { ms: 100 },
        InputCommand::TypeChar { c: 'p' },
        InputCommand::SleepMs { ms: 5 },
        InputCommand::SleepMs { ms: 100 },
        InputCommand::PressReturn,
        InputCommand::SleepMs { ms: 1000 },
    ];
    assert_eq!(plan, expected);
}

#[test]
fn injection_plan_empty_credentials_still_click_and_submit() {
    let rect = WindowRect { left: 0, top: 0, right: 100, bottom: 100 };
    let plan = injection_plan(&rect, "", "");
    assert_eq!(plan[2], InputCommand::MoveMouse { x: 15, y: 30 });
    assert!(plan.contains(&InputCommand::PressTab));
    assert!(plan.contains(&InputCommand::PressReturn));
    assert!(!plan.iter().any(|c| matches!(c, InputCommand::TypeChar { .. })));
}

#[test]
fn monitor_index_finds_first_containing_box() {
    let monitors = vec![
        MonitorRect { x: 0, y: 0, width: 1920, height: 1080 },
        MonitorRect { x: 1920, y: 0, width: 1920, height: 1080 },
    ];
    assert_eq!(monitor_index_at(10, 10, &monitors), Some(0));
    assert_eq!(monitor_index_at(2000, 500, &monitors), Some(1));
    assert_eq!(monitor_index_at(1920, 0, &monitors), Some(1));
    assert_eq!(monitor_index_at(-5, 10, &monitors), None);
    assert_eq!(monitor_index_at(5000, 10, &monitors), None);
}

#[test]
fn center_position_centers_the_window() {
    let m = MonitorRect { x: 100, y: 50, width: 1000, height: 800 };
    assert_eq!(center_position(&m, 400, 200), (400, 350));
    // A window wider than the monitor pushes left of the origin.
    assert_eq!(center_position(&m, 1200, 900), (0, 0));
}

#[test]
fn move_debounce_commits_only_the_newest_move() {
    let mut d = MoveDebounce::new();
    d.record_move(1000, 1);
    // A newer move supersedes the first; the stale confirmation is dropped.
    d.record_move(1500, 2);
    assert_eq!(d.should_commit(1000, None), None);
    assert_eq!(d.should_commit(1500, None), Some(2));
    // Committing the preference that is already current does nothing.
    assert_eq!(d.should_commit(1500, Some(2)), None);
    assert_eq!(d.should_commit(1500, Some(1)), Some(2));
}

#[test]
fn move_debounce_fresh_state_never_commits() {
    let d = MoveDebounce::new();
    assert_eq!(d.should_commit(0, None), None);
}
