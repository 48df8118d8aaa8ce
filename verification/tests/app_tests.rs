use desktop_timer::app::TemplateApp;
use desktop_timer::split_hms;
use desktop_timer::timer::Timer;

fn labelled(label: &str) -> Timer {
    let mut t = Timer::default();
    t.label = label.to_string();
    t
}

fn labels(app: &TemplateApp) -> Vec<String> {
    app.timers.iter().map(|t| t.label.clone()).collect()
}

#[test]
fn default_app_is_empty() {
    let app = TemplateApp::default();
    assert_eq!(app.timers.len(), 0);
    assert_eq!(app.flash_count, 0);
}

#[test]
fn append_keeps_insertion_order() {
    let mut app = TemplateApp::default();
    app.add_timer(labelled("a"));
    app.add_timer(labelled("b"));
    app.add_timer(labelled("c"));
    assert_eq!(labels(&app), vec!["a", "b", "c"]);
}

#[test]
fn remove_middle_keeps_relative_order_and_content() {
    let mut app = TemplateApp::default();
    app.add_timer(labelled("a"));
    let mut b = labelled("b");
    b.seconds = "9".to_string();
    app.add_timer(b);
    app.add_timer(labelled("c"));
    app.remove_timer(1);
    assert_eq!(labels(&app), vec!["a", "c"]);
    assert_eq!(app.timers[0].seconds, "0");
    assert_eq!(app.timers[1].seconds, "0");
}

#[test]
fn remove_out_of_range_is_a_no_op() {
    let mut app = TemplateApp::default();
    app.add_timer(labelled("a"));
    app.remove_timer(1);
    app.remove_timer(usize::MAX);
    assert_eq!(labels(&app), vec!["a"]);
}

#[test]
fn batched_removal_uses_stable_indices() {
    let mut app = TemplateApp::default();
    for name in ["a", "b", "c", "d"] {
        app.add_timer(labelled(name));
    }
    app.remove_timers(&vec![0, 2]);
    assert_eq!(labels(&app), vec!["b", "d"]);
}

#[test]
fn batched_removal_ignores_mark_order_and_stray_marks() {
    let mut app = TemplateApp::default();
    for name in ["a", "b", "c", "d"] {
        app.add_timer(labelled(name));
    }
    app.remove_timers(&vec![7, 2, 0, 2]);
    assert_eq!(labels(&app), vec!["b", "d"]);
}

#[test]
fn tick_rearms_fired_timers_and_counts_beeps() {
    let mut app = TemplateApp::default();

    let mut looping = labelled("looping");
    looping.seconds = "1".to_string();
    looping.auto_restart = true;
    looping.start_at(0);

    let mut running = labelled("running");
    running.seconds = "30".to_string();
    running.start_at(0);

    let mut frozen = labelled("frozen");
    frozen.seconds = "1".to_string();
    frozen.start_at(0);

    app.add_timer(looping);
    app.add_timer(running);
    app.add_timer(frozen);

    let beeps = app.tick(2_000);
    assert_eq!(beeps, 1);
    assert_eq!(app.flash_count, 10);
    assert_eq!(app.timers[0].restart_count, 2);
    assert_eq!(app.timers[0].rest_duration_at(2_000), Some(1_000));
    assert_eq!(app.timers[1].restart_count, 1);
    assert_eq!(app.timers[1].rest_duration_at(2_000), Some(28_000));
    assert_eq!(app.timers[2].restart_count, 1);
    assert_eq!(app.timers[2].rest_duration_at(2_000), Some(0));
}

#[test]
fn quiet_tick_consumes_one_flash_frame() {
    let mut app = TemplateApp::default();
    app.flash_count = 3;
    let beeps = app.tick(1_000);
    assert_eq!(beeps, 0);
    assert_eq!(app.flash_count, 2);
    app.flash_count = 0;
    app.tick(2_000);
    assert_eq!(app.flash_count, 0);
}

#[test]
fn two_expiries_on_one_tick_beep_twice() {
    let mut app = TemplateApp::default();
    for _ in 0..2 {
        let mut t = labelled("x");
        t.seconds = "1".to_string();
        t.auto_restart = true;
        t.start_at(0);
        app.add_timer(t);
    }
    let beeps = app.tick(5_000);
    assert_eq!(beeps, 2);
    assert_eq!(app.flash_count, 10);
}

#[test]
fn flash_parity_drives_the_red_fill() {
    let mut app = TemplateApp::default();
    app.flash_count = 10;
    assert!(!app.is_flash_on());
    app.flash_count = 9;
    assert!(app.is_flash_on());
    app.flash_count = 0;
    assert!(!app.is_flash_on());
}

#[test]
fn split_hms_formats_exactly() {
    assert_eq!(split_hms(3_723_000), (1, 2, 3));
    assert_eq!(split_hms(0), (0, 0, 0));
    assert_eq!(split_hms(999), (0, 0, 0));
    assert_eq!(split_hms(59_999), (0, 0, 59));
    assert_eq!(split_hms(60_000), (0, 1, 0));
    assert_eq!(split_hms(86_399_000), (23, 59, 59));
    assert_eq!(split_hms(360_000_000), (100, 0, 0));
}
