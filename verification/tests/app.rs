use std::sync::mpsc::channel;

use freq_gantt::app::{next_step, time_limit_line, MyApp, RECIPE_LEN};
use freq_gantt::geometry::PlotPoint;
use freq_gantt::hover::HoverTarget;
use freq_gantt::scale::PlotX;
use freq_gantt::task::Amplifier;
use freq_gantt::utils::get_bounds;

fn fresh() -> MyApp {
    let (_tx, rx) = channel();
    MyApp::new(rx)
}

fn names(app: &MyApp) -> Vec<String> {
    app.tasks.iter().map(|t| t.name.clone()).collect()
}

#[test]
fn first_state() {
    let app = fresh();
    assert!(app.tasks.is_empty());
    assert_eq!(app.plot_bounds_x, Some(get_bounds(false)));
    assert_eq!(
        app.last_bounds_x,
        Some((PlotX { log: false, freq: 0 }, PlotX { log: false, freq: 1_000 }))
    );
    assert_eq!(app.step, 0);
    assert!(!app.log_scale);
    assert!(!app.old_log_scale);
    assert_eq!(app.zoom_band, None);
    assert_eq!(app.force_bounds_x, Some(get_bounds(false)));
}

#[test]
fn band_catalogue() {
    assert_eq!(
        fresh().bands(),
        vec![
            (Amplifier::A20_500, 20_000, 500_000),
            (Amplifier::A500_1000, 500_000, 1_000_000),
            (Amplifier::A960_1215, 960_000, 1_215_000),
            (Amplifier::A1000_2500, 1_000_000, 2_500_000),
            (Amplifier::A2400_6000, 2_400_000, 6_000_000),
        ]
    );
}

#[test]
fn step_0_on_an_empty_list_adds_the_first_task() {
    let mut app = fresh();
    app.update_tasks(0);
    assert_eq!(app.tasks.len(), 1);
    let t = &app.tasks[0];
    assert_eq!(t.name, "Init capteurs");
    assert_eq!((t.freq_start, t.freq_end), (100_000, 300_000));
    assert_eq!((t.time_start, t.time_end), (0, 300_000));
    assert_eq!(t.amplifier, Amplifier::A20_500);
}

#[test]
fn steps_1_and_3_add_their_tasks() {
    let mut app = fresh();
    app.update_tasks(1);
    app.update_tasks(3);
    assert_eq!(names(&app), vec!["Transmission", "Sleep mode"]);
    let t = &app.tasks[0];
    assert_eq!((t.freq_start, t.freq_end), (1_000_000, 2_500_000));
    assert_eq!((t.time_start, t.time_end), (300_000, 600_000));
    assert_eq!(t.amplifier, Amplifier::A1000_2500);
    let s = &app.tasks[1];
    assert_eq!((s.freq_start, s.freq_end), (5_000_000, 5_500_000));
    assert_eq!((s.time_start, s.time_end), (0, 1_000_000));
    assert_eq!(s.amplifier, Amplifier::A2400_6000);
}

#[test]
fn step_2_removes_the_last_task_only() {
    let mut app = fresh();
    app.update_tasks(0);
    app.update_tasks(1);
    app.update_tasks(2);
    assert_eq!(names(&app), vec!["Init capteurs"]);
    app.update_tasks(2);
    assert!(app.tasks.is_empty());
    app.update_tasks(2);
    assert!(app.tasks.is_empty());
}

#[test]
fn step_4_clears_the_list_whatever_its_length() {
    let mut app = fresh();
    app.update_tasks(4);
    assert!(app.tasks.is_empty());
    app.update_tasks(0);
    app.update_tasks(1);
    app.update_tasks(3);
    assert_eq!(app.tasks.len(), 3);
    app.update_tasks(4);
    assert!(app.tasks.is_empty());
}

#[test]
fn a_step_counts_modulo_the_length_of_the_recipe() {
    let mut app = fresh();
    app.update_tasks(5);
    app.update_tasks(11);
    app.update_tasks(8);
    assert_eq!(names(&app), vec!["Init capteurs", "Transmission", "Sleep mode"]);
    app.update_tasks(7);
    assert_eq!(app.tasks.len(), 2);
    app.update_tasks(usize::MAX - (usize::MAX % 5) - 1);
    assert!(app.tasks.is_empty());
    assert_eq!(RECIPE_LEN, 5);
}

#[test]
fn update_tasks_leaves_the_viewport_alone() {
    let mut app = fresh();
    app.set_log_scale(true);
    app.sync_scale();
    app.select_band(1);
    app.update_tasks(0);
    assert_eq!(app.step, 0);
    assert!(app.log_scale);
    assert_eq!(app.zoom_band, Some(1));
    assert_eq!(
        app.force_bounds_x,
        Some((PlotX { log: true, freq: 500_000 }, PlotX { log: true, freq: 1_000_000 }))
    );
}

#[test]
fn ticker_cycles_through_the_recipe() {
    let mut step = 0;
    let mut seen = vec![];
    for _ in 0..7 {
        step = next_step(step);
        seen.push(step);
    }
    assert_eq!(seen, vec![1, 2, 3, 4, 0, 1, 2]);
    assert_eq!(next_step(usize::MAX), 1);
    assert_eq!(next_step(9), 0);
}

#[test]
fn one_token_is_taken_in_a_frame() {
    let (tx, rx) = channel();
    let mut app = MyApp::new(rx);
    tx.send(0).unwrap();
    tx.send(1).unwrap();
    tx.send(3).unwrap();
    assert_eq!(app.poll_step(), Some(0));
    assert_eq!(names(&app), vec!["Init capteurs"]);
    assert_eq!(app.step, 0);
    assert_eq!(app.poll_step(), Some(1));
    assert_eq!(names(&app), vec!["Init capteurs", "Transmission"]);
    assert_eq!(app.step, 1);
    assert_eq!(app.poll_step(), Some(3));
    assert_eq!(app.step, 3);
    assert_eq!(app.tasks.len(), 3);
    assert_eq!(app.poll_step(), None);
    assert_eq!(app.tasks.len(), 3);
    assert_eq!(app.step, 3);
}

#[test]
fn an_empty_or_closed_channel_changes_nothing() {
    let (tx, rx) = channel::<usize>();
    let mut app = MyApp::new(rx);
    assert_eq!(app.poll_step(), None);
    tx.send(0).unwrap();
    drop(tx);
    assert_eq!(app.poll_step(), Some(0));
    assert_eq!(app.poll_step(), None);
    assert_eq!(app.poll_step(), None);
    assert_eq!(names(&app), vec!["Init capteurs"]);
}

#[test]
fn apply_token_with_and_without_a_token() {
    let mut app = fresh();
    app.apply_token(None);
    assert!(app.tasks.is_empty());
    assert_eq!(app.step, 0);
    app.apply_token(Some(3));
    assert_eq!(names(&app), vec!["Sleep mode"]);
    assert_eq!(app.step, 3);
    app.apply_token(Some(9));
    assert!(app.tasks.is_empty());
    assert_eq!(app.step, 9);
}

#[test]
fn toggling_the_scale_twice() {
    let mut app = fresh();
    app.set_log_scale(true);
    app.sync_scale();
    assert_eq!(app.force_bounds_x, Some(get_bounds(true)));
    assert_eq!(app.take_forced_bounds(), Some(get_bounds(true)));

    app.set_log_scale(false);
    app.sync_scale();
    assert_eq!(app.zoom_band, None);
    assert_eq!(app.force_bounds_x, Some(get_bounds(false)));

    app.select_band(3);
    assert_eq!(app.zoom_band, Some(3));

    app.set_log_scale(true);
    app.sync_scale();
    assert_eq!(app.zoom_band, None);
    assert_eq!(app.force_bounds_x, Some(get_bounds(true)));
    assert_eq!(
        app.force_bounds_x,
        Some((PlotX { log: true, freq: 20_000 }, PlotX { log: true, freq: 6_000_000 }))
    );
    assert!(app.old_log_scale);
}

#[test]
fn the_scale_transition_fires_once() {
    let mut app = fresh();
    app.set_log_scale(true);
    app.sync_scale();
    assert_eq!(app.take_forced_bounds(), Some(get_bounds(true)));
    app.select_band(0);
    app.take_forced_bounds();
    app.sync_scale();
    assert_eq!(app.zoom_band, Some(0));
    assert_eq!(app.force_bounds_x, None);
}

#[test]
fn selecting_a_band_snaps_to_its_ends() {
    let mut app = fresh();
    app.select_band(2);
    assert_eq!(app.zoom_band, Some(2));
    assert_eq!(
        app.force_bounds_x,
        Some((PlotX { log: false, freq: 960_000 }, PlotX { log: false, freq: 1_215_000 }))
    );
    app.set_log_scale(true);
    app.sync_scale();
    app.select_band(4);
    assert_eq!(
        app.force_bounds_x,
        Some((PlotX { log: true, freq: 2_400_000 }, PlotX { log: true, freq: 6_000_000 }))
    );
}

#[test]
fn showing_all_drops_the_zoom() {
    let mut app = fresh();
    app.select_band(2);
    app.take_forced_bounds();
    app.show_all();
    assert_eq!(app.zoom_band, None);
    assert_eq!(app.force_bounds_x, Some(get_bounds(false)));
}

#[test]
fn forced_bounds_are_taken_once() {
    let mut app = fresh();
    assert_eq!(app.take_forced_bounds(), Some(get_bounds(false)));
    assert_eq!(app.force_bounds_x, None);
    assert_eq!(app.take_forced_bounds(), None);
    assert_eq!(app.zoom_band, None);
}

#[test]
fn observed_bounds_are_recorded_when_they_change() {
    let mut app = fresh();
    let a = (PlotX { log: false, freq: 100_000 }, PlotX { log: false, freq: 900_000 });
    app.observe_bounds(a);
    assert_eq!(app.plot_bounds_x, Some(a));
    assert_eq!(app.last_bounds_x, Some(a));
    app.plot_bounds_x = None;
    app.observe_bounds(a);
    assert_eq!(app.plot_bounds_x, None);
    let b = (PlotX { log: true, freq: 100_000 }, PlotX { log: true, freq: 900_000 });
    app.observe_bounds(b);
    assert_eq!(app.plot_bounds_x, Some(b));
    assert_eq!(app.last_bounds_x, Some(b));
    app.last_bounds_x = None;
    app.plot_bounds_x = None;
    app.observe_bounds(b);
    assert_eq!(app.plot_bounds_x, Some(b));
}

#[test]
fn time_limit_line_spans_the_axis() {
    assert_eq!(
        time_limit_line(false),
        (
            PlotPoint { x: PlotX { log: false, freq: 20_000 }, y: 1_000_000 },
            PlotPoint { x: PlotX { log: false, freq: 6_000_000 }, y: 1_000_000 },
        )
    );
    assert_eq!(
        time_limit_line(true),
        (
            PlotPoint { x: PlotX { log: true, freq: 20_000 }, y: 1_000_000 },
            PlotPoint { x: PlotX { log: true, freq: 6_000_000 }, y: 1_000_000 },
        )
    );
}

#[test]
fn a_task_under_the_pointer_hides_the_zone() {
    let mut app = fresh();
    app.update_tasks(1);
    for log in [false, true] {
        let report = app.hover(PlotPoint { x: PlotX { log, freq: 2_000_000 }, y: 400_000 });
        assert!(matches!(report.target, HoverTarget::Task(0)));
        assert_eq!(report.freq, 2_000_000);
        assert_eq!(report.time, 400_000);
    }
}

#[test]
fn without_a_task_the_zone_is_reported() {
    let mut app = fresh();
    app.update_tasks(1);
    let report = app.hover(PlotPoint { x: PlotX { log: false, freq: 2_000_000 }, y: 700_000 });
    match report.target {
        HoverTarget::Zones(names) => assert_eq!(names, vec!["Amplifier 1000-2500MHz"]),
        HoverTarget::Task(_) => panic!("no task lies there"),
    }
    assert_eq!((report.freq, report.time), (2_000_000, 700_000));
}
