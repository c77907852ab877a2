use freq_gantt::background::get_background_zones;
use freq_gantt::geometry::PlotPoint;
use freq_gantt::hover::{first_task_at, resolve_hover, zones_at, HoverTarget};
use freq_gantt::scale::PlotX;
use freq_gantt::task::{Amplifier, Task};

fn task(name: &str, f0: i32, f1: i32, t0: i32, t1: i32) -> Task {
    Task {
        name: name.to_string(),
        freq_start: f0,
        freq_end: f1,
        time_start: t0,
        time_end: t1,
        amplifier: Amplifier::A1000_2500,
    }
}

fn at(freq: i32, time: i32) -> PlotPoint {
    PlotPoint { x: PlotX { log: true, freq }, y: time }
}

#[test]
fn first_of_two_overlapping_tasks_wins() {
    let tasks = vec![
        task("a", 1_000_000, 2_000_000, 0, 500_000),
        task("b", 1_500_000, 2_500_000, 0, 500_000),
    ];
    assert_eq!(first_task_at(&tasks, 1_700_000, 100_000), Some(0));
    assert_eq!(first_task_at(&tasks, 2_200_000, 100_000), Some(1));
    assert_eq!(first_task_at(&tasks, 2_000_000, 500_000), Some(0));
    assert_eq!(first_task_at(&tasks, 2_600_000, 100_000), None);
    assert_eq!(first_task_at(&Vec::new(), 2_600_000, 100_000), None);
}

#[test]
fn overlapping_zones_are_all_reported_in_order() {
    let zones = get_background_zones();
    assert_eq!(
        zones_at(&zones, 980_000, 50_000),
        vec!["Zone de réception", "Amplifier 500-1000MHz", "Amplifier 960-1215MHz"]
    );
    assert_eq!(
        zones_at(&zones, 1_100_000, 1_110_000),
        vec!["Amplifier 960-1215MHz"]
    );
    assert_eq!(zones_at(&zones, 1_100_000, 1_125_000), Vec::<String>::new());
    assert_eq!(zones_at(&zones, 10_000, 50_000), Vec::<String>::new());
    assert_eq!(zones_at(&zones, 6_000_000, 50_000), Vec::<String>::new());
    assert_eq!(
        zones_at(&zones, 20_000, 0),
        vec!["Zone de réception", "Amplifier 20-500MHz"]
    );
}

#[test]
fn task_over_a_zone_is_reported_alone() {
    let tasks = vec![task("Transmission", 1_000_000, 2_500_000, 300_000, 600_000)];
    let zones = get_background_zones();
    let report = resolve_hover(&tasks, &zones, at(1_700_000, 450_000));
    assert!(matches!(report.target, HoverTarget::Task(0)));
    assert_eq!((report.freq, report.time), (1_700_000, 450_000));
}

#[test]
fn upper_ends_of_a_task_count_where_a_zone_stops() {
    let tasks = vec![task("edge", 1_000_000, 2_500_000, 300_000, 1_100_000)];
    let zones = get_background_zones();
    let report = resolve_hover(&tasks, &zones, at(2_500_000, 1_100_000));
    assert!(matches!(report.target, HoverTarget::Task(0)));
    let report = resolve_hover(&tasks, &zones, at(2_500_001, 1_100_000));
    match report.target {
        HoverTarget::Zones(names) => assert!(names.is_empty()),
        HoverTarget::Task(_) => panic!("the task ends at 2500 MHz"),
    }
}

#[test]
fn zones_are_reported_where_no_task_is() {
    let tasks = vec![task("Transmission", 1_000_000, 2_500_000, 300_000, 600_000)];
    let zones = get_background_zones();
    let report = resolve_hover(&tasks, &zones, at(1_100_000, 50_000));
    match report.target {
        HoverTarget::Zones(names) => assert_eq!(
            names,
            vec!["Zone de réception", "Amplifier 960-1215MHz", "Amplifier 1000-2500MHz"]
        ),
        HoverTarget::Task(_) => panic!("the task starts at 300 ms"),
    }
    assert_eq!((report.freq, report.time), (1_100_000, 50_000));
}

#[test]
fn pointer_outside_everything() {
    let report = resolve_hover(&Vec::new(), &get_background_zones(), at(7_000_000, 2_000_000));
    match report.target {
        HoverTarget::Zones(names) => assert!(names.is_empty()),
        HoverTarget::Task(_) => panic!("there is no task"),
    }
    assert_eq!((report.freq, report.time), (7_000_000, 2_000_000));
}
