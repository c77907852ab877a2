//! What lies under the pointer: the first task there, or else the zones
//! there, and in either case the pointer's own frequency and time.

use vstd::prelude::*;
use crate::background::{BackgroundZone, ZoneView};
use crate::geometry::{contains_point, PlotPoint};
use crate::scale::{from_plot_x, plotted_freq};
use crate::task::{Task, TaskView};

verus! {

/// What the pointer is over.
#[derive(Debug)]
pub enum HoverTarget {
    /// A task, by its place in the task list.
    Task(usize),
    /// No task: the names of the zones that contain the pointer, in the
    /// order of the zone list.  There may be none, or several that overlap.
    Zones(Vec<String>),
}

/// The answer to a pointer query.
#[derive(Debug)]
pub struct HoverReport {
    /// What the pointer is over.
    pub target: HoverTarget,
    /// Frequency under the pointer, in kHz.
    pub freq: i32,
    /// Time under the pointer, in microseconds.
    pub time: i32,
}

/// The tasks as they are seen in contracts.
pub open spec fn task_views(tasks: Seq<Task>) -> Seq<TaskView> {
    tasks.map_values(|t: Task| t@)
}

/// The zones as they are seen in contracts.
pub open spec fn zone_views(zones: Seq<BackgroundZone>) -> Seq<ZoneView> {
    zones.map_values(|z: BackgroundZone| z@)
}

/// The texts as sequences of characters.
pub open spec fn text_views(texts: Seq<String>) -> Seq<Seq<char>> {
    texts.map_values(|s: String| s@)
}

/// Whether task `k` is the first of the list that occupies `(freq, time)`.
pub open spec fn is_first_covering(tasks: Seq<TaskView>, k: int, freq: i32, time: i32) -> bool {
    &&& 0 <= k < tasks.len()
    &&& tasks[k].covers(freq, time)
    &&& forall|j: int| 0 <= j < k ==> !(#[trigger] tasks[j]).covers(freq, time)
}

/// Whether no task of the list occupies `(freq, time)`.
pub open spec fn none_covers(tasks: Seq<TaskView>, freq: i32, time: i32) -> bool {
    forall|j: int| 0 <= j < tasks.len() ==> !(#[trigger] tasks[j]).covers(freq, time)
}

/// The name of a zone if it contains `(freq, time)`.
pub open spec fn zone_name_at(freq: i32, time: i32) -> spec_fn(ZoneView) -> Option<Seq<char>> {
    |z: ZoneView|
        if contains_point(z.area, freq as int, time as int) {
            Some(z.kind.name())
        } else {
            None
        }
}

/// The names of the zones that contain `(freq, time)`, in the order of the
/// zone list.
pub open spec fn zone_names_at(zones: Seq<ZoneView>, freq: i32, time: i32) -> Seq<Seq<char>> {
    zones.filter_map(zone_name_at(freq, time))
}

/// The names found under the pointer depend on the kinds and the outlines of
/// the zones alone: two lists of zones that agree on those give the same
/// names, whatever their colours and labels.
pub proof fn lemma_zone_names_by_outline(a: Seq<ZoneView>, b: Seq<ZoneView>, freq: i32, time: i32)
    requires
        a.len() == b.len(),
        forall|k: int| 0 <= k < a.len() ==> a[k].kind == b[k].kind && a[k].area == b[k].area,
    ensures
        zone_names_at(a, freq, time) == zone_names_at(b, freq, time),
    decreases a.len(),
{
    if a.len() > 0 {
        lemma_zone_names_by_outline(a.drop_last(), b.drop_last(), freq, time);
    }
}

/// Finds the first task of the list that occupies frequency `freq` at time
/// `time`, the ends of its ranges included.
pub fn first_task_at(tasks: &Vec<Task>, freq: i32, time: i32) -> (found: Option<usize>)
    ensures
        match found {
            Some(k) => is_first_covering(task_views(tasks@), k as int, freq, time),
            None => none_covers(task_views(tasks@), freq, time),
        },
{
    let n = tasks.len();
    let mut i: usize = 0;
    while i < n
        invariant
            n == tasks@.len(),
            i <= n,
            forall|j: int| 0 <= j < i ==> !(#[trigger] task_views(tasks@)[j]).covers(freq, time),
        decreases n - i,
    {
        if tasks[i].covers(freq, time) {
            return Some(i);
        }
        i = i + 1;
    }
    None
}

/// Collects the names of the zones that contain frequency `freq` at time
/// `time`, in the order of the zone list.
pub fn zones_at(zones: &Vec<BackgroundZone>, freq: i32, time: i32) -> (names: Vec<String>)
    requires
        forall|k: int| 0 <= k < zones@.len() ==> (#[trigger] zones@[k]).area@.len() >= 3,
    ensures
        text_views(names@) == zone_names_at(zone_views(zones@), freq, time),
{
    let n = zones.len();
    let ghost views = zone_views(zones@);
    let mut names: Vec<String> = Vec::new();
    let mut i: usize = 0;
    assert(text_views(names@) =~= zone_names_at(views.take(0), freq, time));
    while i < n
        invariant
            n == zones@.len(),
            i <= n,
            views == zone_views(zones@),
            forall|k: int| 0 <= k < zones@.len() ==> (#[trigger] zones@[k]).area@.len() >= 3,
            text_views(names@) == zone_names_at(views.take(i as int), freq, time),
        decreases n - i,
    {
        let ghost before = names@;
        if zones[i].contains(freq, time) {
            let name = zones[i].name();
            names.push(name);
            assert(text_views(names@) =~= text_views(before).push(name@));
        }
        proof {
            views.lemma_filter_map_take_succ(zone_name_at(freq, time), i as int);
            assert(text_views(names@) =~= zone_names_at(views.take(i + 1), freq, time));
        }
        i = i + 1;
    }
    assert(views.take(n as int) =~= views);
    names
}

/// Answers a pointer query.  The pointer's position on the frequency axis is
/// turned back into a frequency.  The first task that occupies that
/// frequency at the pointer's time is reported, alone: a task under the
/// pointer hides every zone.  Only when there is none are the zones that
/// contain the point reported, all of them.  The frequency and the time of
/// the pointer are reported in either case.
pub fn resolve_hover(tasks: &Vec<Task>, zones: &Vec<BackgroundZone>, pointer: PlotPoint) -> (report:
    HoverReport)
    requires
        forall|k: int| 0 <= k < zones@.len() ==> (#[trigger] zones@[k]).area@.len() >= 3,
    ensures
        report.freq == plotted_freq(pointer.x),
        report.time == pointer.y,
        report.target is Task <==> !none_covers(task_views(tasks@), report.freq, report.time),
        match report.target {
            HoverTarget::Task(k) => is_first_covering(
                task_views(tasks@),
                k as int,
                report.freq,
                report.time,
            ),
            HoverTarget::Zones(names) => {
                &&& none_covers(task_views(tasks@), report.freq, report.time)
                &&& text_views(names@) == zone_names_at(
                    zone_views(zones@),
                    report.freq,
                    report.time,
                )
            },
        },
{
    let freq = from_plot_x(pointer.x);
    let time = pointer.y;
    let target = match first_task_at(tasks, freq, time) {
        Some(k) => HoverTarget::Task(k),
        None => HoverTarget::Zones(zones_at(zones, freq, time)),
    };
    HoverReport { target, freq, time }
}

} // verus!
