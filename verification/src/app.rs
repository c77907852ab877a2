//! The state of the chart and the transitions that a frame can take: the
//! task list with the recipe that changes it, the scale and zoom of the
//! frequency axis, and the pointer query.

use vstd::prelude::*;
use std::sync::mpsc::Receiver;
use crate::background::{background_zones, get_background_zones};
use crate::channel::try_receive;
use crate::geometry::PlotPoint;
use crate::color::channels;
use crate::hover::{
    is_first_covering, lemma_zone_names_by_outline, none_covers, resolve_hover, task_views,
    text_views, zone_names_at, HoverReport, HoverTarget,
};
use crate::scale::{plot_x, plotted_freq, to_plot_x, PlotX};
use crate::task::{Amplifier, Task, TaskView};
use crate::utils::{domain_bounds, get_bounds, MAX_TIME};

verus! {

/// Number of steps of the recipe: a step token counts modulo this.
pub const RECIPE_LEN: usize = 5;

/// The chart: its tasks, the source of its step tokens, and its viewport.
pub struct MyApp {
    /// Tasks drawn on the chart, in the order in which they were added.
    pub tasks: Vec<Task>,
    /// Bounds of the frequency axis as the plot last showed them.
    pub plot_bounds_x: Option<(PlotX, PlotX)>,
    /// Bounds of the frequency axis seen in the previous frame.
    pub last_bounds_x: Option<(PlotX, PlotX)>,
    /// Where step tokens arrive.
    pub receiver: Receiver<usize>,
    /// The last step token taken.
    pub step: usize,
    /// The scale that the viewport was last brought in line with.
    pub old_log_scale: bool,
    /// Whether the frequency axis is logarithmic.
    pub log_scale: bool,
    /// The band zoomed on, by its place in the catalogue, if any.
    pub zoom_band: Option<usize>,
    /// Bounds to snap the frequency axis to in the next frame, once.
    pub force_bounds_x: Option<(PlotX, PlotX)>,
}

/// The task that step 0 of the recipe adds.
pub open spec fn init_sensors() -> TaskView {
    TaskView {
        name: "Init capteurs"@,
        freq_start: 100_000,
        freq_end: 300_000,
        time_start: 0,
        time_end: 300_000,
        amplifier: Amplifier::A20_500,
    }
}

/// The task that step 1 of the recipe adds.
pub open spec fn transmission() -> TaskView {
    TaskView {
        name: "Transmission"@,
        freq_start: 1_000_000,
        freq_end: 2_500_000,
        time_start: 300_000,
        time_end: 600_000,
        amplifier: Amplifier::A1000_2500,
    }
}

/// The task that step 3 of the recipe adds.
pub open spec fn sleep_mode() -> TaskView {
    TaskView {
        name: "Sleep mode"@,
        freq_start: 5_000_000,
        freq_end: 5_500_000,
        time_start: 0,
        time_end: 1_000_000,
        amplifier: Amplifier::A2400_6000,
    }
}

/// The task list after a step of the recipe, chosen by the token modulo the
/// length of the recipe: steps 0, 1 and 3 add a fixed task at the end, step 2
/// removes the last task if there is one, step 4 removes them all.
pub open spec fn step_applied(tasks: Seq<TaskView>, step: usize) -> Seq<TaskView> {
    let s = step % RECIPE_LEN;
    if s == 0 {
        tasks.push(init_sensors())
    } else if s == 1 {
        tasks.push(transmission())
    } else if s == 2 {
        if tasks.len() > 0 {
            tasks.drop_last()
        } else {
            tasks
        }
    } else if s == 3 {
        tasks.push(sleep_mode())
    } else {
        Seq::empty()
    }
}

/// Whether every task of the list lies within the chart with its ranges in
/// order.
pub open spec fn all_valid(tasks: Seq<TaskView>) -> bool {
    forall|k: int| 0 <= k < tasks.len() ==> (#[trigger] tasks[k]).wf()
}

/// The bounds that zoom on band `i` of the catalogue, on the chosen scale.
pub open spec fn band_bounds(i: int, log: bool) -> (PlotX, PlotX) {
    let (low, high) = Amplifier::catalogue()[i].range();
    (plot_x(low, log), plot_x(high, log))
}

/// The token that follows `step` in the cycle of the recipe.
pub fn next_step(step: usize) -> (next: usize)
    ensures
        next == (step + 1) % (RECIPE_LEN as int),
        next < RECIPE_LEN,
{
    (step % RECIPE_LEN + 1) % RECIPE_LEN
}

impl MyApp {
    /// The state is well formed: every task lies within the chart with its
    /// ranges in order, a zoom names a band of the catalogue, and forced
    /// bounds are positions that exist on their scale.
    pub open spec fn wf(self) -> bool {
        &&& all_valid(task_views(self.tasks@))
        &&& self.zoom_band matches Some(i) ==> i < 5
        &&& self.force_bounds_x matches Some(bounds) ==> bounds.0.wf() && bounds.1.wf()
    }

    /// The state with the scale of the axis chosen.
    pub open spec fn with_scale(self, log: bool) -> MyApp {
        MyApp { log_scale: log, ..self }
    }

    /// The state after the viewport has been brought in line with the scale:
    /// where the scale has changed since the last time, the zoom is dropped
    /// and the axis is snapped to the whole domain on the new scale;
    /// otherwise nothing changes.
    pub open spec fn scale_synced(self) -> MyApp {
        if self.log_scale != self.old_log_scale {
            MyApp {
                old_log_scale: self.log_scale,
                zoom_band: None,
                force_bounds_x: Some(domain_bounds(self.log_scale)),
                ..self
            }
        } else {
            self
        }
    }

    /// The state after band `i` of the catalogue has been selected.
    pub open spec fn band_selected(self, i: usize) -> MyApp {
        MyApp {
            zoom_band: Some(i),
            force_bounds_x: Some(band_bounds(i as int, self.log_scale)),
            ..self
        }
    }

    /// The state after the whole domain has been selected.
    pub open spec fn all_shown(self) -> MyApp {
        MyApp {
            zoom_band: None,
            force_bounds_x: Some(domain_bounds(self.log_scale)),
            ..self
        }
    }

    /// The state after the forced bounds have been handed to the plot.
    pub open spec fn bounds_taken(self) -> MyApp {
        MyApp { force_bounds_x: None, ..self }
    }

    /// The state after the plot has reported the bounds it shows.
    pub open spec fn bounds_observed(self, bounds: (PlotX, PlotX)) -> MyApp {
        if self.last_bounds_x != Some(bounds) {
            MyApp { plot_bounds_x: Some(bounds), last_bounds_x: Some(bounds), ..self }
        } else {
            self
        }
    }

    /// Whether `after` is this state with step token `step` taken: the token
    /// is recorded, the task list has gone through that step of the recipe,
    /// and nothing else has changed.
    pub open spec fn step_taken(self, step: usize, after: MyApp) -> bool {
        &&& task_views(after.tasks@) == step_applied(task_views(self.tasks@), step)
        &&& after == MyApp { tasks: after.tasks, step, ..self }
    }

    /// Makes the chart in its first state: no task, the linear scale, no
    /// zoom, and the axis to be snapped to the whole domain in the first
    /// frame.  Step tokens will be taken from `receiver`.
    pub fn new(receiver: Receiver<usize>) -> (app: Self)
        ensures
            app.tasks@.len() == 0,
            app.plot_bounds_x == Some(domain_bounds(false)),
            app.last_bounds_x == Some(
                (PlotX { log: false, freq: 0 }, PlotX { log: false, freq: 1_000 }),
            ),
            app.receiver == receiver,
            app.step == 0,
            !app.old_log_scale,
            !app.log_scale,
            app.zoom_band is None,
            app.force_bounds_x == Some(domain_bounds(false)),
            app.wf(),
    {
        Self {
            tasks: Vec::new(),
            plot_bounds_x: Some(get_bounds(false)),
            last_bounds_x: Some((to_plot_x(0, false), to_plot_x(1_000, false))),
            receiver,
            step: 0,
            old_log_scale: false,
            log_scale: false,
            zoom_band: None,
            force_bounds_x: Some(get_bounds(false)),
        }
    }

    /// Returns the catalogue of bands: each amplifier with the two ends of
    /// its band in kHz.
    pub fn bands(&self) -> (bands: Vec<(Amplifier, i32, i32)>)
        ensures
            bands@ == Amplifier::catalogue().map_values(
                |amp: Amplifier| (amp, amp.range().0, amp.range().1),
            ),
            bands@.len() == 5,
    {
        let mut bands: Vec<(Amplifier, i32, i32)> = Vec::new();
        bands.push((Amplifier::A20_500, 20_000, 500_000));
        bands.push((Amplifier::A500_1000, 500_000, 1_000_000));
        bands.push((Amplifier::A960_1215, 960_000, 1_215_000));
        bands.push((Amplifier::A1000_2500, 1_000_000, 2_500_000));
        bands.push((Amplifier::A2400_6000, 2_400_000, 6_000_000));
        assert(bands@ =~= Amplifier::catalogue().map_values(
            |amp: Amplifier| (amp, amp.range().0, amp.range().1),
        ));
        bands
    }

    /// Applies one step of the recipe to the task list, chosen by `step`
    /// modulo the length of the recipe.  Nothing but the task list changes,
    /// and a list of valid tasks stays one.
    pub fn update_tasks(&mut self, step: usize)
        ensures
            task_views(final(self).tasks@) == step_applied(task_views(old(self).tasks@), step),
            final(self).tasks@.len() == step_applied(task_views(old(self).tasks@), step).len(),
            *final(self) == (MyApp { tasks: final(self).tasks, ..*old(self) }),
            old(self).wf() ==> final(self).wf(),
    {
        let ghost before = task_views(self.tasks@);
        let s = step % RECIPE_LEN;
        if s == 0 {
            self.tasks.push(
                Task {
                    name: "Init capteurs".to_owned(),
                    freq_start: 100_000,
                    freq_end: 300_000,
                    time_start: 0,
                    time_end: 300_000,
                    amplifier: Amplifier::A20_500,
                },
            );
            assert(task_views(self.tasks@) =~= before.push(init_sensors()));
        } else if s == 1 {
            self.tasks.push(
                Task {
                    name: "Transmission".to_owned(),
                    freq_start: 1_000_000,
                    freq_end: 2_500_000,
                    time_start: 300_000,
                    time_end: 600_000,
                    amplifier: Amplifier::A1000_2500,
                },
            );
            assert(task_views(self.tasks@) =~= before.push(transmission()));
        } else if s == 2 {
            self.tasks.pop();
            assert(task_views(self.tasks@) =~= step_applied(before, step));
        } else if s == 3 {
            self.tasks.push(
                Task {
                    name: "Sleep mode".to_owned(),
                    freq_start: 5_000_000,
                    freq_end: 5_500_000,
                    time_start: 0,
                    time_end: 1_000_000,
                    amplifier: Amplifier::A2400_6000,
                },
            );
            assert(task_views(self.tasks@) =~= before.push(sleep_mode()));
        } else {
            self.tasks.clear();
            assert(task_views(self.tasks@) =~= Seq::empty());
        }
    }

    /// Takes what the channel gave this frame: with a token, records it and
    /// applies its step of the recipe; without one, changes nothing.
    pub fn apply_token(&mut self, token: Option<usize>)
        ensures
            match token {
                Some(step) => old(self).step_taken(step, *final(self)),
                None => *final(self) == *old(self),
            },
            old(self).wf() ==> final(self).wf(),
    {
        match token {
            Some(step) => {
                self.step = step;
                self.update_tasks(step);
            },
            None => {},
        }
    }

    /// Asks the channel once, without waiting, and takes what it gives: at
    /// most one token in a frame, however many are waiting.  Returns the token
    /// taken, if any.
    pub fn poll_step(&mut self) -> (token: Option<usize>)
        ensures
            match token {
                Some(step) => old(self).step_taken(step, *final(self)),
                None => *final(self) == *old(self),
            },
            old(self).wf() ==> final(self).wf(),
    {
        let token = try_receive(&self.receiver);
        self.apply_token(token);
        token
    }

    /// Chooses the scale of the frequency axis.  The viewport follows at the
    /// next `sync_scale`.
    pub fn set_log_scale(&mut self, log: bool)
        ensures
            *final(self) == old(self).with_scale(log),
            old(self).wf() ==> final(self).wf(),
    {
        self.log_scale = log;
    }

    /// Brings the viewport in line with the scale.  Where the scale has
    /// changed since the last call, the zoom is dropped and the axis is to be
    /// snapped to the whole domain on the new scale; a second call changes
    /// nothing more.
    pub fn sync_scale(&mut self)
        ensures
            *final(self) == old(self).scale_synced(),
            old(self).wf() ==> final(self).wf(),
    {
        if self.log_scale != self.old_log_scale {
            self.old_log_scale = self.log_scale;
            self.zoom_band = None;
            self.force_bounds_x = Some(get_bounds(self.log_scale));
        }
    }

    /// Zooms on band `i` of the catalogue: the axis is to be snapped to the
    /// two ends of the band on the current scale.
    pub fn select_band(&mut self, i: usize)
        requires
            i < 5,
        ensures
            *final(self) == old(self).band_selected(i),
            old(self).wf() ==> final(self).wf(),
    {
        let bands = self.bands();
        let (_, start, end) = bands[i];
        self.zoom_band = Some(i);
        self.force_bounds_x = Some((to_plot_x(start, self.log_scale), to_plot_x(end, self.log_scale)));
    }

    /// Drops the zoom: the axis is to be snapped to the whole domain on the
    /// current scale.
    pub fn show_all(&mut self)
        ensures
            *final(self) == old(self).all_shown(),
            old(self).wf() ==> final(self).wf(),
    {
        self.zoom_band = None;
        self.force_bounds_x = Some(get_bounds(self.log_scale));
    }

    /// Hands the forced bounds to the caller and forgets them: they are
    /// applied in one frame and never again.
    pub fn take_forced_bounds(&mut self) -> (bounds: Option<(PlotX, PlotX)>)
        ensures
            bounds == old(self).force_bounds_x,
            *final(self) == old(self).bounds_taken(),
            old(self).wf() ==> final(self).wf(),
    {
        let bounds = self.force_bounds_x;
        self.force_bounds_x = None;
        bounds
    }

    /// Records the bounds that the plot shows, where they differ from those
    /// of the previous frame.
    pub fn observe_bounds(&mut self, bounds: (PlotX, PlotX))
        ensures
            *final(self) == old(self).bounds_observed(bounds),
            old(self).wf() ==> final(self).wf(),
    {
        let same = match self.last_bounds_x {
            Some((low, high)) => low == bounds.0 && high == bounds.1,
            None => false,
        };
        if !same {
            self.plot_bounds_x = Some(bounds);
            self.last_bounds_x = Some(bounds);
        }
    }

    /// Answers a pointer query against the tasks of the chart and its zones.
    /// A task under the pointer is reported alone; the zones are reported
    /// only when no task is there.
    pub fn hover(&self, pointer: PlotPoint) -> (report: HoverReport)
        ensures
            report.freq == plotted_freq(pointer.x),
            report.time == pointer.y,
            report.target is Task <==> !none_covers(
                task_views(self.tasks@),
                report.freq,
                report.time,
            ),
            match report.target {
                HoverTarget::Task(k) => is_first_covering(
                    task_views(self.tasks@),
                    k as int,
                    report.freq,
                    report.time,
                ),
                HoverTarget::Zones(names) => forall|fill: (u8, u8, u8, u8)|
                    text_views(names@) == zone_names_at(
                        #[trigger] background_zones(fill),
                        report.freq,
                        report.time,
                    ),
            },
    {
        let zones = get_background_zones();
        let report = resolve_hover(&self.tasks, &zones, pointer);
        proof {
            let seen = background_zones(channels(zones@[0].fill));
            assert forall|fill: (u8, u8, u8, u8)|
                zone_names_at(seen, report.freq, report.time) == zone_names_at(
                    #[trigger] background_zones(fill),
                    report.freq,
                    report.time,
                ) by {
                let other = background_zones(fill);
                assert forall|k: int| 0 <= k < seen.len() implies seen[k].kind == other[k].kind
                    && seen[k].area == other[k].area by {}
                lemma_zone_names_by_outline(seen, other, report.freq, report.time);
            }
        }
        report
    }
}

/// The line that marks the end of the time axis, from one end of the
/// frequency axis to the other on the chosen scale.
pub fn time_limit_line(log: bool) -> (ends: (PlotPoint, PlotPoint))
    ensures
        ends.0 == (PlotPoint { x: domain_bounds(log).0, y: MAX_TIME }),
        ends.1 == (PlotPoint { x: domain_bounds(log).1, y: MAX_TIME }),
{
    let (low, high) = get_bounds(log);
    (PlotPoint { x: low, y: MAX_TIME }, PlotPoint { x: high, y: MAX_TIME })
}

/// Each step of the recipe does one thing.  Step 0 on an empty list leaves
/// exactly the first fixed task.  Step 2 on a list that is not empty removes
/// its last task and no other.  Step 4 leaves an empty list whatever the list
/// was, an empty one included.  A token counts modulo the length of the
/// recipe.
pub proof fn lemma_recipe_steps(tasks: Seq<TaskView>, step: usize)
    ensures
        step_applied(Seq::empty(), 0) == seq![init_sensors()],
        step_applied(tasks, 0) == tasks.push(init_sensors()),
        tasks.len() > 0 ==> step_applied(tasks, 2) == tasks.drop_last(),
        step_applied(Seq::empty(), 2) == Seq::<TaskView>::empty(),
        step_applied(tasks, 4) == Seq::<TaskView>::empty(),
        step_applied(Seq::empty(), 4) == Seq::<TaskView>::empty(),
        step_applied(tasks, step) == step_applied(tasks, (step % RECIPE_LEN) as usize),
{
    assert(Seq::<TaskView>::empty().push(init_sensors()) =~= seq![init_sensors()]);
}

/// A change of scale resets the viewport, once.  Bringing the viewport in
/// line after the scale has changed drops the zoom, whatever band had been
/// selected, and snaps the axis to the whole domain on the new scale; doing so
/// again changes nothing.
pub proof fn lemma_scale_change_resets(app: MyApp, log: bool)
    requires
        app.old_log_scale != log,
    ensures
        app.with_scale(log).scale_synced().zoom_band is None,
        app.with_scale(log).scale_synced().force_bounds_x == Some(domain_bounds(log)),
        app.with_scale(log).scale_synced().log_scale == log,
        app.with_scale(log).scale_synced().old_log_scale == log,
        app.with_scale(log).scale_synced().scale_synced() == app.with_scale(log).scale_synced(),
{
}

/// From the logarithmic scale to the linear one and back: each change drops
/// the zoom and snaps the axis to the whole domain on the scale just chosen,
/// also where band `band` was selected in between, so that the second change
/// ends on the bounds of the logarithmic domain.
pub proof fn lemma_toggle_twice(app: MyApp, band: usize)
    requires
        app.log_scale,
        app.old_log_scale,
    ensures
        ({
            let linear = app.with_scale(false).scale_synced();
            let zoomed = linear.band_selected(band);
            let back = zoomed.with_scale(true).scale_synced();
            &&& linear.zoom_band is None
            &&& linear.force_bounds_x == Some(domain_bounds(false))
            &&& zoomed.zoom_band == Some(band)
            &&& back.zoom_band is None
            &&& back.force_bounds_x == Some(domain_bounds(true))
            &&& back.log_scale
        }),
{
}

/// Forced bounds are applied once: after they have been taken there are none
/// to take, until a band, the whole domain or another scale is chosen.
pub proof fn lemma_forced_bounds_one_shot(app: MyApp, bounds: (PlotX, PlotX))
    ensures
        app.bounds_taken().force_bounds_x is None,
        app.bounds_taken().scale_synced().force_bounds_x is None <==> app.log_scale
            == app.old_log_scale,
        app.bounds_taken().bounds_observed(bounds).force_bounds_x is None,
        app.bounds_taken().zoom_band == app.zoom_band,
{
}

} // verus!
