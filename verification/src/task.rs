//! Amplifier bands and the tasks drawn on the chart.

use vstd::prelude::*;
use egui::Color32;
use crate::color::{channels, opaque_rgb};
use crate::geometry::PlotPoint;
use crate::scale::{plot_x, to_plot_x};
use crate::text::str_equal;
use crate::utils::{MAX_FREQ, MAX_TIME, MIN_FREQ};

verus! {

/// The amplifiers of the system, one for each frequency band.
#[derive(Clone, Copy, PartialEq, Eq, Structural, Debug)]
pub enum Amplifier {
    /// 20 MHz to 500 MHz.
    A20_500,
    /// 500 MHz to 1000 MHz.
    A500_1000,
    /// 960 MHz to 1215 MHz.
    A960_1215,
    /// 1000 MHz to 2500 MHz.
    A1000_2500,
    /// 2400 MHz to 6000 MHz.
    A2400_6000,
}

impl Amplifier {
    /// The red, green and blue of the colour in which the band is drawn.
    pub open spec fn rgb(self) -> (u8, u8, u8) {
        match self {
            Amplifier::A20_500 => (0, 187, 221),
            Amplifier::A500_1000 => (255, 163, 0),
            Amplifier::A960_1215 => (124, 127, 171),
            Amplifier::A1000_2500 => (0, 171, 142),
            Amplifier::A2400_6000 => (174, 37, 115),
        }
    }

    /// The two ends of the band, in kHz.
    pub open spec fn range(self) -> (i32, i32) {
        match self {
            Amplifier::A20_500 => (20_000, 500_000),
            Amplifier::A500_1000 => (500_000, 1_000_000),
            Amplifier::A960_1215 => (960_000, 1_215_000),
            Amplifier::A1000_2500 => (1_000_000, 2_500_000),
            Amplifier::A2400_6000 => (2_400_000, 6_000_000),
        }
    }

    /// The text that labels the band on the chart.
    pub open spec fn label_text(self) -> Seq<char> {
        match self {
            Amplifier::A20_500 => "Amplifier 20-500MHz"@,
            Amplifier::A500_1000 => "Amplifier 500-1000MHz"@,
            Amplifier::A960_1215 => "Amplifier 960-1215MHz"@,
            Amplifier::A1000_2500 => "Amplifier 1000-2500MHz"@,
            Amplifier::A2400_6000 => "Amplifier 2400-6000MHz"@,
        }
    }

    /// The five amplifiers, in the order of their bands.
    pub open spec fn catalogue() -> Seq<Amplifier> {
        seq![
            Amplifier::A20_500,
            Amplifier::A500_1000,
            Amplifier::A960_1215,
            Amplifier::A1000_2500,
            Amplifier::A2400_6000,
        ]
    }

    /// The amplifier that the text `s` names, if it names one.
    pub open spec fn named(s: Seq<char>) -> Option<Amplifier> {
        if s == "A20_500"@ {
            Some(Amplifier::A20_500)
        } else if s == "A500_1000"@ {
            Some(Amplifier::A500_1000)
        } else if s == "A960_1215"@ {
            Some(Amplifier::A960_1215)
        } else if s == "A1000_2500"@ {
            Some(Amplifier::A1000_2500)
        } else if s == "A2400_6000"@ {
            Some(Amplifier::A2400_6000)
        } else {
            None
        }
    }

    /// Returns the colour in which the amplifier's band and tasks are drawn:
    /// an opaque colour of the band's red, green and blue.
    pub fn color(&self) -> (c: Color32)
        ensures
            channels(c) == (self.rgb().0, self.rgb().1, self.rgb().2, 255u8),
    {
        match self {
            Amplifier::A20_500 => opaque_rgb(0, 187, 221),
            Amplifier::A500_1000 => opaque_rgb(255, 163, 0),
            Amplifier::A960_1215 => opaque_rgb(124, 127, 171),
            Amplifier::A1000_2500 => opaque_rgb(0, 171, 142),
            Amplifier::A2400_6000 => opaque_rgb(174, 37, 115),
        }
    }

    /// Returns the two ends of the amplifier's band, in kHz.
    pub fn band(&self) -> (ends: (i32, i32))
        ensures
            ends == self.range(),
            MIN_FREQ <= ends.0 < ends.1 <= MAX_FREQ,
    {
        match self {
            Amplifier::A20_500 => (20_000, 500_000),
            Amplifier::A500_1000 => (500_000, 1_000_000),
            Amplifier::A960_1215 => (960_000, 1_215_000),
            Amplifier::A1000_2500 => (1_000_000, 2_500_000),
            Amplifier::A2400_6000 => (2_400_000, 6_000_000),
        }
    }

    /// Returns the text that labels the amplifier's band on the chart.
    pub fn label(&self) -> (text: &'static str)
        ensures
            text@ == self.label_text(),
    {
        match self {
            Amplifier::A20_500 => "Amplifier 20-500MHz",
            Amplifier::A500_1000 => "Amplifier 500-1000MHz",
            Amplifier::A960_1215 => "Amplifier 960-1215MHz",
            Amplifier::A1000_2500 => "Amplifier 1000-2500MHz",
            Amplifier::A2400_6000 => "Amplifier 2400-6000MHz",
        }
    }

    /// Returns the five amplifiers, in the order of their bands.
    pub fn all() -> (amps: Vec<Amplifier>)
        ensures
            amps@ == Self::catalogue(),
    {
        let mut amps: Vec<Amplifier> = Vec::new();
        amps.push(Amplifier::A20_500);
        amps.push(Amplifier::A500_1000);
        amps.push(Amplifier::A960_1215);
        amps.push(Amplifier::A1000_2500);
        amps.push(Amplifier::A2400_6000);
        assert(amps@ =~= Self::catalogue());
        amps
    }

    /// Reads an amplifier from its name, the name of its variant.  Any other
    /// text gives `None`.
    pub fn from_str(s: &str) -> (amp: Option<Self>)
        ensures
            amp == Self::named(s@),
    {
        if str_equal(s, "A20_500") {
            Some(Amplifier::A20_500)
        } else if str_equal(s, "A500_1000") {
            Some(Amplifier::A500_1000)
        } else if str_equal(s, "A960_1215") {
            Some(Amplifier::A960_1215)
        } else if str_equal(s, "A1000_2500") {
            Some(Amplifier::A1000_2500)
        } else if str_equal(s, "A2400_6000") {
            Some(Amplifier::A2400_6000)
        } else {
            None
        }
    }
}

/// The five names are distinct, so each of them names its own amplifier.
pub proof fn lemma_amplifier_names()
    ensures
        Amplifier::named("A20_500"@) == Some(Amplifier::A20_500),
        Amplifier::named("A500_1000"@) == Some(Amplifier::A500_1000),
        Amplifier::named("A960_1215"@) == Some(Amplifier::A960_1215),
        Amplifier::named("A1000_2500"@) == Some(Amplifier::A1000_2500),
        Amplifier::named("A2400_6000"@) == Some(Amplifier::A2400_6000),
{
    reveal_strlit("A20_500");
    reveal_strlit("A500_1000");
    reveal_strlit("A960_1215");
    reveal_strlit("A1000_2500");
    reveal_strlit("A2400_6000");
    assert("A20_500"@.len() == 7);
    assert("A500_1000"@.len() == 9);
    assert("A960_1215"@.len() == 9);
    assert("A1000_2500"@.len() == 10);
    assert("A2400_6000"@.len() == 10);
    assert("A500_1000"@[1] == '5');
    assert("A960_1215"@[1] == '9');
    assert("A1000_2500"@[1] == '1');
    assert("A2400_6000"@[1] == '2');
}

/// A task of the chart: a named use of a frequency range during a time
/// interval, by one amplifier.
#[derive(Debug)]
pub struct Task {
    /// Name shown in the tooltip.
    pub name: String,
    /// Lower end of the frequency range, in kHz.
    pub freq_start: i32,
    /// Upper end of the frequency range, in kHz.
    pub freq_end: i32,
    /// Start of the time interval, in microseconds.
    pub time_start: i32,
    /// End of the time interval, in microseconds.
    pub time_end: i32,
    /// The amplifier that carries the task.
    pub amplifier: Amplifier,
}

/// What a task holds, with its name as a sequence of characters.
pub struct TaskView {
    pub name: Seq<char>,
    pub freq_start: i32,
    pub freq_end: i32,
    pub time_start: i32,
    pub time_end: i32,
    pub amplifier: Amplifier,
}

impl View for Task {
    type V = TaskView;

    open spec fn view(&self) -> TaskView {
        TaskView {
            name: self.name@,
            freq_start: self.freq_start,
            freq_end: self.freq_end,
            time_start: self.time_start,
            time_end: self.time_end,
            amplifier: self.amplifier,
        }
    }
}

impl TaskView {
    /// The task lies within the chart and its two ranges are in order.
    pub open spec fn wf(self) -> bool {
        &&& MIN_FREQ <= self.freq_start <= self.freq_end <= MAX_FREQ
        &&& 0 <= self.time_start <= self.time_end <= MAX_TIME
    }

    /// Whether the task occupies frequency `freq` at time `time`, both ends
    /// of both ranges included.
    pub open spec fn covers(self, freq: i32, time: i32) -> bool {
        &&& self.freq_start <= freq <= self.freq_end
        &&& self.time_start <= time <= self.time_end
    }

    /// The rectangle of the task on the plot: its frequency range on the
    /// chosen scale, its time interval unchanged.
    pub open spec fn rect(self, log: bool) -> Seq<PlotPoint> {
        seq![
            PlotPoint { x: plot_x(self.freq_start, log), y: self.time_start },
            PlotPoint { x: plot_x(self.freq_end, log), y: self.time_start },
            PlotPoint { x: plot_x(self.freq_end, log), y: self.time_end },
            PlotPoint { x: plot_x(self.freq_start, log), y: self.time_end },
        ]
    }
}

impl Task {
    /// Returns the colour of the task, that of its amplifier.
    pub fn color(&self) -> (c: Color32)
        ensures
            channels(c) == (
                self.amplifier.rgb().0,
                self.amplifier.rgb().1,
                self.amplifier.rgb().2,
                255u8,
            ),
    {
        self.amplifier.color()
    }

    /// Returns the four corners of the task on the plot, from the lower left
    /// one along the lower side: frequencies on the logarithmic scale if `log`
    /// is true, on the linear scale otherwise, and times unchanged.
    pub fn rect(&self, log: bool) -> (corners: Vec<PlotPoint>)
        ensures
            corners@ == self@.rect(log),
            corners@.len() == 4,
    {
        let x0 = to_plot_x(self.freq_start, log);
        let x1 = to_plot_x(self.freq_end, log);
        let mut corners: Vec<PlotPoint> = Vec::new();
        corners.push(PlotPoint { x: x0, y: self.time_start });
        corners.push(PlotPoint { x: x1, y: self.time_start });
        corners.push(PlotPoint { x: x1, y: self.time_end });
        corners.push(PlotPoint { x: x0, y: self.time_end });
        assert(corners@ =~= self@.rect(log));
        corners
    }

    /// Tests whether the task occupies frequency `freq` (kHz) at time `time`
    /// (microseconds), by comparing with the ends of its two ranges, which
    /// count as inside.
    pub fn covers(&self, freq: i32, time: i32) -> (hit: bool)
        ensures
            hit == self@.covers(freq, time),
    {
        freq >= self.freq_start && freq <= self.freq_end && time >= self.time_start && time
            <= self.time_end
    }
}

} // verus!
