//! The scale of the frequency axis.
//!
//! A frequency is drawn at its own value on the linear scale and at its
//! decimal logarithm on the logarithmic one.  A logarithm is in general no
//! integer, so a position on the axis is kept as the frequency drawn there
//! together with the scale: the renderer evaluates the logarithm when it
//! draws, and positions on one scale are ordered as their frequencies are.

use vstd::prelude::*;

verus! {

/// A position on the frequency axis of the plot: where `freq` kilohertz is
/// drawn, at `freq` itself if `log` is false and at its decimal logarithm if
/// `log` is true.
#[derive(Clone, Copy, PartialEq, Eq, Structural, Debug)]
pub struct PlotX {
    /// Whether the position lies on the logarithmic scale.
    pub log: bool,
    /// The frequency drawn at this position, in kHz.
    pub freq: i32,
}

impl PlotX {
    /// Only a positive frequency has a place on the logarithmic scale.
    pub open spec fn wf(self) -> bool {
        self.log ==> self.freq > 0
    }
}

/// The position at which `freq` is drawn on the chosen scale.
pub open spec fn plot_x(freq: i32, log: bool) -> PlotX {
    PlotX { log, freq }
}

/// The frequency that is drawn at position `x`.
pub open spec fn plotted_freq(x: PlotX) -> i32 {
    x.freq
}

/// Maps a frequency in kHz to its position on the linear (`log == false`) or
/// logarithmic (`log == true`) frequency axis.
pub fn to_plot_x(freq: i32, log: bool) -> (x: PlotX)
    ensures
        x == plot_x(freq, log),
        freq > 0 ==> x.wf(),
{
    PlotX { log, freq }
}

/// Maps a position on the frequency axis back to the frequency in kHz that is
/// drawn there, whatever the scale of the position.
pub fn from_plot_x(x: PlotX) -> (freq: i32)
    ensures
        freq == plotted_freq(x),
{
    x.freq
}

/// Going to the plot and back gives the frequency again, on either scale, and
/// the position of a frequency on the linear scale is that frequency.
pub proof fn lemma_plot_x_round_trip(freq: i32, log: bool)
    ensures
        plotted_freq(plot_x(freq, log)) == freq,
        plot_x(freq, false) == (PlotX { log: false, freq }),
        plot_x(freq, log).log == log,
{
}

/// On one scale, two positions coincide exactly when their frequencies do:
/// the scale loses nothing.
pub proof fn lemma_plot_x_injective(f: i32, g: i32, log: bool)
    ensures
        plot_x(f, log) == plot_x(g, log) <==> f == g,
{
}

} // verus!
