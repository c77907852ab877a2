//! The fixed limits of the chart and the bounds of its frequency axis.

use vstd::prelude::*;
use crate::scale::{plot_x, to_plot_x, PlotX};

verus! {

/// Lowest frequency of the chart, in kHz (20 MHz).
pub const MIN_FREQ: i32 = 20_000;

/// Highest frequency of the chart, in kHz (6000 MHz).
pub const MAX_FREQ: i32 = 6_000_000;

/// End of the time axis, in microseconds (1000 ms), whatever the scale.
pub const MAX_TIME: i32 = 1_000_000;

/// The two ends of the frequency axis on the chosen scale.
pub open spec fn domain_bounds(log: bool) -> (PlotX, PlotX) {
    (plot_x(MIN_FREQ, log), plot_x(MAX_FREQ, log))
}

/// Returns the bounds of the frequency axis: the positions of `MIN_FREQ` and
/// `MAX_FREQ` on the logarithmic scale if `log` is true, on the linear scale
/// otherwise.
pub fn get_bounds(log: bool) -> (bounds: (PlotX, PlotX))
    ensures
        bounds == domain_bounds(log),
        bounds.0.wf(),
        bounds.1.wf(),
{
    (to_plot_x(MIN_FREQ, log), to_plot_x(MAX_FREQ, log))
}

/// The bounds of the axis are those of the whole domain, 20 MHz to 6000 MHz,
/// each on the scale asked for.
pub proof fn lemma_domain_bounds_values()
    ensures
        domain_bounds(false) == (
            PlotX { log: false, freq: 20_000 },
            PlotX { log: false, freq: 6_000_000 },
        ),
        domain_bounds(true) == (
            PlotX { log: true, freq: 20_000 },
            PlotX { log: true, freq: 6_000_000 },
        ),
{
}

} // verus!
