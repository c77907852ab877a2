//! Viewport, coordinate and hit-test core of a frequency/time scheduling chart.
//!
//! The chart places time-bounded tasks on a plane whose horizontal axis is
//! frequency, drawn on a linear or a decimal-logarithmic scale, and whose
//! vertical axis is elapsed time.  This crate holds the part of the chart that
//! decides: the task and zone model, the scale of the frequency axis, the
//! polygons handed to the renderer, the point-in-polygon test behind the
//! hover read-out, the zoom and scale state machine, and the recipe that turns
//! step tokens into changes of the task list.
//!
//! Every quantity is an integer: frequencies are whole kilohertz and times are
//! whole microseconds, so that contracts can speak of exact values.

pub mod app;
pub mod background;
pub mod channel;
pub mod color;
pub mod geometry;
pub mod hover;
pub mod scale;
pub mod task;
pub mod text;
pub mod utils;
