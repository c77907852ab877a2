//! The static zones drawn behind the tasks: the receiver zone and the five
//! amplifier bands.

use vstd::prelude::*;
use egui::Color32;
use crate::color::{channels, opaque_gray, translucent_rgba, transparent};
use crate::geometry::{
    contains_point, polygon_contains, rectangle, rectangle_points, PlotPoint, Point,
};
use crate::scale::{plot_x, to_plot_x};
use crate::task::Amplifier;
use crate::text::{each_replaced, replace_each};
use crate::utils::{MAX_FREQ, MIN_FREQ};

verus! {

/// The kinds of zone.
#[derive(Clone, Copy, PartialEq, Eq, Debug)]
pub enum BackgroundZoneKind {
    /// The zone of the receiver.
    RxZone,
    /// The band of an amplifier, with the text that names it.
    Amplifier(&'static str),
}

/// A kind of zone, with its text as a sequence of characters.
pub enum ZoneKindView {
    RxZone,
    Amplifier(Seq<char>),
}

impl View for BackgroundZoneKind {
    type V = ZoneKindView;

    open spec fn view(&self) -> ZoneKindView {
        match *self {
            BackgroundZoneKind::RxZone => ZoneKindView::RxZone,
            BackgroundZoneKind::Amplifier(label) => ZoneKindView::Amplifier(label@),
        }
    }
}

impl ZoneKindView {
    /// The name under which a zone of this kind is shown.
    pub open spec fn name(self) -> Seq<char> {
        match self {
            ZoneKindView::RxZone => "Zone de réception"@,
            ZoneKindView::Amplifier(label) => label,
        }
    }
}

/// The outline of a zone: a width in tenths of a point, and a colour.
#[derive(Clone, Copy, Debug)]
pub struct Stroke {
    /// Width of the line, in tenths of a point.
    pub width: u16,
    /// Colour of the line.
    pub color: Color32,
}

/// A zone drawn behind the tasks.
#[derive(Debug)]
pub struct BackgroundZone {
    /// Kind of the zone.
    pub kind: BackgroundZoneKind,
    /// Vertices of the zone, in domain units, in the order of its outline.
    pub area: Vec<Point>,
    /// Outline of the zone.
    pub stroke: Stroke,
    /// Colour that fills the zone.
    pub fill: Color32,
    /// Text drawn in the zone, with its anchor in domain units and its colour.
    pub label: Option<(String, Point, Color32)>,
}

/// What a zone holds: texts as sequences of characters and colours as their
/// four bytes.
pub struct ZoneView {
    pub kind: ZoneKindView,
    pub area: Seq<Point>,
    pub stroke_width: u16,
    pub stroke_color: (u8, u8, u8, u8),
    pub fill: (u8, u8, u8, u8),
    pub label: Option<(Seq<char>, Point, (u8, u8, u8, u8))>,
}

impl View for BackgroundZone {
    type V = ZoneView;

    open spec fn view(&self) -> ZoneView {
        ZoneView {
            kind: self.kind@,
            area: self.area@,
            stroke_width: self.stroke.width,
            stroke_color: channels(self.stroke.color),
            fill: channels(self.fill),
            label: match self.label {
                Some((text, anchor, color)) => Some((text@, anchor, channels(color))),
                None => None,
            },
        }
    }
}

/// A point of the chart as a point of the plot: its frequency on the chosen
/// scale, its time unchanged.
pub open spec fn plot_point(p: Point, log: bool) -> PlotPoint {
    PlotPoint { x: plot_x(p.x, log), y: p.y }
}

impl ZoneView {
    /// The outline of the zone on the plot: every vertex with its frequency
    /// on the chosen scale and its time unchanged.
    pub open spec fn polygon(self, log: bool) -> Seq<PlotPoint> {
        self.area.map_values(|p: Point| plot_point(p, log))
    }

    /// The anchor of the zone's label on the plot, moved as the vertices are.
    pub open spec fn label_anchor(self, log: bool) -> Option<PlotPoint> {
        match self.label {
            Some((_, anchor, _)) => Some(plot_point(anchor, log)),
            None => None,
        }
    }
}

impl BackgroundZone {
    /// Makes a zone of its parts.  The outline must have three vertices or
    /// more, since the containment test is defined for no less.
    pub fn new(
        kind: BackgroundZoneKind,
        area: Vec<Point>,
        stroke: Stroke,
        fill: Color32,
        label: Option<(String, Point, Color32)>,
    ) -> (zone: Self)
        requires
            area@.len() >= 3,
        ensures
            zone.kind == kind,
            zone.area == area,
            zone.stroke == stroke,
            zone.fill == fill,
            zone.label == label,
    {
        Self { kind, area, stroke, fill, label }
    }

    /// Tests whether the zone contains the point of frequency `x` (kHz) and
    /// time `y` (microseconds), by the even-odd rule on its outline.
    pub fn contains(&self, x: i32, y: i32) -> (inside: bool)
        requires
            self.area@.len() >= 3,
        ensures
            inside == contains_point(self@.area, x as int, y as int),
    {
        polygon_contains(&self.area, x, y)
    }

    /// Returns the name under which the zone is shown.
    pub fn name(&self) -> (name: String)
        ensures
            name@ == self@.kind.name(),
    {
        match self.kind {
            BackgroundZoneKind::RxZone => "Zone de réception".to_owned(),
            BackgroundZoneKind::Amplifier(label) => label.to_owned(),
        }
    }

    /// Returns the outline of the zone on the plot: frequencies on the
    /// logarithmic scale if `log` is true, on the linear scale otherwise, and
    /// times unchanged.
    pub fn polygon(&self, log: bool) -> (outline: Vec<PlotPoint>)
        ensures
            outline@ == self@.polygon(log),
    {
        let n = self.area.len();
        let mut outline: Vec<PlotPoint> = Vec::new();
        let mut i: usize = 0;
        while i < n
            invariant
                n == self.area@.len(),
                i <= n,
                outline@.len() == i,
                forall|k: int| 0 <= k < i ==> outline@[k] == plot_point(self.area@[k], log),
            decreases n - i,
        {
            let p = self.area[i];
            outline.push(PlotPoint { x: to_plot_x(p.x, log), y: p.y });
            i = i + 1;
        }
        assert(outline@ =~= self@.polygon(log));
        outline
    }

    /// Returns the anchor of the zone's label on the plot, moved to the
    /// chosen scale as the vertices are, or `None` for a zone without label.
    pub fn label_anchor(&self, log: bool) -> (anchor: Option<PlotPoint>)
        ensures
            anchor == self@.label_anchor(log),
    {
        match &self.label {
            Some((_, anchor, _)) => Some(PlotPoint { x: to_plot_x(anchor.x, log), y: anchor.y }),
            None => None,
        }
    }
}

/// Upper side of the receiver zone, in microseconds (100 ms).
pub const RX_ZONE_TOP: i32 = 100_000;

/// Upper side of an amplifier band, in microseconds (1100 ms).
pub const BAND_TOP: i32 = 1_100_000;

/// The receiver zone: the whole frequency range during the first 100 ms,
/// with a thin grey outline and without label.  It is filled with `fill`: the
/// bytes that the renderer makes of a light grey with an alpha of 100.
pub open spec fn rx_zone(fill: (u8, u8, u8, u8)) -> ZoneView {
    ZoneView {
        kind: ZoneKindView::RxZone,
        area: rectangle(MIN_FREQ, MAX_FREQ, 0, RX_ZONE_TOP),
        stroke_width: 1,
        stroke_color: (100, 100, 100, 255),
        fill,
        label: None,
    }
}

/// The upper side of the band of `amp`.  The band from 960 MHz, which lies
/// within its neighbours, is drawn 25 ms higher than the others.
pub open spec fn band_top(amp: Amplifier) -> i32 {
    if amp == Amplifier::A960_1215 {
        1_125_000
    } else {
        1_100_000
    }
}

/// The height of the label of the band of `amp`: 50 ms under the top of the
/// bands, and 50 ms above it for the band from 960 MHz.
pub open spec fn band_label_height(amp: Amplifier) -> i32 {
    if amp == Amplifier::A960_1215 {
        1_150_000
    } else {
        1_050_000
    }
}

/// The zone of the band of `amp`: its frequency range from time zero to the
/// band's top, unfilled, outlined in the amplifier's colour, and labelled in
/// that colour at the middle of the range with the band's text, one word to a
/// line.
pub open spec fn band_zone(amp: Amplifier) -> ZoneView {
    let (low, high) = amp.range();
    let (r, g, b) = amp.rgb();
    ZoneView {
        kind: ZoneKindView::Amplifier(amp.label_text()),
        area: rectangle(low, high, 0, band_top(amp)),
        stroke_width: 10,
        stroke_color: (r, g, b, 255),
        fill: (0, 0, 0, 0),
        label: Some(
            (
                each_replaced(amp.label_text(), ' ', '\n'),
                Point { x: ((low + high) / 2) as i32, y: band_label_height(amp) },
                (r, g, b, 255),
            ),
        ),
    }
}

/// The zones of the chart: the receiver zone, filled with `rx_fill`, then the
/// five bands in the order of the catalogue.
pub open spec fn background_zones(rx_fill: (u8, u8, u8, u8)) -> Seq<ZoneView> {
    seq![rx_zone(rx_fill)] + Amplifier::catalogue().map_values(|amp: Amplifier| band_zone(amp))
}

/// Builds the zones drawn behind the tasks: the receiver zone and the band of
/// each amplifier, in domain units.
pub fn get_background_zones() -> (zones: Vec<BackgroundZone>)
    ensures
        zones@.len() == 6,
        zones@.map_values(|z: BackgroundZone| z@) == background_zones(channels(zones@[0].fill)),
        channels(zones@[0].fill).3 == 100,
        forall|k: int| 0 <= k < 6 ==> (#[trigger] zones@[k]).area@.len() == 4,
{
    let mut zones: Vec<BackgroundZone> = Vec::new();
    zones.push(
        BackgroundZone::new(
            BackgroundZoneKind::RxZone,
            rectangle_points(MIN_FREQ, MAX_FREQ, 0, RX_ZONE_TOP),
            Stroke { width: 1, color: opaque_gray(100) },
            translucent_rgba(200, 200, 200, 100),
            None,
        ),
    );
    let amps = Amplifier::all();
    let mut i: usize = 0;
    while i < 5
        invariant
            i <= 5,
            amps@ == Amplifier::catalogue(),
            zones@.len() == i + 1,
            zones@[0]@ == rx_zone(channels(zones@[0].fill)),
            channels(zones@[0].fill).3 == 100,
            forall|k: int| 0 <= k < i ==> (#[trigger] zones@[k + 1])@ == band_zone(amps@[k]),
            forall|k: int| 0 <= k < i + 1 ==> (#[trigger] zones@[k]).area@.len() == 4,
        decreases 5 - i,
    {
        let amp = amps[i];
        let label = amp.label();
        let (f_start, f_end) = amp.band();
        let color = amp.color();
        let crowded = amp == Amplifier::A960_1215;
        let y_max: i32 = if crowded {
            BAND_TOP + 25_000
        } else {
            BAND_TOP
        };
        let label_y: i32 = if crowded {
            BAND_TOP + 50_000
        } else {
            BAND_TOP - 50_000
        };
        proof {
            reveal_strlit(" ");
            reveal_strlit("\n");
        }
        let text = replace_each(label, " ", "\n");
        let zone = BackgroundZone::new(
            BackgroundZoneKind::Amplifier(label),
            rectangle_points(f_start, f_end, 0, y_max),
            Stroke { width: 10, color },
            transparent(),
            Some((text, Point { x: (f_start + f_end) / 2, y: label_y }, color)),
        );
        assert(zone@ == band_zone(amp));
        zones.push(zone);
        i = i + 1;
    }
    proof {
        let views = zones@.map_values(|z: BackgroundZone| z@);
        let bands = Amplifier::catalogue().map_values(|amp: Amplifier| band_zone(amp));
        assert(bands.len() == 5);
        let all = background_zones(channels(zones@[0].fill));
        assert forall|k: int| 0 <= k < 6 implies views[k] == all[k] by {
            if k > 0 {
                assert(zones@[(k - 1) + 1]@ == band_zone(amps@[k - 1]));
                assert(all[k] == bands[k - 1]);
            }
        }
        assert(views =~= all);
    }
    zones
}

} // verus!
