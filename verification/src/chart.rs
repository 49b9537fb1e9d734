//! Layout values for the two-panel chart of the raw and filtered
//! signals, and the conversion of a signal buffer into plotted points.
//!
//! Only the numbers are computed here: the drawing itself, the labels
//! and the image file are the caller's side of the boundary.

use vstd::prelude::*;

use crate::fixed::SCALE;

verus! {

/// The layout of the rendered image: overall pixel size, the height at
/// which the titled area splits into the two panels, chart margins and
/// label areas, tick-label counts, the y-axis range in fixed point, and
/// the number of samples plotted along x.
pub struct ChartConfig {
    pub width: u32,
    pub height: u32,
    pub split_height: u32,
    pub margin: u32,
    pub label_area_size: u32,
    pub caption_font_size: u32,
    pub title_font_size: u32,
    pub x_label_count: u32,
    pub y_label_count: u32,
    pub y_min: i64,
    pub y_max: i64,
    pub n_samples: usize,
}

impl ChartConfig {
    /// A usable layout: a nonempty image, the split inside it, a
    /// nonempty y-axis range, and at least one sample to plot.
    pub open spec fn wf(self) -> bool {
        &&& 0 < self.width
        &&& 0 < self.split_height < self.height
        &&& self.y_min < self.y_max
        &&& 0 < self.n_samples
    }

    /// The reference layout: a 1920 by 1080 image split at 540 pixels,
    /// margins of 5, label areas of 50, captions at 40 and the overall
    /// title at 60 points, ten tick labels per axis, a y-axis running
    /// from 0.001 to 1.0 of amplitude, and 100 samples.
    pub fn reference() -> (c: ChartConfig)
        ensures
            c == (ChartConfig {
                width: 1920u32,
                height: 1080u32,
                split_height: 540u32,
                margin: 5u32,
                label_area_size: 50u32,
                caption_font_size: 40u32,
                title_font_size: 60u32,
                x_label_count: 10u32,
                y_label_count: 10u32,
                y_min: 1_000_000i64,
                y_max: SCALE,
                n_samples: 100usize,
            }),
            c.wf(),
    {
        ChartConfig {
            width: 1920,
            height: 1080,
            split_height: 540,
            margin: 5,
            label_area_size: 50,
            caption_font_size: 40,
            title_font_size: 60,
            x_label_count: 10,
            y_label_count: 10,
            y_min: 1_000_000,
            y_max: SCALE,
            n_samples: 100,
        }
    }

    /// The pixel heights of the upper and lower panels: the split
    /// height and the rest, which together cover the image exactly.
    pub fn panel_heights(&self) -> (r: (u32, u32))
        requires
            self.split_height <= self.height,
        ensures
            r.0 == self.split_height,
            r.1 == self.height - self.split_height,
            r.0 + r.1 == self.height,
            self.wf() ==> r.0 > 0 && r.1 > 0,
    {
        (self.split_height, self.height - self.split_height)
    }
}

/// The points of a signal's line series: sample `i` is drawn at x
/// position `i` with its fixed-point value as y.
pub fn series_points(signal: &Vec<i64>) -> (pts: Vec<(usize, i64)>)
    ensures
        pts@.len() == signal@.len(),
        forall|i: int|
            0 <= i < pts@.len() ==> #[trigger] pts@[i] == (i as usize, signal@[i]),
{
    let n: usize = signal.len();
    let mut pts: Vec<(usize, i64)> = Vec::new();
    let mut idx: usize = 0;
    while idx < n
        invariant
            idx <= n,
            n == signal@.len(),
            pts@.len() == idx,
            forall|i: int|
                0 <= i < pts@.len() ==> #[trigger] pts@[i] == (i as usize, signal@[i]),
        decreases n - idx,
    {
        pts.push((idx, signal[idx]));
        idx = idx + 1;
    }
    pts
}

} // verus!
