//! The ring renderer: 128 radial bars around a centre disc.
//!
//! The hue of this renderer advances by half a degree per frame, so it is
//! counted in half degrees: 720 steps make a full turn. Radii and smoothed
//! magnitudes are fixed-point, see [`crate::units`].

use vstd::prelude::*;
use crate::units::{band_total, lemma_band_total_bounds, sum_band, UNIT};

verus! {

/// Number of angular sectors, and of bins that the renderer reads.
pub const BARS: usize = 128;

/// Number of hue steps (half degrees) in a full turn.
pub const HUE_STEPS: u32 = 720;

/// Number of bins at the low end whose mean is the bass measure.
pub const BASS_BINS: usize = 4;

/// Number of accent dots that a bass burst scatters.
pub const ACCENT_COUNT: usize = 20;

/// One step of the smoothing filter: the mean of the new sample and the value
/// carried over from the previous frame, both in fixed point.
pub open spec fn smooth(sample: int, previous: int) -> int {
    (sample * UNIT as int + previous) / 2
}

/// Inner radius of the ring: 30% of the surface height.
pub open spec fn inner_radius(height: int) -> int {
    height * UNIT as int * 3 / 10
}

/// Height of a bar: the smoothed magnitude as a fraction of 255, applied to
/// 15% of the surface height.
pub open spec fn bar_height(smoothed: int, height: int) -> int {
    smoothed * height * 15 / (255int * 100)
}

/// Hue of sector `i`: one degree further per sector.
pub open spec fn bar_hue(hue: int, i: int) -> int {
    (hue + 2 * i) % (HUE_STEPS as int)
}

/// Radius of the centre disc: the mean of the 128 magnitudes as a fraction of
/// 255, applied to 10% of the surface height, plus 5.
pub open spec fn orb_radius(total: int, height: int) -> int {
    total * height * UNIT as int / (128int * 255 * 10) + 5 * UNIT as int
}

/// Whether the bass measure, the mean of the lowest four bins, exceeds 200.
pub open spec fn bass_burst(bass_total: int) -> bool {
    bass_total > 200 * 4
}

/// Distance of the accent dots from the centre: the bass measure as a
/// fraction of 255, applied to 20% of the surface height.
pub open spec fn accent_distance(bass_total: int, height: int) -> int {
    bass_total * height * UNIT as int * 2 / (4int * 255 * 10)
}

/// Hue of accent dot `i`: three degrees further per dot.
pub open spec fn accent_hue(hue: int, i: int) -> int {
    (hue + 6 * i) % (HUE_STEPS as int)
}

/// The hue one frame later: half a degree further, wrapping at a full turn.
pub open spec fn next_hue(hue: int) -> int {
    (hue + 1) % (HUE_STEPS as int)
}

/// One radial bar: a wedge between two radii in its sector.
#[derive(Clone, Copy, Debug)]
pub struct RingBar {
    /// Radius at which the wedge starts, fixed-point pixels.
    pub inner: u64,
    /// Radius at which the wedge ends, fixed-point pixels.
    pub outer: u64,
    /// Fill hue in half degrees.
    pub hue: u32,
}

/// The filled disc at the centre.
#[derive(Clone, Copy, Debug)]
pub struct Orb {
    /// Radius in fixed-point pixels.
    pub radius: u64,
    /// Fill hue in half degrees.
    pub hue: u32,
}

/// One dot of a bass burst; dot `i` of the twenty stands at `i / 20` of a turn.
#[derive(Clone, Copy, Debug)]
pub struct AccentDot {
    /// Distance from the centre in fixed-point pixels.
    pub distance: u64,
    /// Fill hue in half degrees.
    pub hue: u32,
}

/// What one frame of the ring renderer paints, in painting order: a
/// translucent wash over the whole surface, the bars (bar `i` in sector `i` of
/// 128), the centre disc, and the accent dots.
#[derive(Debug)]
pub struct RingFrame {
    /// Width of the wash rectangle in pixels.
    pub width: u32,
    /// Height of the wash rectangle in pixels.
    pub height: u32,
    pub bars: Vec<RingBar>,
    pub orb: Orb,
    pub accents: Vec<AccentDot>,
}

/// The mathematical state of a ring renderer.
pub struct RingState {
    pub width: int,
    pub height: int,
    /// Smoothed magnitude of each bin, fixed-point.
    pub smoothed: Seq<int>,
    /// Hue in half degrees.
    pub hue: int,
}

impl RingState {
    /// The states that a renderer can be in.
    pub open spec fn wf(self) -> bool {
        &&& 0 <= self.width <= u32::MAX
        &&& 0 <= self.height <= u32::MAX
        &&& self.smoothed.len() == BARS
        &&& forall|i: int| 0 <= i < BARS ==> 0 <= #[trigger] self.smoothed[i] <= 255 * UNIT
        &&& 0 <= self.hue < HUE_STEPS
    }

    /// The state of a fresh renderer on a surface of the given size.
    pub open spec fn initial(width: int, height: int) -> RingState {
        RingState { width, height, smoothed: Seq::new(BARS as nat, |i: int| 0int), hue: 0 }
    }

    /// The state after drawing one snapshot.
    pub open spec fn after_draw(self, snapshot: Seq<u8>) -> RingState {
        RingState {
            width: self.width,
            height: self.height,
            smoothed: Seq::new(BARS as nat, |i: int| smooth(snapshot[i] as int, self.smoothed[i])),
            hue: next_hue(self.hue),
        }
    }

    /// The state after drawing the snapshots in order.
    pub open spec fn after_draws(self, snapshots: Seq<Seq<u8>>) -> RingState
        decreases snapshots.len(),
    {
        if snapshots.len() == 0 {
            self
        } else {
            self.after_draws(snapshots.drop_last()).after_draw(snapshots.last())
        }
    }

    /// Whether `bar` is bar `i` of the frame that drawing `snapshot` paints:
    /// a wedge from the inner radius, as high as the smoothed magnitude of
    /// bin `i` makes it.
    pub open spec fn paints_bar(self, snapshot: Seq<u8>, i: int, bar: RingBar) -> bool {
        &&& bar.inner == inner_radius(self.height)
        &&& bar.outer == inner_radius(self.height) + bar_height(
            smooth(snapshot[i] as int, self.smoothed[i]),
            self.height,
        )
        &&& bar.hue == bar_hue(self.hue, i)
    }

    /// Whether `frame` is what drawing `snapshot` in this state paints.
    pub open spec fn paints(self, snapshot: Seq<u8>, frame: RingFrame) -> bool {
        &&& frame.width == self.width
        &&& frame.height == self.height
        &&& frame.bars@.len() == BARS
        &&& forall|i: int| 0 <= i < BARS ==> self.paints_bar(snapshot, i, #[trigger] frame.bars@[i])
        &&& frame.orb.radius == orb_radius(band_total(snapshot, 0, BARS as int), self.height)
        &&& frame.orb.hue == self.hue
        &&& frame.accents@.len() == (if bass_burst(band_total(snapshot, 0, BASS_BINS as int)) {
            ACCENT_COUNT as int
        } else {
            0
        })
        &&& forall|i: int|
            0 <= i < frame.accents@.len() ==> {
                &&& (#[trigger] frame.accents@[i]).distance == accent_distance(
                    band_total(snapshot, 0, BASS_BINS as int),
                    self.height,
                )
                &&& frame.accents@[i].hue == accent_hue(self.hue, i)
            }
    }
}

/// The ring renderer's state between frames.
#[derive(Clone)]
pub struct Visualizer {
    width: u32,
    height: u32,
    previous_values: Vec<u64>,
    hue: u32,
}

impl View for Visualizer {
    type V = RingState;

    closed spec fn view(&self) -> RingState {
        RingState {
            width: self.width as int,
            height: self.height as int,
            smoothed: self.previous_values@.map_values(|v: u64| v as int),
            hue: self.hue as int,
        }
    }
}

impl Visualizer {
    spec fn inv(self) -> bool {
        &&& self.previous_values@.len() == BARS
        &&& forall|i: int| 0 <= i < BARS ==> #[trigger] self.previous_values@[i] <= 255 * UNIT
        &&& self.hue < HUE_STEPS
    }

    proof fn lemma_inv_is_wf(self)
        ensures
            self.inv() <==> self@.wf(),
    {
        if self.inv() {
            assert forall|i: int| 0 <= i < BARS implies 0 <= #[trigger] self@.smoothed[i] <= 255
                * UNIT by {
                assert(self@.smoothed[i] == self.previous_values@[i]);
            }
        }
        if self@.wf() {
            assert forall|i: int| 0 <= i < BARS implies #[trigger] self.previous_values@[i] <= 255
                * UNIT by {
                assert(self@.smoothed[i] == self.previous_values@[i]);
            }
        }
    }

    /// A renderer for a surface of the given pixel size, with all smoothed
    /// magnitudes and the hue at zero.
    pub fn new(width: u32, height: u32) -> (v: Visualizer)
        ensures
            v@ == RingState::initial(width as int, height as int),
            v@.wf(),
    {
        let mut previous_values: Vec<u64> = Vec::new();
        let mut i: usize = 0;
        while i < BARS
            invariant
                i <= BARS,
                previous_values@.len() == i,
                forall|k: int| 0 <= k < i ==> previous_values@[k] == 0,
            decreases BARS - i,
        {
            previous_values.push(0);
            i = i + 1;
        }
        let v = Visualizer { width, height, previous_values, hue: 0 };
        proof {
            v.lemma_inv_is_wf();
            assert(v@.smoothed =~= RingState::initial(width as int, height as int).smoothed);
        }
        v
    }

    /// Draws one frame from `audio_data`, of which the first 128 bins are
    /// read: smooths each bin into the carried value, and advances the hue.
    pub fn draw(&mut self, audio_data: &[u8]) -> (frame: RingFrame)
        requires
            old(self)@.wf(),
            audio_data@.len() >= BARS,
        ensures
            final(self)@ == old(self)@.after_draw(audio_data@),
            final(self)@.wf(),
            old(self)@.paints(audio_data@, frame),
    {
        proof {
            self.lemma_inv_is_wf();
        }
        let ghost before = self@;
        let bars = self.draw_circular_visualizer(audio_data);
        let orb = self.draw_center_orb(audio_data);
        let accents = self.draw_particles(audio_data);
        self.hue = (self.hue + 1) % HUE_STEPS;
        proof {
            self.lemma_inv_is_wf();
            assert(self@.smoothed =~= before.after_draw(audio_data@).smoothed);
        }
        RingFrame { width: self.width, height: self.height, bars, orb, accents }
    }

    /// Width of the surface in pixels.
    pub fn width(&self) -> (w: u32)
        ensures
            w == self@.width,
    {
        self.width
    }

    /// Height of the surface in pixels.
    pub fn height(&self) -> (h: u32)
        ensures
            h == self@.height,
    {
        self.height
    }

    /// The hue in half degrees.
    pub fn hue(&self) -> (h: u32)
        ensures
            h == self@.hue,
    {
        self.hue
    }

    /// The smoothed magnitude of a bin in fixed point, if the renderer reads
    /// that bin.
    pub fn smoothed(&self, bin: usize) -> (v: Option<u64>)
        requires
            self@.wf(),
        ensures
            bin < BARS ==> (v matches Some(m) && m == self@.smoothed[bin as int]),
            bin >= BARS ==> v is None,
    {
        proof {
            self.lemma_inv_is_wf();
        }
        if bin < BARS {
            Some(self.previous_values[bin])
        } else {
            None
        }
    }

    fn draw_circular_visualizer(&mut self, audio_data: &[u8]) -> (bars: Vec<RingBar>)
        requires
            old(self).inv(),
            audio_data@.len() >= BARS,
        ensures
            final(self).inv(),
            final(self).width == old(self).width,
            final(self).height == old(self).height,
            final(self).hue == old(self).hue,
            final(self).previous_values@.len() == BARS,
            forall|i: int| 0 <= i < BARS ==> #[trigger] final(self).previous_values@[i] == smooth(
                audio_data@[i] as int, old(self).previous_values@[i] as int),
            bars@.len() == BARS,
            forall|i: int| 0 <= i < BARS ==> old(self)@.paints_bar(audio_data@, i, #[trigger] bars@[i]),
    {
        let height: u32 = self.height;
        let hue: u32 = self.hue;
        let radius: u64 = height as u64 * UNIT * 3 / 10;
        let mut bars: Vec<RingBar> = Vec::new();
        let mut i: usize = 0;
        while i < BARS
            invariant
                i <= BARS,
                audio_data@.len() >= BARS,
                self.width == old(self).width,
                self.height == old(self).height,
                self.hue == old(self).hue,
                height == self.height,
                hue == self.hue,
                hue < HUE_STEPS,
                radius == inner_radius(height as int),
                self.previous_values@.len() == BARS,
                old(self).previous_values@.len() == BARS,
                forall|k: int| 0 <= k < i ==> #[trigger] self.previous_values@[k] == smooth(
                    audio_data@[k] as int, old(self).previous_values@[k] as int),
                forall|k: int| i <= k < BARS ==> #[trigger] self.previous_values@[k] == old(self).previous_values@[k],
                forall|k: int| 0 <= k < BARS ==> #[trigger] self.previous_values@[k] <= 255 * UNIT,
                bars@.len() == i,
                forall|k: int| 0 <= k < i ==> old(self)@.paints_bar(audio_data@, k, #[trigger] bars@[k]),
            decreases BARS - i,
        {
            let value: u64 = audio_data[i] as u64;
            let smoothed_value: u64 = (value * UNIT + self.previous_values[i]) / 2;
            self.previous_values[i] = smoothed_value;
            assert(smoothed_value * height <= 255 * 65536 * 0xffff_ffff) by (nonlinear_arith)
                requires
                    smoothed_value <= 255 * 65536,
                    height <= 0xffff_ffff,
            ;
            let bar_height: u64 = smoothed_value * height as u64 * 15 / 25500;
            let bar_hue: u32 = (hue + 2 * i as u32) % HUE_STEPS;
            bars.push(RingBar { inner: radius, outer: radius + bar_height, hue: bar_hue });
            i = i + 1;
        }
        bars
    }

    fn draw_center_orb(&self, audio_data: &[u8]) -> (orb: Orb)
        requires
            self.inv(),
            audio_data@.len() >= BARS,
        ensures
            orb.radius == orb_radius(band_total(audio_data@, 0, BARS as int), self@.height),
            orb.hue == self@.hue,
    {
        let total: u64 = sum_band(audio_data, 0, BARS);
        proof {
            lemma_band_total_bounds(audio_data@, 0, BARS as int);
        }
        assert(total * self.height <= 32640 * 0xffff_ffff) by (nonlinear_arith)
            requires
                total <= 32640,
                self.height <= 0xffff_ffff,
        ;
        let radius: u64 = total * self.height as u64 * UNIT / 326400 + 5 * UNIT;
        Orb { radius, hue: self.hue }
    }

    fn draw_particles(&self, audio_data: &[u8]) -> (accents: Vec<AccentDot>)
        requires
            self.inv(),
        ensures
            accents@.len() == (if bass_burst(band_total(audio_data@, 0, BASS_BINS as int)) {
                ACCENT_COUNT as int
            } else {
                0
            }),
            forall|i: int| 0 <= i < accents@.len() ==> {
                &&& (#[trigger] accents@[i]).distance == accent_distance(
                    band_total(audio_data@, 0, BASS_BINS as int), self@.height)
                &&& accents@[i].hue == accent_hue(self@.hue, i)
            },
    {
        let bass_total: u64 = sum_band(audio_data, 0, BASS_BINS);
        proof {
            lemma_band_total_bounds(audio_data@, 0, BASS_BINS as int);
        }
        let mut accents: Vec<AccentDot> = Vec::new();
        if bass_total > 800 {
            assert(bass_total * self.height <= 1020 * 0xffff_ffff) by (nonlinear_arith)
                requires
                    bass_total <= 1020,
                    self.height <= 0xffff_ffff,
            ;
            let distance: u64 = bass_total * self.height as u64 * UNIT * 2 / 10200;
            let mut i: usize = 0;
            while i < ACCENT_COUNT
                invariant
                    i <= ACCENT_COUNT,
                    self.hue < HUE_STEPS,
                    accents@.len() == i,
                    forall|k: int| 0 <= k < i ==> {
                        &&& (#[trigger] accents@[k]).distance == distance
                        &&& accents@[k].hue == accent_hue(self.hue as int, k)
                    },
                decreases ACCENT_COUNT - i,
            {
                let hue: u32 = (self.hue + 6 * i as u32) % HUE_STEPS;
                accents.push(AccentDot { distance, hue });
                i = i + 1;
            }
        }
        accents
    }
}

/// Smoothing keeps a magnitude within the range of a sample.
pub proof fn lemma_smooth_bounds(sample: int, previous: int)
    requires
        0 <= sample <= 255,
        0 <= previous <= 255 * UNIT,
    ensures
        0 <= smooth(sample, previous) <= 255 * UNIT,
{
}

/// A draw leaves a renderer in a state that it can be in.
pub proof fn lemma_after_draw_wf(state: RingState, snapshot: Seq<u8>)
    requires
        state.wf(),
    ensures
        state.after_draw(snapshot).wf(),
{
    let after = state.after_draw(snapshot);
    assert forall|i: int| 0 <= i < BARS implies 0 <= #[trigger] after.smoothed[i] <= 255 * UNIT by {
        lemma_smooth_bounds(snapshot[i] as int, state.smoothed[i]);
    }
}

/// So does any sequence of draws.
pub proof fn lemma_after_draws_wf(state: RingState, snapshots: Seq<Seq<u8>>)
    requires
        state.wf(),
    ensures
        state.after_draws(snapshots).wf(),
    decreases snapshots.len(),
{
    if snapshots.len() > 0 {
        lemma_after_draws_wf(state, snapshots.drop_last());
        lemma_after_draw_wf(state.after_draws(snapshots.drop_last()), snapshots.last());
    }
}

/// The smoothing recurrence: two draws in a row, of `first` and then of
/// `second`, leave in every bin the mean of the second sample and of the mean
/// of the first sample and the value carried before.
pub proof fn lemma_smoothing_recurrence(state: RingState, first: Seq<u8>, second: Seq<u8>, i: int)
    requires
        0 <= i < BARS,
    ensures
        state.after_draw(first).after_draw(second).smoothed[i] == (second[i] as int * UNIT as int + (
        first[i] as int * UNIT as int + state.smoothed[i]) / 2) / 2,
{
}

/// The hue advances by one half degree per draw and wraps at the full turn,
/// whatever is drawn and however often.
pub proof fn lemma_hue_after_draws(state: RingState, snapshots: Seq<Seq<u8>>)
    requires
        state.wf(),
    ensures
        state.after_draws(snapshots).hue == (state.hue + snapshots.len()) % (HUE_STEPS as int),
    decreases snapshots.len(),
{
    if snapshots.len() > 0 {
        lemma_hue_after_draws(state, snapshots.drop_last());
    }
}

/// A band of silent bins sums to zero.
pub proof fn lemma_silent_band(snapshot: Seq<u8>, lo: int, hi: int)
    requires
        forall|i: int| lo <= i < hi && 0 <= i < snapshot.len() ==> snapshot[i] == 0,
    ensures
        band_total(snapshot, lo, hi) == 0,
    decreases hi - lo,
{
    if lo < hi {
        lemma_silent_band(snapshot, lo, hi - 1);
    }
}

/// A silent snapshot paints the centre disc at its least radius, 5, and no
/// accent dot.
pub proof fn lemma_silence_paints_least_orb(state: RingState, snapshot: Seq<u8>, frame: RingFrame)
    requires
        snapshot.len() >= BARS,
        forall|i: int| 0 <= i < BARS ==> snapshot[i] == 0,
        state.paints(snapshot, frame),
    ensures
        frame.orb.radius == 5 * UNIT,
        frame.accents@.len() == 0,
{
    lemma_silent_band(snapshot, 0, BARS as int);
    lemma_silent_band(snapshot, 0, BASS_BINS as int);
}

} // verus!
