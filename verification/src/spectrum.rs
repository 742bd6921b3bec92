//! The waterfall: frames of the power spectrum are gathered ten at a time
//! and reduced to one coloured row, each bin at the strongest level that the
//! ten frames hold for it.
//!
//! Power is counted in whole decibels, frequencies in whole hertz.

use vstd::prelude::*;
use crate::color::{ColourGradient, GradientView};

verus! {

/// Bins of one frame, and pixels of one row.
pub const BINS: usize = 2048;

/// Frames that make one row.
pub const FRAMES_PER_ROW: usize = 10;

/// What is added to a power level to bring the noise floor near zero.
pub const CALIBRATION: i64 = 180;

/// The strongest level that `frames` hold for `bin`; frames are never empty
/// where this is asked.
pub open spec fn column_max(frames: Seq<Seq<i32>>, bin: int) -> int
    decreases frames.len(),
{
    if frames.len() <= 1 {
        frames[0][bin] as int
    } else {
        let rest = column_max(frames.drop_last(), bin);
        if frames.last()[bin] > rest {
            frames.last()[bin] as int
        } else {
            rest
        }
    }
}

/// A power level on the scale of the gradient: calibrated, and held within
/// 0 and 255.
pub open spec fn level_of(power: int) -> int {
    if power + CALIBRATION < 0 {
        0
    } else if power + CALIBRATION > 255 {
        255
    } else {
        power + CALIBRATION
    }
}

/// The level of each bin of the row that `frames` make.
pub open spec fn row_levels(frames: Seq<Seq<i32>>) -> Seq<u8> {
    Seq::new(BINS as nat, |bin: int| level_of(column_max(frames, bin)) as u8)
}

/// The pixels of a row of `levels` under `gradient`: red, green, blue and
/// full opacity for each bin.
pub open spec fn row_pixels(gradient: GradientView, levels: Seq<u8>) -> Seq<u8> {
    Seq::new(
        4 * levels.len(),
        |at: int|
            {
                let colour = gradient.colour(levels[at / 4] as int);
                if at % 4 == 0 {
                    colour.r
                } else if at % 4 == 1 {
                    colour.g
                } else if at % 4 == 2 {
                    colour.b
                } else {
                    255u8
                }
            },
    )
}

/// One line of the waterfall.
#[derive(Debug, PartialEq, Eq)]
pub struct WaterfallRow {
    /// The level of each bin, 0 to 255.
    pub levels: Vec<u8>,
    /// Four bytes per bin: red, green, blue, opacity.
    pub pixels: Vec<u8>,
    /// The span of frequencies, where it is not that of the row before.
    pub span: Option<(i64, i64)>,
}

/// What became of a frame.
#[derive(Debug, PartialEq, Eq)]
pub enum SpectrumOutcome {
    /// No receiver is subscribed to: the frame is dropped.
    NotSubscribed,
    /// The frame is of a receiver that is not subscribed to: it is dropped.
    OtherReceiver,
    /// The frame does not hold one level per bin: it is dropped.
    Malformed,
    /// The frame waits for the row to fill.
    Buffered,
    /// The frame completed a row.
    Row(WaterfallRow),
}

/// The waterfall as contracts see it.
pub struct SpectrumView {
    pub subscribed: Option<u32>,
    pub freq_start: i64,
    pub freq_stop: i64,
    /// The frames gathered for the next row, fewer than ten.
    pub buffer: Seq<Seq<i32>>,
    pub gradient: GradientView,
}

impl SpectrumView {
    /// The waterfall before anything happened: the default gradient over
    /// the levels 0 to 255, no subscription, nothing gathered.
    pub open spec fn fresh() -> SpectrumView {
        SpectrumView {
            subscribed: None,
            freq_start: 0,
            freq_stop: 0,
            buffer: Seq::empty(),
            gradient: GradientView { min: 0, max: 255, stops: crate::color::default_stops() },
        }
    }

    /// The frame is taken in rather than dropped: it is of the receiver
    /// subscribed to and holds a level for every bin.
    pub open spec fn accepts(self, receiver: u32, bins: Seq<i32>) -> bool {
        self.subscribed == Some(receiver) && bins.len() == BINS
    }

    /// The frame completes a row.
    pub open spec fn completes(self, receiver: u32, bins: Seq<i32>) -> bool {
        self.accepts(receiver, bins) && self.buffer.len() + 1 >= FRAMES_PER_ROW
    }

    /// The state after a frame of `receiver` arrived that covers `start` to
    /// `stop`.
    pub open spec fn import_spectrum_data(
        self,
        receiver: u32,
        bins: Seq<i32>,
        start: i64,
        stop: i64,
    ) -> SpectrumView {
        if self.completes(receiver, bins) {
            SpectrumView { buffer: Seq::empty(), freq_start: start, freq_stop: stop, ..self }
        } else if self.accepts(receiver, bins) {
            SpectrumView { buffer: self.buffer.push(bins), ..self }
        } else {
            self
        }
    }

    /// The span that a row over `start` to `stop` reports: the span, unless
    /// it is the one reported last.
    pub open spec fn span_change(self, start: i64, stop: i64) -> Option<(i64, i64)> {
        if self.freq_start != start || self.freq_stop != stop {
            Some((start, stop))
        } else {
            None
        }
    }

    /// `outcome` is what the arrival of the frame yields.
    pub open spec fn yields(
        self,
        receiver: u32,
        bins: Seq<i32>,
        start: i64,
        stop: i64,
        outcome: SpectrumOutcome,
    ) -> bool {
        match outcome {
            SpectrumOutcome::NotSubscribed => self.subscribed is None,
            SpectrumOutcome::OtherReceiver => self.subscribed is Some && self.subscribed != Some(receiver),
            SpectrumOutcome::Malformed => self.subscribed == Some(receiver) && bins.len() != BINS,
            SpectrumOutcome::Buffered => self.accepts(receiver, bins) && !self.completes(receiver, bins),
            SpectrumOutcome::Row(row) => {
                &&& self.completes(receiver, bins)
                &&& row.levels@ == row_levels(self.buffer.push(bins))
                &&& row.pixels@ == row_pixels(self.gradient, row.levels@)
                &&& row.span == self.span_change(start, stop)
            },
        }
    }

    /// Rows that a run of frames of one receiver yields, each frame covering
    /// the same span.
    pub open spec fn rows_of(self, receiver: u32, frames: Seq<Seq<i32>>, start: i64, stop: i64) -> nat
        decreases frames.len(),
    {
        if frames.len() == 0 {
            0
        } else {
            let before = self.run(receiver, frames.drop_last(), start, stop);
            let rows = self.rows_of(receiver, frames.drop_last(), start, stop);
            if before.completes(receiver, frames.last()) {
                rows + 1
            } else {
                rows
            }
        }
    }

    /// The state after a run of frames of one receiver, each covering the
    /// same span.
    pub open spec fn run(self, receiver: u32, frames: Seq<Seq<i32>>, start: i64, stop: i64) -> SpectrumView
        decreases frames.len(),
    {
        if frames.len() == 0 {
            self
        } else {
            self.run(receiver, frames.drop_last(), start, stop).import_spectrum_data(
                receiver,
                frames.last(),
                start,
                stop,
            )
        }
    }
}

/// A buffer between rows: fewer than ten frames, each with a level for
/// every bin.
pub open spec fn gathering(buffer: Seq<Seq<i32>>) -> bool {
    &&& buffer.len() < FRAMES_PER_ROW
    &&& forall|k: int| 0 <= k < buffer.len() ==> (#[trigger] buffer[k]).len() == BINS
}

/// The frames gathered for the next row. Of the frames only the strongest
/// level of each bin is kept, which is all that the row takes from them.
struct Gathered {
    count: usize,
    peaks: Vec<i32>,
    frames: Ghost<Seq<Seq<i32>>>,
}

impl Gathered {
    #[verifier::type_invariant]
    spec fn reduced(self) -> bool {
        &&& self.frames@.len() == self.count
        &&& gathering(self.frames@)
        &&& self.count > 0 ==> self.peaks@.len() == 2048 && forall|bin: int|
            0 <= bin < 2048 ==> #[trigger] self.peaks@[bin] == column_max(self.frames@, bin)
    }

    fn empty() -> (gathered: Gathered)
        ensures
            gathered.frames@ == Seq::<Seq<i32>>::empty(),
    {
        Gathered { count: 0, peaks: Vec::new(), frames: Ghost(Seq::empty()) }
    }

    fn count(&self) -> (count: usize)
        ensures
            count == self.frames@.len(),
            gathering(self.frames@),
    {
        proof {
            use_type_invariant(self);
        }
        self.count
    }

    /// The strongest level of each bin over the frames gathered and one
    /// more frame.
    fn peaks_with(&self, bins: &Vec<i32>) -> (peaks: Vec<i32>)
        requires
            bins@.len() == 2048,
        ensures
            peaks@.len() == 2048,
            forall|bin: int|
                0 <= bin < 2048 ==> #[trigger] peaks@[bin] == column_max(self.frames@.push(bins@), bin),
    {
        proof {
            use_type_invariant(self);
        }
        let ghost frames = self.frames@.push(bins@);
        assert(frames.drop_last() =~= self.frames@);
        let mut peaks: Vec<i32> = Vec::new();
        let mut bin: usize = 0;
        while bin < BINS
            invariant
                bin <= 2048,
                bins@.len() == 2048,
                frames == self.frames@.push(bins@),
                frames.drop_last() == self.frames@,
                self.frames@.len() == self.count,
                self.count > 0 ==> self.peaks@.len() == 2048 && forall|at: int|
                    0 <= at < 2048 ==> #[trigger] self.peaks@[at] == column_max(self.frames@, at),
                peaks@.len() == bin,
                forall|at: int| 0 <= at < bin ==> #[trigger] peaks@[at] == column_max(frames, at),
            decreases 2048 - bin,
        {
            let here = bins[bin];
            let level = if self.count > 0 && self.peaks[bin] >= here {
                self.peaks[bin]
            } else {
                here
            };
            peaks.push(level);
            bin += 1;
        }
        peaks
    }
}

/// The waterfall of the subscribed receiver.
pub struct SpectrumProvider {
    subscribed_spectrum: Option<u32>,
    freq_start: i64,
    freq_stop: i64,
    spectrum_buffer: Gathered,
    gradient: ColourGradient,
}

impl View for SpectrumProvider {
    type V = SpectrumView;

    closed spec fn view(&self) -> SpectrumView {
        SpectrumView {
            subscribed: self.subscribed_spectrum,
            freq_start: self.freq_start,
            freq_stop: self.freq_stop,
            buffer: self.spectrum_buffer.frames@,
            gradient: self.gradient@,
        }
    }
}

/// A power level brought onto the scale of the gradient.
fn level_for(power: i32) -> (level: u8)
    ensures
        level == level_of(power as int),
{
    let calibrated: i64 = power as i64 + CALIBRATION;
    if calibrated < 0 {
        0
    } else if calibrated > 255 {
        255
    } else {
        calibrated as u8
    }
}

impl SpectrumProvider {
    /// A waterfall with the default gradient over the levels 0 to 255,
    /// subscribed to nothing.
    pub fn new() -> (spectrum: SpectrumProvider)
        ensures
            spectrum@ == SpectrumView::fresh(),
    {
        let mut gradient = ColourGradient::new();
        gradient.set_min(0);
        gradient.set_max(255);
        SpectrumProvider {
            subscribed_spectrum: None,
            freq_start: 0,
            freq_stop: 0,
            spectrum_buffer: Gathered::empty(),
            gradient,
        }
    }

    /// The start of the span reported last.
    pub fn freq_start(&self) -> (start: i64)
        ensures
            start == self@.freq_start,
    {
        self.freq_start
    }

    /// The end of the span reported last.
    pub fn freq_stop(&self) -> (stop: i64)
        ensures
            stop == self@.freq_stop,
    {
        self.freq_stop
    }

    /// The receiver whose spectrum is subscribed to.
    pub fn receiving_spectrum(&self) -> (receiver: Option<u32>)
        ensures
            receiver == self@.subscribed,
    {
        self.subscribed_spectrum
    }

    /// The number of frames gathered for the next row: fewer than ten.
    pub fn gathered(&self) -> (count: usize)
        ensures
            count == self@.buffer.len(),
            gathering(self@.buffer),
    {
        self.spectrum_buffer.count()
    }

    pub fn set_subscribed(&mut self, receiver: Option<u32>)
        ensures
            final(self)@ == (SpectrumView { subscribed: receiver, ..old(self)@ }),
    {
        self.subscribed_spectrum = receiver;
    }

    /// Takes in one frame of `receiver` that covers `start` to `stop`. Every
    /// tenth frame taken in yields a row and empties the buffer.
    pub fn import_spectrum_data(&mut self, receiver: u32, bins: Vec<i32>, start: i64, stop: i64) -> (outcome:
        SpectrumOutcome)
        ensures
            final(self)@ == old(self)@.import_spectrum_data(receiver, bins@, start, stop),
            old(self)@.yields(receiver, bins@, start, stop, outcome),
            gathering(final(self)@.buffer),
    {
        let gathered = self.spectrum_buffer.count();
        match self.subscribed_spectrum {
            None => {
                return SpectrumOutcome::NotSubscribed;
            },
            Some(subscribed) => {
                if subscribed != receiver {
                    return SpectrumOutcome::OtherReceiver;
                }
            },
        }
        if bins.len() != BINS {
            return SpectrumOutcome::Malformed;
        }
        let ghost frames = self@.buffer.push(bins@);
        let peaks = self.spectrum_buffer.peaks_with(&bins);
        if gathered + 1 < FRAMES_PER_ROW {
            self.spectrum_buffer = Gathered { count: gathered + 1, peaks, frames: Ghost(frames) };
            return SpectrumOutcome::Buffered;
        }
        let mut levels: Vec<u8> = Vec::new();
        let mut pixels: Vec<u8> = Vec::new();
        let mut bin: usize = 0;
        while bin < BINS
            invariant
                bin <= 2048,
                peaks@.len() == 2048,
                forall|at: int| 0 <= at < 2048 ==> #[trigger] peaks@[at] == column_max(frames, at),
                levels@.len() == bin,
                pixels@.len() == 4 * bin,
                forall|i: int| 0 <= i < bin ==> levels@[i] == #[trigger] row_levels(frames)[i],
                forall|at: int|
                    0 <= at < 4 * bin ==> pixels@[at] == #[trigger] row_pixels(self.gradient@, levels@)[at],
            decreases 2048 - bin,
        {
            let level = level_for(peaks[bin]);
            let colour = self.gradient.get_colour(level as i32);
            let ghost earlier = levels@;
            levels.push(level);
            pixels.push(colour.r);
            pixels.push(colour.g);
            pixels.push(colour.b);
            pixels.push(255);
            assert forall|at: int| 0 <= at < 4 * (bin + 1) implies pixels@[at] == #[trigger] row_pixels(
                self.gradient@,
                levels@,
            )[at] by {
                if at < 4 * bin {
                    assert(pixels@[at] == row_pixels(self.gradient@, earlier)[at]);
                }
            }
            bin += 1;
        }
        assert(levels@ =~= row_levels(frames));
        assert(pixels@ =~= row_pixels(self.gradient@, levels@));
        let span = if self.freq_start != start || self.freq_stop != stop {
            Some((start, stop))
        } else {
            None
        };
        self.freq_start = start;
        self.freq_stop = stop;
        self.spectrum_buffer = Gathered::empty();
        SpectrumOutcome::Row(WaterfallRow { levels, pixels, span })
    }
}

/// The level that a row takes for a bin is the strongest that its frames
/// hold for it: no frame is stronger there, and one frame is as strong.
pub proof fn lemma_column_max_is_strongest(frames: Seq<Seq<i32>>, bin: int)
    requires
        frames.len() > 0,
    ensures
        forall|k: int| 0 <= k < frames.len() ==> (#[trigger] frames[k])[bin] <= column_max(frames, bin),
        exists|k: int| 0 <= k < frames.len() && (#[trigger] frames[k])[bin] == column_max(frames, bin),
    decreases frames.len(),
{
    if frames.len() > 1 {
        let rest = frames.drop_last();
        lemma_column_max_is_strongest(rest, bin);
        let k = choose|k: int| 0 <= k < rest.len() && (#[trigger] rest[k])[bin] == column_max(rest, bin);
        assert forall|j: int| 0 <= j < frames.len() implies (#[trigger] frames[j])[bin] <= column_max(
            frames,
            bin,
        ) by {
            if j < rest.len() {
                assert(frames[j] == rest[j]);
            }
        }
        if frames.last()[bin] > column_max(rest, bin) {
            assert(frames[frames.len() - 1][bin] == column_max(frames, bin));
        } else {
            assert(frames[k] == rest[k]);
        }
    } else {
        assert(frames[0][bin] == column_max(frames, bin));
    }
}

/// Every level of a row lies between 0 and 255 and is the calibrated
/// strongest level of its bin wherever that lies between them.
pub proof fn lemma_row_levels_clamped(frames: Seq<Seq<i32>>, bin: int)
    requires
        0 <= bin < BINS,
    ensures
        row_levels(frames).len() == BINS,
        row_levels(frames)[bin] == level_of(column_max(frames, bin)),
        0 <= column_max(frames, bin) + CALIBRATION <= 255 ==> row_levels(frames)[bin] == column_max(
            frames,
            bin,
        ) + CALIBRATION,
        column_max(frames, bin) + CALIBRATION < 0 ==> row_levels(frames)[bin] == 0,
        column_max(frames, bin) + CALIBRATION > 255 ==> row_levels(frames)[bin] == 255,
{
}

/// A waterfall yields one row for every ten well-formed frames of the
/// receiver it is subscribed to: after a run of them the rows number a tenth
/// of the frames gathered and taken in, and the rest waits in the buffer.
pub proof fn lemma_one_row_per_ten_frames(
    spectrum: SpectrumView,
    receiver: u32,
    frames: Seq<Seq<i32>>,
    start: i64,
    stop: i64,
)
    requires
        gathering(spectrum.buffer),
        spectrum.subscribed == Some(receiver),
        forall|k: int| 0 <= k < frames.len() ==> (#[trigger] frames[k]).len() == BINS,
    ensures
        spectrum.rows_of(receiver, frames, start, stop) == (spectrum.buffer.len() + frames.len())
            / FRAMES_PER_ROW as nat,
        spectrum.run(receiver, frames, start, stop).buffer.len() == (spectrum.buffer.len() + frames.len())
            % FRAMES_PER_ROW as nat,
        spectrum.run(receiver, frames, start, stop).subscribed == spectrum.subscribed,
        gathering(spectrum.run(receiver, frames, start, stop).buffer),
    decreases frames.len(),
{
    if frames.len() > 0 {
        let rest = frames.drop_last();
        assert forall|k: int| 0 <= k < rest.len() implies (#[trigger] rest[k]).len() == BINS by {
            assert(rest[k] == frames[k]);
        }
        lemma_one_row_per_ten_frames(spectrum, receiver, rest, start, stop);
    }
}

/// A frame that is not taken in changes nothing.
pub proof fn lemma_dropped_frame_changes_nothing(
    spectrum: SpectrumView,
    receiver: u32,
    bins: Seq<i32>,
    start: i64,
    stop: i64,
)
    requires
        !spectrum.accepts(receiver, bins),
    ensures
        spectrum.import_spectrum_data(receiver, bins, start, stop) == spectrum,
{
}

} // verus!
