//! A colour gradient: evenly spaced colour stops over a range of values,
//! with linear interpolation between neighbouring stops.

use vstd::prelude::*;

verus! {

#[derive(Debug, Clone, Copy, PartialEq, Eq, Structural)]
pub struct Colour {
    pub r: u8,
    pub g: u8,
    pub b: u8,
}

pub open spec fn black() -> Colour {
    Colour { r: 0, g: 0, b: 0 }
}

/// One channel, `part` of `whole` of the way from `from` to `to`, rounded
/// down.
pub open spec fn mix(from: int, to: int, part: int, whole: int) -> int {
    (from * (whole - part) + to * part) / whole
}

/// The colour `part` of `whole` of the way from `from` to `to`.
pub open spec fn blend(from: Colour, to: Colour, part: int, whole: int) -> Colour {
    Colour {
        r: mix(from.r as int, to.r as int, part, whole) as u8,
        g: mix(from.g as int, to.g as int, part, whole) as u8,
        b: mix(from.b as int, to.b as int, part, whole) as u8,
    }
}

/// The colour of `value` on a gradient of `stops` spread evenly from `min`
/// to `max`. Values at or below `min` take the first stop, values at or
/// above `max` the last; a gradient without stops is black.
pub open spec fn colour_at(stops: Seq<Colour>, min: int, max: int, value: int) -> Colour {
    if stops.len() == 0 {
        black()
    } else if value <= min || stops.len() == 1 {
        stops[0]
    } else if value >= max {
        stops[stops.len() - 1]
    } else {
        let scaled = (value - min) * (stops.len() - 1);
        let below = scaled / (max - min);
        blend(stops[below], stops[below + 1], scaled % (max - min), max - min)
    }
}

/// A gradient as contracts see it.
pub struct GradientView {
    pub min: int,
    pub max: int,
    pub stops: Seq<Colour>,
}

impl GradientView {
    pub open spec fn colour(self, value: int) -> Colour {
        colour_at(self.stops, self.min, self.max, value)
    }
}

pub struct ColourGradient {
    min: i32,
    max: i32,
    colours: Vec<Colour>,
}

impl View for ColourGradient {
    type V = GradientView;

    closed spec fn view(&self) -> GradientView {
        GradientView { min: self.min as int, max: self.max as int, stops: self.colours@ }
    }
}

/// The stops of the default gradient, from silence to the strongest signal.
pub open spec fn default_stops() -> Seq<Colour> {
    seq![
        Colour { r: 0, g: 0, b: 0 },
        Colour { r: 0, g: 0, b: 255 },
        Colour { r: 0, g: 255, b: 255 },
        Colour { r: 255, g: 255, b: 0 },
        Colour { r: 255, g: 0, b: 0 },
        Colour { r: 255, g: 255, b: 255 },
    ]
}

fn mix_channel(from: u8, to: u8, part: u128, whole: u128) -> (channel: u8)
    requires
        0 < whole <= u32::MAX,
        part <= whole,
    ensures
        channel == mix(from as int, to as int, part as int, whole as int),
{
    let rest: u128 = whole - part;
    assert(from * rest <= 255 * rest && to * part <= 255 * part) by (nonlinear_arith)
        requires
            from <= 255,
            to <= 255,
            0 <= rest,
            0 <= part,
    ;
    let weighted: u128 = from as u128 * rest + to as u128 * part;
    let mixed = weighted / whole;
    assert(mixed <= 255) by (nonlinear_arith)
        requires
            mixed == weighted / whole,
            weighted <= 255 * whole,
            whole > 0,
    ;
    mixed as u8
}

impl ColourGradient {
    /// The default gradient over the values from 0 to 100.
    pub fn new() -> (gradient: ColourGradient)
        ensures
            gradient@ == (GradientView { min: 0, max: 100, stops: default_stops() }),
    {
        let mut colours: Vec<Colour> = Vec::new();
        colours.push(Colour { r: 0, g: 0, b: 0 });
        colours.push(Colour { r: 0, g: 0, b: 255 });
        colours.push(Colour { r: 0, g: 255, b: 255 });
        colours.push(Colour { r: 255, g: 255, b: 0 });
        colours.push(Colour { r: 255, g: 0, b: 0 });
        colours.push(Colour { r: 255, g: 255, b: 255 });
        assert(colours@ =~= default_stops());
        ColourGradient { min: 0, max: 100, colours }
    }

    /// A gradient over the values from 0 to 100 with stops of the caller's.
    pub fn with_colours(colours: Vec<Colour>) -> (gradient: ColourGradient)
        ensures
            gradient@ == (GradientView { min: 0, max: 100, stops: colours@ }),
    {
        ColourGradient { min: 0, max: 100, colours }
    }

    pub fn set_min(&mut self, min: i32)
        ensures
            final(self)@ == (GradientView { min: min as int, ..old(self)@ }),
    {
        self.min = min;
    }

    pub fn set_max(&mut self, max: i32)
        ensures
            final(self)@ == (GradientView { max: max as int, ..old(self)@ }),
    {
        self.max = max;
    }

    pub fn get_colour(&self, value: i32) -> (colour: Colour)
        ensures
            colour == self@.colour(value as int),
    {
        let stops = self.colours.len();
        if stops == 0 {
            return Colour { r: 0, g: 0, b: 0 };
        }
        if value <= self.min || stops == 1 {
            return self.colours[0];
        }
        if value >= self.max {
            return self.colours[stops - 1];
        }
        let whole: u128 = (self.max as i64 - self.min as i64) as u128;
        let offset: u128 = (value as i64 - self.min as i64) as u128;
        let steps: u128 = (stops - 1) as u128;
        assert(offset * steps <= u32::MAX * steps) by (nonlinear_arith)
            requires
                offset <= u32::MAX,
        ;
        let scaled: u128 = offset * steps;
        let below: u128 = scaled / whole;
        let part: u128 = scaled % whole;
        assert(below < steps) by (nonlinear_arith)
            requires
                below == scaled / whole,
                scaled == offset * steps,
                offset < whole,
                steps > 0,
        ;
        let lower = below as usize;
        Colour {
            r: mix_channel(self.colours[lower].r, self.colours[lower + 1].r, part, whole),
            g: mix_channel(self.colours[lower].g, self.colours[lower + 1].g, part, whole),
            b: mix_channel(self.colours[lower].b, self.colours[lower + 1].b, part, whole),
        }
    }
}

/// A mixed channel lies between the two it is mixed from, and is the first
/// of them where nothing of the way is gone.
pub proof fn lemma_mix_between(from: int, to: int, part: int, whole: int)
    requires
        0 < whole,
        0 <= part <= whole,
    ensures
        from <= to ==> from <= mix(from, to, part, whole) <= to,
        to <= from ==> to <= mix(from, to, part, whole) <= from,
        part == 0 ==> mix(from, to, part, whole) == from,
        part == whole ==> mix(from, to, part, whole) == to,
{
    let weighted = from * (whole - part) + to * part;
    if from <= to {
        assert(from * whole <= weighted <= to * whole) by (nonlinear_arith)
            requires
                weighted == from * (whole - part) + to * part,
                from <= to,
                0 <= part <= whole,
        ;
    }
    if to <= from {
        assert(to * whole <= weighted <= from * whole) by (nonlinear_arith)
            requires
                weighted == from * (whole - part) + to * part,
                to <= from,
                0 <= part <= whole,
        ;
    }
    lemma_scaled_quotient(from, weighted, to, whole);
    lemma_scaled_quotient(to, weighted, from, whole);
    if part == 0 {
        assert(weighted == from * whole) by (nonlinear_arith)
            requires
                weighted == from * (whole - part) + to * part,
                part == 0,
        ;
        lemma_scaled_quotient(from, weighted, from, whole);
    }
    if part == whole {
        assert(weighted == to * whole) by (nonlinear_arith)
            requires
                weighted == from * (whole - part) + to * part,
                part == whole,
        ;
        lemma_scaled_quotient(to, weighted, to, whole);
    }
}

/// A quotient lies between two numbers whose multiples enclose the dividend.
proof fn lemma_scaled_quotient(low: int, value: int, high: int, whole: int)
    requires
        0 < whole,
    ensures
        low * whole <= value ==> low <= value / whole,
        value <= high * whole ==> value / whole <= high,
{
    if low * whole <= value {
        assert(low <= value / whole) by (nonlinear_arith)
            requires
                low * whole <= value,
                0 < whole,
        ;
    }
    if value <= high * whole {
        assert(value / whole <= high) by (nonlinear_arith)
            requires
                value <= high * whole,
                0 < whole,
        ;
    }
}

/// The ends of a gradient with at least one stop take the first and the
/// last stop.
pub proof fn lemma_gradient_ends(gradient: GradientView)
    requires
        gradient.stops.len() > 0,
        gradient.min < gradient.max,
    ensures
        gradient.colour(gradient.min) == gradient.stops[0],
        gradient.colour(gradient.max) == gradient.stops[gradient.stops.len() - 1],
{
}

/// A value that falls on a stop takes the colour of that stop.
pub proof fn lemma_gradient_hits_stops(gradient: GradientView, value: int)
    requires
        gradient.stops.len() >= 2,
        gradient.min < value < gradient.max,
        ((value - gradient.min) * (gradient.stops.len() - 1)) % (gradient.max - gradient.min) == 0,
    ensures
        gradient.colour(value) == gradient.stops[((value - gradient.min) * (gradient.stops.len() - 1)) / (
        gradient.max - gradient.min)],
{
    let whole = gradient.max - gradient.min;
    let scaled = (value - gradient.min) * (gradient.stops.len() - 1);
    let below = scaled / whole;
    let from = gradient.stops[below];
    let to = gradient.stops[below + 1];
    lemma_mix_between(from.r as int, to.r as int, 0, whole);
    lemma_mix_between(from.g as int, to.g as int, 0, whole);
    lemma_mix_between(from.b as int, to.b as int, 0, whole);
}

} // verus!
