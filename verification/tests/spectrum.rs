use sparksdr_core::color::{Colour, ColourGradient};
use sparksdr_core::spectrum::{SpectrumOutcome, SpectrumProvider, BINS, CALIBRATION, FRAMES_PER_ROW};

fn subscribed() -> SpectrumProvider {
    let mut spectrum = SpectrumProvider::new();
    spectrum.set_subscribed(Some(1));
    spectrum
}

fn flat(level: i32) -> Vec<i32> {
    vec![level; BINS]
}

#[test]
fn constants_of_the_waterfall() {
    assert_eq!(BINS, 2048);
    assert_eq!(FRAMES_PER_ROW, 10);
    assert_eq!(CALIBRATION, 180);
}

#[test]
fn frames_are_dropped_without_subscription() {
    let mut spectrum = SpectrumProvider::new();
    assert_eq!(spectrum.receiving_spectrum(), None);
    for _ in 0..25 {
        assert_eq!(spectrum.import_spectrum_data(1, flat(-100), 0, 10), SpectrumOutcome::NotSubscribed);
    }
}

#[test]
fn frames_of_other_receivers_are_dropped_and_not_counted() {
    let mut spectrum = subscribed();
    for _ in 0..9 {
        assert_eq!(spectrum.import_spectrum_data(1, flat(-100), 0, 10), SpectrumOutcome::Buffered);
    }
    for _ in 0..5 {
        assert_eq!(spectrum.import_spectrum_data(2, flat(0), 0, 10), SpectrumOutcome::OtherReceiver);
    }
    match spectrum.import_spectrum_data(1, flat(-100), 0, 10) {
        SpectrumOutcome::Row(row) => assert_eq!(row.levels[0], 80),
        other => panic!("unexpected outcome {:?}", other),
    }
}

#[test]
fn malformed_frames_are_dropped_and_not_counted() {
    let mut spectrum = subscribed();
    assert_eq!(spectrum.import_spectrum_data(1, vec![0; 2047], 0, 10), SpectrumOutcome::Malformed);
    assert_eq!(spectrum.import_spectrum_data(1, Vec::new(), 0, 10), SpectrumOutcome::Malformed);
    for _ in 0..9 {
        assert_eq!(spectrum.import_spectrum_data(1, flat(-100), 0, 10), SpectrumOutcome::Buffered);
    }
    assert_eq!(spectrum.import_spectrum_data(1, vec![0; 2049], 0, 10), SpectrumOutcome::Malformed);
    assert!(matches!(spectrum.import_spectrum_data(1, flat(-100), 0, 10), SpectrumOutcome::Row(_)));
}

#[test]
fn one_row_for_every_ten_frames() {
    let mut spectrum = subscribed();
    let mut rows = 0;
    for n in 1..=35 {
        match spectrum.import_spectrum_data(1, flat(-100), 0, 10) {
            SpectrumOutcome::Row(_) => {
                rows += 1;
                assert_eq!(n % 10, 0);
            }
            SpectrumOutcome::Buffered => assert!(n % 10 != 0),
            other => panic!("unexpected outcome {:?}", other),
        }
    }
    assert_eq!(rows, 3);
}

#[test]
fn each_bin_takes_the_strongest_level_of_the_ten_frames() {
    let mut spectrum = subscribed();
    let mut last = SpectrumOutcome::Buffered;
    for frame in 0..10 {
        let mut bins = flat(-150);
        // bin 0: strongest in the first frame; bin 1: in the last; bin 2: in the middle
        bins[0] = if frame == 0 { -80 } else { -120 };
        bins[1] = if frame == 9 { -60 } else { -130 };
        bins[2] = if frame == 4 { -100 } else { -101 };
        // bin 3 rises, bin 4 falls
        bins[3] = -100 + frame;
        bins[4] = -100 - frame;
        // below and above the scale
        bins[5] = -200 - frame;
        bins[6] = 80 + frame;
        bins[7] = if frame == 3 { i32::MAX } else { i32::MIN };
        bins[2047] = -180 + frame;
        last = spectrum.import_spectrum_data(1, bins, 0, 10);
    }
    match last {
        SpectrumOutcome::Row(row) => {
            assert_eq!(row.levels.len(), 2048);
            assert_eq!(row.levels[0], 100);
            assert_eq!(row.levels[1], 120);
            assert_eq!(row.levels[2], 80);
            assert_eq!(row.levels[3], 89);
            assert_eq!(row.levels[4], 80);
            assert_eq!(row.levels[5], 0);
            assert_eq!(row.levels[6], 255);
            assert_eq!(row.levels[7], 255);
            assert_eq!(row.levels[8], 30);
            assert_eq!(row.levels[2047], 9);
        }
        other => panic!("unexpected outcome {:?}", other),
    }
}

#[test]
fn pixels_follow_the_gradient() {
    let mut spectrum = subscribed();
    let mut last = SpectrumOutcome::Buffered;
    for _ in 0..10 {
        let mut bins = flat(-180);
        bins[1] = 75;
        bins[2] = -129; // level 51: the second stop of six over 0 to 255
        last = spectrum.import_spectrum_data(1, bins, 0, 10);
    }
    let mut gradient = ColourGradient::new();
    gradient.set_min(0);
    gradient.set_max(255);
    match last {
        SpectrumOutcome::Row(row) => {
            assert_eq!(row.pixels.len(), 4 * 2048);
            assert_eq!(&row.pixels[0..4], &[0, 0, 0, 255]);
            assert_eq!(&row.pixels[4..8], &[255, 255, 255, 255]);
            assert_eq!(&row.pixels[8..12], &[0, 0, 255, 255]);
            for bin in 0..2048 {
                let colour = gradient.get_colour(row.levels[bin] as i32);
                assert_eq!(&row.pixels[4 * bin..4 * bin + 4], &[colour.r, colour.g, colour.b, 255]);
            }
        }
        other => panic!("unexpected outcome {:?}", other),
    }
}

#[test]
fn span_is_reported_when_it_changes() {
    let mut spectrum = subscribed();
    let mut spans = Vec::new();
    let mut feed = |spectrum: &mut SpectrumProvider, start: i64, stop: i64| {
        for _ in 0..9 {
            spectrum.import_spectrum_data(1, flat(-100), 1, 2);
        }
        match spectrum.import_spectrum_data(1, flat(-100), start, stop) {
            SpectrumOutcome::Row(row) => spans.push(row.span),
            other => panic!("unexpected outcome {:?}", other),
        }
    };
    feed(&mut spectrum, 14_000_000, 14_350_000);
    feed(&mut spectrum, 14_000_000, 14_350_000);
    feed(&mut spectrum, 14_000_000, 14_300_000);
    feed(&mut spectrum, 0, 0);
    assert_eq!(
        spans,
        vec![Some((14_000_000, 14_350_000)), None, Some((14_000_000, 14_300_000)), Some((0, 0))]
    );
    assert_eq!(spectrum.freq_start(), 0);
    assert_eq!(spectrum.freq_stop(), 0);
}

#[test]
fn span_of_a_fresh_waterfall_is_zero() {
    let mut spectrum = subscribed();
    assert_eq!(spectrum.freq_start(), 0);
    assert_eq!(spectrum.freq_stop(), 0);
    for _ in 0..9 {
        spectrum.import_spectrum_data(1, flat(-100), 5, 6);
    }
    // nothing is reported before a row is complete
    assert_eq!(spectrum.freq_start(), 0);
    match spectrum.import_spectrum_data(1, flat(-100), 0, 0) {
        SpectrumOutcome::Row(row) => assert_eq!(row.span, None),
        other => panic!("unexpected outcome {:?}", other),
    }
}

#[test]
fn gradient_interpolates_between_stops() {
    let red = Colour { r: 255, g: 0, b: 0 };
    let blue = Colour { r: 0, g: 0, b: 255 };
    let green = Colour { r: 0, g: 255, b: 0 };
    let gradient = ColourGradient::with_colours(vec![red, blue, green]);
    // over 0 to 100, stops at 0, 50 and 100
    assert_eq!(gradient.get_colour(0), red);
    assert_eq!(gradient.get_colour(-5), red);
    assert_eq!(gradient.get_colour(50), blue);
    assert_eq!(gradient.get_colour(100), green);
    assert_eq!(gradient.get_colour(1_000), green);
    assert_eq!(gradient.get_colour(25), Colour { r: 127, g: 0, b: 127 });
    assert_eq!(gradient.get_colour(10), Colour { r: 204, g: 0, b: 51 });
    assert_eq!(gradient.get_colour(75), Colour { r: 0, g: 127, b: 127 });
    assert_eq!(gradient.get_colour(99), Colour { r: 0, g: 249, b: 5 });
}

#[test]
fn gradient_edge_cases() {
    let black = Colour { r: 0, g: 0, b: 0 };
    let red = Colour { r: 255, g: 0, b: 0 };
    let blue = Colour { r: 0, g: 0, b: 255 };
    assert_eq!(ColourGradient::with_colours(Vec::new()).get_colour(50), black);
    assert_eq!(ColourGradient::with_colours(vec![red]).get_colour(50), red);
    let mut gradient = ColourGradient::with_colours(vec![red, blue]);
    gradient.set_min(10);
    gradient.set_max(10);
    assert_eq!(gradient.get_colour(10), red);
    assert_eq!(gradient.get_colour(11), blue);
    gradient.set_min(i32::MIN);
    gradient.set_max(i32::MAX);
    assert_eq!(gradient.get_colour(i32::MIN), red);
    assert_eq!(gradient.get_colour(i32::MAX), blue);
    assert_eq!(gradient.get_colour(-1), Colour { r: 127, g: 0, b: 127 });
    gradient.set_min(0);
    gradient.set_max(255);
    assert_eq!(gradient.get_colour(255), blue);
    assert_eq!(gradient.get_colour(51), Colour { r: 204, g: 0, b: 51 });
}

#[test]
fn default_gradient_runs_from_black_to_white() {
    let gradient = ColourGradient::new();
    assert_eq!(gradient.get_colour(0), Colour { r: 0, g: 0, b: 0 });
    assert_eq!(gradient.get_colour(20), Colour { r: 0, g: 0, b: 255 });
    assert_eq!(gradient.get_colour(40), Colour { r: 0, g: 255, b: 255 });
    assert_eq!(gradient.get_colour(60), Colour { r: 255, g: 255, b: 0 });
    assert_eq!(gradient.get_colour(80), Colour { r: 255, g: 0, b: 0 });
    assert_eq!(gradient.get_colour(100), Colour { r: 255, g: 255, b: 255 });
    assert_eq!(gradient.get_colour(10), Colour { r: 0, g: 0, b: 127 });
}
