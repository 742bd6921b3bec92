use sparksdr_core::call::{Call, Country, LoTWStatus, LogEntry};
use sparksdr_core::clock::time_of_day;
use sparksdr_core::model::{AppRoute, Model, Msg, SpotRow};
use sparksdr_core::spark::{CommandResponse, Mode, Receiver, Spot};
use sparksdr_core::spot::SpotDB;
use sparksdr_core::text::{decimal, decimal_mark, frequency_display, pad_left};

#[test]
fn digits_are_grouped_in_threes_from_the_end() {
    assert_eq!(decimal_mark(""), "");
    assert_eq!(decimal_mark("7"), "7");
    assert_eq!(decimal_mark("123"), "123");
    assert_eq!(decimal_mark("1234"), "1,234");
    assert_eq!(decimal_mark("014074000"), "014,074,000");
    assert_eq!(decimal_mark("1234567890"), "1,234,567,890");
    assert_eq!(decimal_mark("-1000"), "-1,000");
    assert_eq!(decimal_mark("äöüß"), "ä,öüß");
}

#[test]
fn whole_numbers_in_decimal() {
    assert_eq!(decimal(0), "0");
    assert_eq!(decimal(7), "7");
    assert_eq!(decimal(10), "10");
    assert_eq!(decimal(14_074_000), "14074000");
    assert_eq!(decimal(-1), "-1");
    assert_eq!(decimal(-120), "-120");
    assert_eq!(decimal(i64::MAX), "9223372036854775807");
    assert_eq!(decimal(i64::MIN), "-9223372036854775808");
    for n in [-1_000_001i64, -999, -10, 9, 99, 100, 101, 65_535, 4_294_967_296] {
        assert_eq!(decimal(n), n.to_string());
    }
}

#[test]
fn padding_on_the_left() {
    assert_eq!(pad_left("7", 3, '0'), "007");
    assert_eq!(pad_left("123", 3, '0'), "123");
    assert_eq!(pad_left("1234", 3, '0'), "1234");
    assert_eq!(pad_left("", 2, ' '), "  ");
    assert_eq!(pad_left("x", 0, ' '), "x");
}

#[test]
fn frequency_as_the_display_shows_it() {
    assert_eq!(frequency_display(14_074_000), "014,074,000");
    assert_eq!(frequency_display(0), "000,000,000");
    assert_eq!(frequency_display(7), "000,000,007");
    assert_eq!(frequency_display(123_456_789), "123,456,789");
    assert_eq!(frequency_display(1_296_000_000), "1,296,000,000");
    assert_eq!(frequency_display(-5), "000,000,0-5");
}

#[test]
fn time_of_day_has_six_digits() {
    assert_eq!(time_of_day(0), "000000");
    assert_eq!(time_of_day(59), "000059");
    assert_eq!(time_of_day(60), "000100");
    assert_eq!(time_of_day(3_599), "005959");
    assert_eq!(time_of_day(43_200), "120000");
    assert_eq!(time_of_day(86_399), "235959");
    assert_eq!(time_of_day(1_600_000_000), "122640");
    assert_eq!(time_of_day(-86_400), "000000");
    assert_eq!(time_of_day(-1), "235959");
    assert_eq!(time_of_day(i64::MAX), "153007");
    assert_eq!(time_of_day(i64::MIN), "082952");
}

fn ft8() -> Mode {
    Mode::new("FT8".to_string(), true)
}

fn spot(call: Call) -> Spot {
    Spot {
        time: 0,
        frequency: 14_075_000,
        tuned_frequency: 14_074_000,
        power: 0,
        drift: 0,
        snr: 0,
        dt: 0,
        msg: Some("CQ".to_string()),
        mode: ft8(),
        distance: None,
        call,
        color: 0,
        locator: None,
        band: None,
        valid: true,
    }
}

fn stateside(callsign: &str, state: &str) -> Call {
    let mut call = Call::new(callsign.to_string(), Some(Country::UnitedStates), None);
    call.state = Some(state.to_string());
    call
}

#[test]
fn rows_of_the_spot_table() {
    let logs = vec![LogEntry { call: stateside("K5ABC", "TX"), lotw_qsl_rcvd: false }];
    let (mut model, _) = Model::new(AppRoute::Index, Some(logs), SpotDB::new(Vec::new(), None, None));
    model.update(Msg::Connect);
    model.update(Msg::CommandResponse(Ok(CommandResponse::Receivers {
        receivers: vec![
            Receiver { id: 4, mode: ft8(), frequency: 7_074_000, filter_low: 0, filter_high: 3_000 },
            Receiver { id: 5, mode: ft8(), frequency: 14_074_000, filter_low: 0, filter_high: 3_000 },
            Receiver { id: 6, mode: ft8(), frequency: 14_074_000, filter_low: 0, filter_high: 3_000 },
        ],
    })));

    let worked = model.spot_row(&spot(stateside("N5XYZ", "TX")));
    assert_eq!(
        worked,
        SpotRow { new_country: false, new_state: false, lotw: None, receiver_id: Some(5), is_cq: true }
    );

    let mut registered = stateside("W1AW", "CT");
    registered.set_lotw(LoTWStatus::Registered);
    let mut elsewhere = spot(registered);
    elsewhere.tuned_frequency = 21_074_000;
    elsewhere.msg = Some("K1ABC W1AW 73".to_string());
    assert_eq!(
        model.spot_row(&elsewhere),
        SpotRow { new_country: false, new_state: true, lotw: Some(true), receiver_id: None, is_cq: false }
    );

    let mut foreign = Call::new("DL1ABC".to_string(), Some(Country::Other("Germany".to_string())), None);
    foreign.set_lotw(LoTWStatus::Unregistered);
    assert_eq!(
        model.spot_row(&spot(foreign)),
        SpotRow { new_country: true, new_state: false, lotw: Some(false), receiver_id: Some(5), is_cq: true }
    );

    // a callsign of no known country is new in nothing
    let mut unknown = Call::new("XX1XX".to_string(), None, None);
    unknown.state = Some("ZZ".to_string());
    let row = model.spot_row(&spot(unknown));
    assert!(!row.new_country);
    assert!(!row.new_state);

    // without a log nothing is new
    model.update(Msg::CancelImport);
    let row = model.spot_row(&spot(Call::new("DL1ABC".to_string(), Some(Country::Other("Germany".to_string())), None)));
    assert!(!row.new_country);
    assert!(!row.new_state);
}

#[test]
fn table_follows_the_shown_receiver_under_its_filter() {
    let (mut model, _) = Model::new(AppRoute::Index, None, SpotDB::new(Vec::new(), None, None));
    assert!(!model.table_follows_receiver());
    model.update(Msg::ToggleCurrentReceiverSpotFilter);
    assert!(!model.table_follows_receiver());
    model.update(Msg::CommandResponse(Ok(CommandResponse::Receivers {
        receivers: vec![
            Receiver { id: 4, mode: ft8(), frequency: 7_074_000, filter_low: 0, filter_high: 3_000 },
            Receiver { id: 5, mode: Mode::new("USB".to_string(), false), frequency: 1, filter_low: 0, filter_high: 3_000 },
        ],
    })));
    assert!(model.table_follows_receiver());
    model.update(Msg::SetDefaultReceiver(5));
    assert!(!model.table_follows_receiver());
    model.update(Msg::SetDefaultReceiver(4));
    model.update(Msg::ToggleCurrentReceiverSpotFilter);
    assert!(!model.table_follows_receiver());
}

#[test]
fn time_of_day_agrees_with_the_calendar() {
    let mut time: i64 = -200_000;
    while time < 2_000_000_000 {
        let stamp = chrono::DateTime::from_timestamp(time, 0).expect("a valid time");
        assert_eq!(time_of_day(time), stamp.format("%H%M%S").to_string());
        time += 7_654_321;
    }
}
