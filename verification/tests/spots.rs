use sparksdr_core::call::{Call, Country, LoTWStatus, LogEntry};
use sparksdr_core::spark::{Coord, Grid, Mode, Receiver, Spot};
use sparksdr_core::spot::{
    Admission, CallsignInfo, LookupRequest, SpotDB, SpotFilter, SpotFilterSet, SpotOutcome,
};

fn call(text: &str, country: Option<Country>, prefix: Option<&str>) -> Call {
    Call::new(text.to_string(), country, prefix.map(|p| p.to_string()))
}

fn japan() -> Country {
    Country::Other("Japan".to_string())
}

fn germany() -> Country {
    Country::Other("Germany".to_string())
}

fn spot(call: Call, msg: &str) -> Spot {
    Spot {
        time: 1_600_000_000,
        frequency: 14_075_200,
        tuned_frequency: 14_074_000,
        power: -70,
        drift: 0,
        snr: -12,
        dt: 300,
        msg: Some(msg.to_string()),
        mode: Mode::new("FT8".to_string(), true),
        distance: None,
        call,
        color: 0,
        locator: None,
        band: Some("20m".to_string()),
        valid: true,
    }
}

fn w1aw() -> Call {
    call("W1AW", Some(Country::UnitedStates), Some("W1"))
}

fn entry(call: Call) -> LogEntry {
    LogEntry { call, lotw_qsl_rcvd: false }
}

#[test]
fn us_call_waits_for_its_lookup_then_is_admitted() {
    let mut db = SpotDB::new(Vec::new(), None, None);
    let outcome = db.add_spot(spot(w1aw(), "CQ W1AW FN31"), &None);
    match outcome {
        SpotOutcome::Queued(Some(request)) => {
            assert_eq!(request, LookupRequest { prefix: "W1".to_string(), call: "W1AW".to_string() });
            assert_eq!(request.path(), "/out/W1/W1AW.json");
        }
        other => panic!("unexpected outcome {:?}", other),
    }
    assert!(matches!(db.callsign_info("W1AW"), Some(CallsignInfo::Requested(_))));
    assert_eq!(db.pending("W1AW"), Some(&vec![spot(w1aw(), "CQ W1AW FN31")]));
    assert_eq!(db.spots().len(), 0);

    let mut found = w1aw();
    found.state = Some("CT".to_string());
    found.set_lotw(LoTWStatus::Registered);
    let admissions = db.cache_callsign_info(found.clone(), &None);
    assert_eq!(admissions, vec![Admission::Admitted(None)]);
    assert_eq!(db.callsign_info("W1AW"), Some(&CallsignInfo::Found(found.clone())));
    assert!(db.pending("W1AW").is_none());
    assert_eq!(db.spots().len(), 1);
    assert_eq!(db.spots()[0].call, found);
    assert_eq!(db.spots()[0].msg, Some("CQ W1AW FN31".to_string()));
}

#[test]
fn second_spot_of_a_pending_call_joins_the_queue_without_a_lookup() {
    let mut db = SpotDB::new(Vec::new(), None, None);
    let first = db.add_spot(spot(w1aw(), "CQ W1AW FN31"), &None);
    assert!(matches!(first, SpotOutcome::Queued(Some(_))));
    let second = db.add_spot(spot(w1aw(), "K1ABC W1AW -05"), &None);
    assert_eq!(second, SpotOutcome::Queued(None));
    let queue = db.pending("W1AW").expect("one queue");
    assert_eq!(queue.len(), 2);
    assert_eq!(queue[0].msg, Some("CQ W1AW FN31".to_string()));
    assert_eq!(queue[1].msg, Some("K1ABC W1AW -05".to_string()));
    assert_eq!(db.spots().len(), 0);
}

#[test]
fn queued_spots_are_flushed_in_arrival_order() {
    let mut db = SpotDB::new(vec![SpotFilter::LoTW], None, None);
    db.add_spot(spot(w1aw(), "one"), &None);
    db.add_spot(spot(w1aw(), "two"), &None);
    db.add_spot(spot(w1aw(), "three"), &None);
    let mut found = w1aw();
    found.set_lotw(LoTWStatus::LastUpload("2020-01-01".to_string()));
    let admissions = db.cache_callsign_info(found, &None);
    assert_eq!(admissions.len(), 3);
    let texts: Vec<Option<String>> = db.spots().iter().map(|s| s.msg.clone()).collect();
    assert_eq!(
        texts,
        vec![Some("one".to_string()), Some("two".to_string()), Some("three".to_string())]
    );
}

#[test]
fn answer_taken_twice_changes_nothing_the_second_time() {
    let mut db = SpotDB::new(Vec::new(), None, None);
    db.add_spot(spot(w1aw(), "CQ W1AW"), &None);
    let first = db.cache_callsign_info(w1aw(), &None);
    assert_eq!(first.len(), 1);
    let history = db.spots().clone();
    let second = db.cache_callsign_info(w1aw(), &None);
    assert!(second.is_empty());
    assert_eq!(db.spots(), &history);
    assert!(db.pending("W1AW").is_none());
    assert_eq!(db.callsign_info("W1AW"), Some(&CallsignInfo::Found(w1aw())));
}

#[test]
fn answer_for_a_call_without_queue_only_fills_the_cache() {
    let mut db = SpotDB::new(Vec::new(), None, None);
    let admissions = db.cache_callsign_info(w1aw(), &None);
    assert!(admissions.is_empty());
    assert!(db.spots().is_empty());
    assert_eq!(db.has_callsign_info(&w1aw()), Some(w1aw()));
}

#[test]
fn found_call_is_stamped_on_later_spots_at_once() {
    let mut db = SpotDB::new(Vec::new(), None, None);
    let mut found = w1aw();
    found.state = Some("CT".to_string());
    db.cache_callsign_info(found.clone(), &None);
    let outcome = db.add_spot(spot(w1aw(), "CQ W1AW"), &None);
    assert_eq!(outcome, SpotOutcome::Settled(Admission::Admitted(None)));
    assert_eq!(db.spots()[0].call, found);
}

#[test]
fn us_call_without_prefix_is_admitted_as_it_came() {
    let mut db = SpotDB::new(Vec::new(), None, None);
    let odd = call("W1AW", Some(Country::UnitedStates), None);
    assert_eq!(CallsignInfo::fetch(&odd), None);
    let outcome = db.add_spot(spot(odd.clone(), "CQ W1AW"), &None);
    assert_eq!(outcome, SpotOutcome::Settled(Admission::Admitted(None)));
    assert!(db.callsign_info("W1AW").is_none());
    assert_eq!(db.spots()[0].call, odd);
}

#[test]
fn foreign_call_without_list_is_admitted_without_lookup() {
    let mut db = SpotDB::new(Vec::new(), None, None);
    let dl = call("DL1ABC", Some(germany()), Some("DL"));
    assert_eq!(db.has_callsign_info(&dl), None);
    let outcome = db.add_spot(spot(dl.clone(), "CQ DL1ABC"), &None);
    assert_eq!(outcome, SpotOutcome::Settled(Admission::Admitted(None)));
    assert!(db.callsign_info("DL1ABC").is_none());
    assert!(db.pending("DL1ABC").is_none());
    assert_eq!(db.spots()[0].call.lotw, LoTWStatus::Unknown);
}

#[test]
fn call_of_unknown_country_is_treated_as_foreign() {
    let mut db = SpotDB::new(Vec::new(), Some("XX1XX\n".to_string()), None);
    let unknown = call("XX1XX", None, None);
    let found = db.has_callsign_info(&unknown).expect("resolved against the list");
    assert_eq!(found.lotw, LoTWStatus::Registered);
}

#[test]
fn foreign_call_is_resolved_against_the_list_of_users() {
    let mut db = SpotDB::new(Vec::new(), Some("DL1ABC\nJA1XYZ\n".to_string()), None);
    assert!(db.has_lotw_users());
    let member = db.has_callsign_info(&call("JA1XYZ", Some(japan()), None)).expect("resolved");
    assert_eq!(member.lotw, LoTWStatus::Registered);
    assert_eq!(db.callsign_info("JA1XYZ"), Some(&CallsignInfo::Found(member.clone())));
    let stranger = db.has_callsign_info(&call("G4XYZ", Some(Country::Other("England".to_string())), None));
    assert_eq!(stranger.map(|c| c.lotw), Some(LoTWStatus::Unregistered));
    // membership is a plain substring test
    let part = db.has_callsign_info(&call("L1AB", Some(germany()), None));
    assert_eq!(part.map(|c| c.lotw), Some(LoTWStatus::Registered));
    // United States callsigns are never resolved against the list
    assert_eq!(db.has_callsign_info(&w1aw()), None);
}

#[test]
fn list_of_users_can_arrive_later() {
    let mut db = SpotDB::new(Vec::new(), None, None);
    assert!(!db.has_lotw_users());
    assert_eq!(db.fetch_lotw_users(), "/out/lotw-users.dat");
    db.import_lotw_users("DL1ABC".to_string());
    assert!(db.has_lotw_users());
    let outcome = db.add_spot(spot(call("DL1ABC", Some(germany()), None), "CQ"), &None);
    assert_eq!(outcome, SpotOutcome::Settled(Admission::Admitted(None)));
    assert_eq!(db.spots()[0].call.lotw, LoTWStatus::Registered);
}

#[test]
fn new_country_filter_rejects_worked_country() {
    let mut db = SpotDB::new(Vec::new(), None, None);
    db.add_filter(SpotFilter::NewCountry);
    let logs = Some(vec![entry(call("JA1XYZ", Some(japan()), None))]);
    let worked = db.add_spot(spot(call("JA7ABC", Some(japan()), None), "CQ JA7ABC"), &logs);
    assert_eq!(worked, SpotOutcome::Settled(Admission::Rejected));
    let fresh = db.add_spot(spot(call("DL1ABC", Some(germany()), None), "CQ DL1ABC"), &logs);
    assert_eq!(fresh, SpotOutcome::Settled(Admission::Admitted(None)));
    assert_eq!(db.spots().len(), 1);
    assert_eq!(db.spots()[0].call.call, "DL1ABC");
}

#[test]
fn log_filters_do_nothing_without_a_log() {
    let mut db = SpotDB::new(vec![SpotFilter::NewCountry, SpotFilter::NewState], None, None);
    let outcome = db.add_spot(spot(call("JA7ABC", Some(japan()), None), "CQ"), &None);
    assert_eq!(outcome, SpotOutcome::Settled(Admission::Admitted(None)));
}

fn stateside(callsign: &str, state: &str) -> Call {
    let mut c = call(callsign, Some(Country::UnitedStates), None);
    c.state = Some(state.to_string());
    c
}

#[test]
fn worked_in_country_but_not_in_state_is_rejected_with_both_filters() {
    let mut db = SpotDB::new(vec![SpotFilter::NewState, SpotFilter::NewCountry], None, None);
    // the log holds the United States, through a contact in Texas
    let logs = Some(vec![entry(stateside("K5ABC", "TX"))]);
    let outcome = db.add_spot(spot(stateside("W1XYZ", "CT"), "CQ"), &logs);
    assert_eq!(outcome, SpotOutcome::Settled(Admission::Rejected));
}

#[test]
fn worked_in_state_but_not_in_country_is_rejected_with_both_filters() {
    let mut db = SpotDB::new(vec![SpotFilter::NewState, SpotFilter::NewCountry], None, None);
    let mut logged = call("VE3ABC", Some(Country::Other("Canada".to_string())), None);
    logged.state = Some("ON".to_string());
    let logs = Some(vec![entry(logged)]);
    let mut heard = call("XE1ABC", Some(Country::Other("Mexico".to_string())), None);
    heard.state = Some("ON".to_string());
    let outcome = db.add_spot(spot(heard, "CQ"), &logs);
    assert_eq!(outcome, SpotOutcome::Settled(Admission::Rejected));
}

#[test]
fn new_in_state_and_country_is_admitted_with_both_filters() {
    let mut db = SpotDB::new(vec![SpotFilter::NewState, SpotFilter::NewCountry], None, None);
    let logs = Some(vec![entry(stateside("K5ABC", "TX"))]);
    let outcome = db.add_spot(spot(call("DL1ABC", Some(germany()), None), "CQ"), &logs);
    assert_eq!(outcome, SpotOutcome::Settled(Admission::Admitted(None)));
}

#[test]
fn state_filter_alone_ignores_the_country() {
    let mut db = SpotDB::new(vec![SpotFilter::NewState], None, None);
    let logs = Some(vec![entry(stateside("K5ABC", "TX"))]);
    let same_country = db.add_spot(spot(stateside("W1XYZ", "CT"), "CQ"), &logs);
    assert_eq!(same_country, SpotOutcome::Settled(Admission::Admitted(None)));
    let same_state = db.add_spot(spot(stateside("N5XYZ", "TX"), "CQ"), &logs);
    assert_eq!(same_state, SpotOutcome::Settled(Admission::Rejected));
}

#[test]
fn lotw_filter_rejects_unregistered_calls() {
    let mut db = SpotDB::new(vec![SpotFilter::LoTW], Some("DL1ABC".to_string()), None);
    let member = db.add_spot(spot(call("DL1ABC", Some(germany()), None), "CQ"), &None);
    assert_eq!(member, SpotOutcome::Settled(Admission::Admitted(None)));
    let stranger = db.add_spot(spot(call("JA1XYZ", Some(japan()), None), "CQ"), &None);
    assert_eq!(stranger, SpotOutcome::Settled(Admission::Rejected));
    assert_eq!(db.spots().len(), 1);
}

#[test]
fn marker_is_emitted_for_a_spot_with_place_and_band() {
    let mut db = SpotDB::new(Vec::new(), None, None);
    let mut s = spot(call("DL1ABC", Some(germany()), None), "CQ DL1ABC JO62");
    s.locator = Some(Grid {
        locator: "JO62".to_string(),
        coord: Some(Coord { lat: 52_500_000, lon: 13_000_000 }),
    });
    match db.add_spot(s, &None) {
        SpotOutcome::Settled(Admission::Admitted(Some(marker))) => {
            assert_eq!(marker.call, "DL1ABC");
            assert_eq!(marker.lat, 52_500_000);
            assert_eq!(marker.lon, 13_000_000);
            assert_eq!(marker.time, 1_600_000_000);
            // 2020-09-13 12:26:40 UTC
            assert_eq!(marker.spot_on(), "122640");
            assert_eq!(marker.frequency, 14_074_000);
            assert_eq!(marker.band, "20m");
            assert_eq!(marker.mode, "FT8");
            assert!(marker.is_cq);
            assert!(!marker.uses_lotw);
        }
        other => panic!("unexpected outcome {:?}", other),
    }
}

#[test]
fn no_marker_without_point_or_band() {
    let mut db = SpotDB::new(Vec::new(), None, None);
    let mut no_point = spot(call("DL1ABC", Some(germany()), None), "CQ");
    no_point.locator = Some(Grid { locator: "RR73".to_string(), coord: None });
    assert_eq!(db.add_spot(no_point, &None), SpotOutcome::Settled(Admission::Admitted(None)));
    let mut no_band = spot(call("DL1ABC", Some(germany()), None), "CQ");
    no_band.locator = Some(Grid { locator: "JO62".to_string(), coord: Some(Coord { lat: 1, lon: 2 }) });
    no_band.band = None;
    assert_eq!(db.add_spot(no_band, &None), SpotOutcome::Settled(Admission::Admitted(None)));
    assert_eq!(db.spots().len(), 2);
}

#[test]
fn time_of_day_of_markers() {
    let mut db = SpotDB::new(Vec::new(), None, None);
    let times: [(i64, &str); 5] = [
        (0, "000000"),
        (86_399, "235959"),
        (86_400, "000000"),
        (-1, "235959"),
        (3_661, "010101"),
    ];
    for (time, text) in times {
        let mut s = spot(call("DL1ABC", Some(germany()), None), "CQ");
        s.time = time;
        s.locator = Some(Grid { locator: "JO62".to_string(), coord: Some(Coord { lat: 0, lon: 0 }) });
        match db.add_spot(s, &None) {
            SpotOutcome::Settled(Admission::Admitted(Some(marker))) => assert_eq!(marker.spot_on(), text),
            other => panic!("unexpected outcome {:?}", other),
        }
    }
}

#[test]
fn trim_keeps_the_newest_in_order() {
    let mut db = SpotDB::new(Vec::new(), None, None);
    for n in 0..7 {
        db.add_spot(spot(call("DL1ABC", Some(germany()), None), &format!("{}", n)), &None);
    }
    db.trim_spots(10);
    assert_eq!(db.spots().len(), 7);
    db.trim_spots(3);
    let texts: Vec<Option<String>> = db.spots().iter().map(|s| s.msg.clone()).collect();
    assert_eq!(texts, vec![Some("4".to_string()), Some("5".to_string()), Some("6".to_string())]);
    db.trim_spots(3);
    assert_eq!(db.spots().len(), 3);
    db.trim_spots(0);
    assert!(db.spots().is_empty());
}

#[test]
fn clear_spots_keeps_cache_and_filters() {
    let mut db = SpotDB::new(vec![SpotFilter::CQOnly], None, None);
    db.add_spot(spot(w1aw(), "CQ W1AW"), &None);
    db.add_spot(spot(call("DL1ABC", Some(germany()), None), "CQ"), &None);
    db.clear_spots();
    assert!(db.spots().is_empty());
    assert!(db.pending("W1AW").is_none());
    assert!(matches!(db.callsign_info("W1AW"), Some(CallsignInfo::Requested(_))));
    assert!(db.cq_only_spot_filter_enabled());
    // the lookup is still under way: the next spot waits, and asks for nothing
    assert_eq!(db.add_spot(spot(w1aw(), "CQ W1AW"), &None), SpotOutcome::Queued(None));
}

#[test]
fn reset_forgets_the_cache_too() {
    let mut db = SpotDB::new(vec![SpotFilter::CQOnly], Some("DL1ABC".to_string()), None);
    db.add_spot(spot(w1aw(), "CQ W1AW"), &None);
    db.reset();
    assert!(db.callsign_info("W1AW").is_none());
    assert!(db.cq_only_spot_filter_enabled());
    assert!(db.has_lotw_users());
    assert!(matches!(db.add_spot(spot(w1aw(), "CQ W1AW"), &None), SpotOutcome::Queued(Some(_))));
}

#[test]
fn filters_are_a_sorted_set() {
    let mut db = SpotDB::new(vec![SpotFilter::LoTW, SpotFilter::CQOnly, SpotFilter::LoTW], None, None);
    assert_eq!(db.filters(), vec![SpotFilter::CQOnly, SpotFilter::LoTW]);
    assert_eq!(
        db.add_filter(SpotFilter::NewCountry),
        vec![SpotFilter::CQOnly, SpotFilter::NewCountry, SpotFilter::LoTW]
    );
    assert_eq!(
        db.add_filter(SpotFilter::NewCountry),
        vec![SpotFilter::CQOnly, SpotFilter::NewCountry, SpotFilter::LoTW]
    );
    db.add_filter(SpotFilter::CurrentReceiver);
    db.add_filter(SpotFilter::NewState);
    assert_eq!(
        db.filters(),
        vec![
            SpotFilter::CQOnly,
            SpotFilter::NewState,
            SpotFilter::NewCountry,
            SpotFilter::CurrentReceiver,
            SpotFilter::LoTW
        ]
    );
    assert!(db.cq_only_spot_filter_enabled());
    assert!(db.state_spot_filter_enabled());
    assert!(db.country_spot_filter_enabled());
    assert!(db.current_receiver_spot_filter_enabled());
    assert!(db.lotw_spot_filter_enabled());
    assert_eq!(
        db.remove_filter(SpotFilter::NewCountry),
        Ok(vec![SpotFilter::CQOnly, SpotFilter::NewState, SpotFilter::CurrentReceiver, SpotFilter::LoTW])
    );
    assert!(!db.country_spot_filter_enabled());
    assert_eq!(db.remove_filter(SpotFilter::NewCountry), Err("not found"));
    assert_eq!(
        db.filters(),
        vec![SpotFilter::CQOnly, SpotFilter::NewState, SpotFilter::CurrentReceiver, SpotFilter::LoTW]
    );
}

#[test]
fn filter_set_on_its_own() {
    let mut set = SpotFilterSet::new();
    assert!(!set.contains(SpotFilter::LoTW));
    set.insert(SpotFilter::LoTW);
    set.insert(SpotFilter::CQOnly);
    assert!(set.contains(SpotFilter::LoTW));
    assert_eq!(set.to_vec(), vec![SpotFilter::CQOnly, SpotFilter::LoTW]);
    assert!(set.remove(SpotFilter::LoTW));
    assert!(!set.remove(SpotFilter::LoTW));
    assert_eq!(SpotFilterSet::from_vec(&vec![SpotFilter::LoTW, SpotFilter::LoTW]).to_vec(), vec![SpotFilter::LoTW]);
}

#[test]
fn states_overlay_follows_the_state_filter() {
    let mut db = SpotDB::new(Vec::new(), None, None);
    assert!(!db.has_states_overlay());
    let update = db.update_states_overlay_js();
    assert_eq!(update.overlay, None);
    assert!(update.hidden);
    assert_eq!(db.fetch_states_overlay(), "/out/states.json");
    let update = db.import_states_overlay("{}".to_string());
    assert_eq!(update.overlay, Some("{}".to_string()));
    assert!(update.hidden);
    db.add_filter(SpotFilter::NewState);
    let update = db.update_states_overlay_js();
    assert_eq!(update.overlay, Some("{}".to_string()));
    assert!(!update.hidden);
    assert!(db.has_states_overlay());
}

#[test]
fn cache_entries_know_their_call() {
    let request = CallsignInfo::fetch(&w1aw()).expect("a lookup is due");
    assert_eq!(request.call(), w1aw());
    assert_eq!(CallsignInfo::Found(w1aw()).call(), w1aw());
    assert_eq!(CallsignInfo::NotFound(w1aw()).call(), w1aw());
    assert_eq!(CallsignInfo::fetch(&call("DL1ABC", Some(germany()), Some("DL"))), None);
}

#[test]
fn spot_predicates() {
    let mut s = spot(w1aw(), "CQ W1AW FN31");
    assert!(s.is_cq());
    s.msg = Some("K1ABC W1AW RR73".to_string());
    assert!(!s.is_cq());
    s.msg = Some("DECQ".to_string());
    assert!(s.is_cq());
    s.msg = None;
    assert!(!s.is_cq());
    assert!(!s.uses_lotw());
    s.call.set_lotw(LoTWStatus::LastUpload("2020-01-01".to_string()));
    assert!(s.uses_lotw());
    s.call.set_lotw(LoTWStatus::Unregistered);
    assert!(!s.uses_lotw());
    assert_eq!(s.audio_offset(), Some(1_200));
    s.frequency = i64::MAX;
    s.tuned_frequency = -1;
    assert_eq!(s.audio_offset(), None);

    let receiver = Receiver {
        id: 3,
        mode: Mode::new("FT8".to_string(), true),
        frequency: 14_074_000,
        filter_low: 0,
        filter_high: 3_000,
    };
    let mut heard = spot(w1aw(), "CQ");
    assert!(heard.current_rx(&receiver));
    heard.mode = Mode::new("FT4".to_string(), true);
    assert!(!heard.current_rx(&receiver));
    heard.mode = Mode::new("FT8".to_string(), true);
    heard.tuned_frequency = 7_074_000;
    assert!(!heard.current_rx(&receiver));
    assert!(receiver.has_spots());
}

#[test]
fn new_state_and_country_against_a_log() {
    let logs = vec![entry(stateside("K5ABC", "TX")), entry(call("JA1XYZ", Some(japan()), None))];
    assert!(!spot(stateside("N5XYZ", "TX"), "CQ").new_state(&logs));
    assert!(spot(stateside("W1XYZ", "CT"), "CQ").new_state(&logs));
    assert!(spot(call("DL1ABC", Some(germany()), None), "CQ").new_state(&logs));
    assert!(!spot(call("JA7ABC", Some(japan()), None), "CQ").new_country(&logs));
    assert!(!spot(w1aw(), "CQ").new_country(&logs));
    assert!(spot(call("DL1ABC", Some(germany()), None), "CQ").new_country(&logs));
    assert!(spot(call("XX1XX", None, None), "CQ").new_country(&logs));
    assert!(spot(w1aw(), "CQ").new_state(&Vec::new()));
}
