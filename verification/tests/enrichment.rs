use rig_control::transport::lookup_event;
use rig_control::{Call, CallsignInfo, Lookup, LookupFailure, Mode, Model, Msg, Spot};

fn american(callsign: &str) -> Call {
    Call {
        callsign: callsign.to_string(),
        prefix: Some("K".to_string()),
        country: Some("United States".to_string()),
        state: None,
        op: None,
    }
}

fn enriched(callsign: &str) -> Call {
    Call {
        callsign: callsign.to_string(),
        prefix: Some("K".to_string()),
        country: Some("United States".to_string()),
        state: Some("MA".to_string()),
        op: Some("Alice".to_string()),
    }
}

fn german(callsign: &str) -> Call {
    Call {
        callsign: callsign.to_string(),
        prefix: Some("DL".to_string()),
        country: Some("Germany".to_string()),
        state: None,
        op: None,
    }
}

fn lookup_of(callsign: &str, path: &str) -> Lookup {
    Lookup { callsign: callsign.to_string(), path: path.to_string() }
}

fn spot(call: Call, time: i64) -> Spot {
    Spot {
        call,
        time,
        snr: 3,
        dt: -100,
        frequency: 7_075_000,
        tuned_frequency: 7_074_000,
        mode: Mode::new("FT8".to_string()),
        distance: None,
        msg: "CQ".to_string(),
    }
}

#[test]
fn first_spot_of_a_supported_call_starts_a_lookup() {
    let mut m = Model::new();
    let lookup = m.add_spot(spot(american("K1ABC"), 1));
    assert_eq!(lookup, Some(lookup_of("K1ABC", "/out/K/K1ABC.json")));
    assert_eq!(*m.callsigns(), vec![CallsignInfo::Requested(american("K1ABC"))]);
    assert_eq!(m.spots()[0].call, american("K1ABC"));
}

#[test]
fn spot_while_requested_starts_no_second_lookup() {
    let mut m = Model::new();
    assert!(m.add_spot(spot(american("K1ABC"), 1)).is_some());
    assert_eq!(m.add_spot(spot(american("K1ABC"), 2)), None);
    assert_eq!(m.add_spot(spot(american("K1ABC"), 3)), None);
    assert_eq!(m.callsigns().len(), 1);
    assert_eq!(m.spots().len(), 3);
}

#[test]
fn each_callsign_gets_its_own_lookup() {
    let mut m = Model::new();
    assert_eq!(
        m.add_spot(spot(american("K1ABC"), 1)),
        Some(lookup_of("K1ABC", "/out/K/K1ABC.json"))
    );
    assert_eq!(
        m.add_spot(spot(american("W2XYZ"), 2)),
        Some(lookup_of("W2XYZ", "/out/K/W2XYZ.json"))
    );
    assert_eq!(m.callsigns().len(), 2);
}

#[test]
fn unsupported_country_is_never_looked_up() {
    let mut m = Model::new();
    assert_eq!(m.add_spot(spot(german("DL1ABC"), 1)), None);
    assert!(m.callsigns().is_empty());
    assert_eq!(m.spots()[0].call, german("DL1ABC"));
}

#[test]
fn call_without_prefix_is_never_looked_up() {
    let mut m = Model::new();
    let mut call = american("K1ABC");
    call.prefix = None;
    assert_eq!(m.add_spot(spot(call, 1)), None);
    assert!(m.callsigns().is_empty());
}

#[test]
fn call_without_country_is_never_looked_up() {
    let mut m = Model::new();
    assert_eq!(m.add_spot(spot(Call::new("K1ABC".to_string()), 1)), None);
    assert!(m.callsigns().is_empty());
}

#[test]
fn found_call_reaches_every_stored_spot_of_the_callsign() {
    let mut m = Model::new();
    m.add_spot(spot(american("K1ABC"), 1));
    m.add_spot(spot(german("DL1ABC"), 2));
    m.add_spot(spot(american("K1ABC"), 3));
    m.cache_callsign_info(enriched("K1ABC"));
    assert_eq!(m.spots()[0].call, enriched("K1ABC"));
    assert_eq!(m.spots()[1].call, german("DL1ABC"));
    assert_eq!(m.spots()[2].call, enriched("K1ABC"));
    assert_eq!(m.spots()[0].time, 1);
    assert_eq!(m.spots()[2].time, 3);
    assert_eq!(*m.callsigns(), vec![CallsignInfo::Found(enriched("K1ABC"))]);
}

#[test]
fn later_spots_are_enriched_from_the_cache() {
    let mut m = Model::new();
    m.add_spot(spot(american("K1ABC"), 1));
    m.cache_callsign_info(enriched("K1ABC"));
    assert_eq!(m.add_spot(spot(american("K1ABC"), 2)), None);
    assert_eq!(m.spots()[1].call, enriched("K1ABC"));
    assert_eq!(m.spots()[1].time, 2);
    assert_eq!(m.callsigns().len(), 1);
}

#[test]
fn found_call_without_a_request_is_cached() {
    let mut m = Model::new();
    m.cache_callsign_info(enriched("K1ABC"));
    assert_eq!(*m.callsigns(), vec![CallsignInfo::Found(enriched("K1ABC"))]);
    m.cache_callsign_info(american("K1ABC"));
    assert_eq!(*m.callsigns(), vec![CallsignInfo::Found(american("K1ABC"))]);
}

#[test]
fn matching_is_by_callsign_text() {
    let mut m = Model::new();
    m.add_spot(spot(american("K1ABC"), 1));
    m.add_spot(spot(american("K1ABD"), 2));
    m.cache_callsign_info(enriched("K1ABC"));
    assert_eq!(m.spots()[1].call, american("K1ABD"));
    assert_eq!(
        *m.callsigns(),
        vec![CallsignInfo::Found(enriched("K1ABC")), CallsignInfo::Requested(american("K1ABD"))]
    );
}

#[test]
fn failed_lookup_changes_nothing() {
    let mut m = Model::new();
    m.add_spot(spot(american("K1ABC"), 1));
    m.callsign_info_ready(Err(LookupFailure { reason: "bad body".to_string() }));
    assert_eq!(*m.callsigns(), vec![CallsignInfo::Requested(american("K1ABC"))]);
    assert_eq!(m.add_spot(spot(american("K1ABC"), 2)), None);
}

#[test]
fn successful_lookup_is_cached() {
    let mut m = Model::new();
    m.add_spot(spot(american("K1ABC"), 1));
    m.callsign_info_ready(Ok(enriched("K1ABC")));
    assert_eq!(*m.callsigns(), vec![CallsignInfo::Found(enriched("K1ABC"))]);
    assert_eq!(m.spots()[0].call, enriched("K1ABC"));
}

#[test]
fn lookup_event_passes_the_answer_of_a_successful_request() {
    assert_eq!(
        lookup_event(true, Ok(enriched("K1ABC"))),
        Msg::CallsignInfoReady(Ok(enriched("K1ABC")))
    );
    let failure = LookupFailure { reason: "no json".to_string() };
    assert_eq!(
        lookup_event(true, Err(LookupFailure { reason: "no json".to_string() })),
        Msg::CallsignInfoReady(Err(failure))
    );
}

#[test]
fn lookup_event_drops_the_answer_of_a_failed_request() {
    assert_eq!(lookup_event(false, Ok(enriched("K1ABC"))), Msg::Nothing);
}

#[test]
fn callsign_info_gives_its_call() {
    assert_eq!(CallsignInfo::Requested(american("K1ABC")).call(), american("K1ABC"));
    assert_eq!(CallsignInfo::Found(enriched("K1ABC")).call(), enriched("K1ABC"));
    assert_eq!(CallsignInfo::NotFound(german("DL1ABC")).call(), german("DL1ABC"));
    assert_eq!(american("K1ABC").call(), "K1ABC");
}

#[test]
fn lookup_path_names_prefix_and_callsign() {
    let path = rig_control::model::lookup_path_string(&"W".to_string(), &"W1AW".to_string());
    assert_eq!(path, "/out/W/W1AW.json");
}
