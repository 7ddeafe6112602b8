use pview::bridge::Pv2MqttState;
use pview::events::{
    addressed_to_us, advise_hass_of_unresponsive, discovery_accepts, handle_discovery,
    handle_shade_event, interpolate_pct, interpolation_tick, is_unresponsive, mqtt_scene_activate,
    mqtt_shade_command, mqtt_shade_set_position, refreshed_shade_actions_exec, BridgeAction,
    DiscoveryDecision, FailureCause, Interpolation, ShadeIdAddr,
};
use pview::hub::{HttpMethod, Hub, RequestBody};
use pview::types::{
    BatteryStatus, GatewayConfig, GatewayFirmware, GatewayFirmwareVersions, GatewayNetworkStatus,
    PowerType, ShadeCapabilities, ShadeData, ShadeEvent, ShadeEventKind, ShadeFirmware,
    ShadePosition,
};

fn state() -> Pv2MqttState {
    Pv2MqttState { serial: "ABC123".to_string(), discovery_prefix: "homeassistant".to_string() }
}

fn hub() -> Hub {
    Hub::with_addr("10.0.0.2".to_string())
}

fn pos(primary: Option<u8>, secondary: Option<u8>, eta_ms: Option<u64>) -> ShadePosition {
    ShadePosition { primary, secondary, tilt: None, velocity: None, eta_ms }
}

fn event(evt: ShadeEventKind, cur: Option<ShadePosition>, tgt: Option<ShadePosition>) -> ShadeEvent {
    ShadeEvent { evt, id: 7, current_positions: cur, target_positions: tgt, iso_date: None }
}

fn gateway(serial: &str, ip: &str) -> GatewayConfig {
    GatewayConfig {
        serial_number: serial.to_string(),
        brand: String::new(),
        model: String::new(),
        firmware: GatewayFirmwareVersions {
            main_processor: GatewayFirmware { name: String::new(), revision: 0, sub_revision: 0, build: 0 },
        },
        network_status: GatewayNetworkStatus { ip_address: ip.to_string(), primary_mac_address: String::new() },
    }
}

fn shade(primary: Option<u8>, secondary: Option<u8>, battery: Option<BatteryStatus>) -> ShadeData {
    ShadeData {
        id: 7,
        shade_type: 1,
        pt_name: "Blind".to_string(),
        name: String::new(),
        capabilities: ShadeCapabilities::TopDownBottomUp,
        power_type: PowerType::Battery,
        battery_status: battery,
        room_id: 1,
        firmware: ShadeFirmware { revision: 1, sub_revision: 0, build: 0 },
        positions: pos(primary, secondary, None),
        signal_percent: None,
        ble_name: String::new(),
        shade_group_ids: vec![],
        serial_number: String::new(),
    }
}

fn text(a: &BridgeAction) -> String {
    match a {
        BridgeAction::Publish { topic, payload } => format!("{topic} = {payload}"),
        BridgeAction::CancelInterpolation(id) => format!("cancel {id}"),
        BridgeAction::StartInterpolation(i) => format!("interpolate {} for {} ms", i.shade_id, i.eta_ms),
        BridgeAction::FetchShade(id) => format!("fetch {id}"),
        BridgeAction::HubCall(r) => format!("{:?} {}", r.method, r.url),
    }
}

fn texts(v: &[BridgeAction]) -> Vec<String> {
    v.iter().map(text).collect()
}

#[test]
fn motion_stopped_snaps_to_actual_positions() {
    let out = handle_shade_event(&state(), event(ShadeEventKind::MotionStopped, Some(pos(Some(0), Some(45), None)), None));
    assert_eq!(
        texts(&out),
        vec![
            "cancel 7",
            "pv2mqtt/shade/ABC123/7/position = 0",
            "pv2mqtt/shade/ABC123/7/state = closed",
            "pv2mqtt/shade/ABC123/7_middle/position = 45",
            "pv2mqtt/shade/ABC123/7_middle/state = open",
        ]
    );
    let out = handle_shade_event(&state(), event(ShadeEventKind::MotionStopped, None, None));
    assert_eq!(texts(&out), vec!["cancel 7"]);
}

#[test]
fn motion_started_labels_and_interpolates() {
    let out = handle_shade_event(
        &state(),
        event(ShadeEventKind::MotionStarted, Some(pos(Some(80), None, None)), Some(pos(Some(20), None, Some(10000)))),
    );
    assert_eq!(
        texts(&out),
        vec!["pv2mqtt/shade/ABC123/7/state = moving", "cancel 7", "interpolate 7 for 8500 ms"]
    );
    match &out[2] {
        BridgeAction::StartInterpolation(i) => {
            assert_eq!(i.last_primary, None);
            assert_eq!(i.last_secondary, None);
            assert_eq!(i.start.primary, Some(80));
            assert_eq!(i.target.primary, Some(20));
        }
        other => panic!("unexpected action {other:?}"),
    }
    let out = handle_shade_event(
        &state(),
        event(ShadeEventKind::MotionStarted, Some(pos(Some(20), None, None)), Some(pos(Some(20), None, Some(1000)))),
    );
    assert_eq!(
        texts(&out),
        vec!["pv2mqtt/shade/ABC123/7/state = moving", "cancel 7", "interpolate 7 for 500 ms"]
    );
    let out = handle_shade_event(&state(), event(ShadeEventKind::MotionStarted, None, Some(pos(Some(20), None, Some(5000)))));
    assert_eq!(texts(&out), vec!["pv2mqtt/shade/ABC123/7/state = moving", "cancel 7"]);
    let out = handle_shade_event(
        &state(),
        event(ShadeEventKind::MotionStarted, Some(pos(None, None, None)), Some(pos(Some(20), None, None))),
    );
    assert_eq!(texts(&out), vec!["pv2mqtt/shade/ABC123/7/state = moving", "cancel 7"]);
}

#[test]
fn offline_online_and_other_events() {
    let out = handle_shade_event(&state(), event(ShadeEventKind::ShadeOffline, None, None));
    assert_eq!(
        texts(&out),
        vec!["pv2mqtt/shade/ABC123/7/availability = offline", "pv2mqtt/shade/ABC123/7_middle/availability = offline"]
    );
    assert_eq!(texts(&handle_shade_event(&state(), event(ShadeEventKind::ShadeOnline, None, None))), vec!["fetch 7"]);
    assert_eq!(texts(&handle_shade_event(&state(), event(ShadeEventKind::BatteryAlert, None, None))), vec!["fetch 7"]);
    assert!(handle_shade_event(&state(), event(ShadeEventKind::Unknown, None, None)).is_empty());
}

#[test]
fn refreshed_shade_publications() {
    let out = refreshed_shade_actions_exec(&state(), &shade(Some(30), Some(60), Some(BatteryStatus::Low)));
    assert_eq!(
        texts(&out),
        vec![
            "pv2mqtt/shade/ABC123/7/availability = online",
            "pv2mqtt/shade/ABC123/7/position = 30",
            "pv2mqtt/shade/ABC123/7_middle/position = 60",
            "pv2mqtt/sensor/ABC123-7-battery/state = 20",
            "pv2mqtt/sensor/ABC123/7/battery/availability = online",
        ]
    );
    let out = refreshed_shade_actions_exec(&state(), &shade(None, None, None));
    assert_eq!(
        texts(&out),
        vec!["pv2mqtt/shade/ABC123/7/availability = online", "pv2mqtt/sensor/ABC123/7/battery/availability = offline"]
    );
}

#[test]
fn interpolate_pct_endpoints() {
    assert_eq!(interpolate_pct(10, 90, 0, 4000), 10);
    assert_eq!(interpolate_pct(10, 90, 4000, 4000), 90);
    assert_eq!(interpolate_pct(90, 10, 0, 4000), 90);
    assert_eq!(interpolate_pct(90, 10, 4000, 4000), 10);
}

#[test]
fn interpolate_pct_midpoint_both_directions() {
    assert_eq!(interpolate_pct(0, 100, 500, 1000), 50);
    assert_eq!(interpolate_pct(100, 0, 500, 1000), 50);
    assert_eq!(interpolate_pct(0, 1, 500, 1000), 1);
    assert_eq!(interpolate_pct(1, 0, 500, 1000), 1);
    assert_eq!(interpolate_pct(0, 100, 250, 1000), 25);
    assert_eq!(interpolate_pct(20, 30, 333, 1000), 23);
}

#[test]
fn interpolate_pct_clamps_beyond_eta() {
    assert_eq!(interpolate_pct(0, 100, 5000, 1000), 100);
    assert_eq!(interpolate_pct(100, 0, u64::MAX, 1000), 0);
    assert_eq!(interpolate_pct(40, 60, 7, 0), 60);
}

#[test]
fn interpolate_pct_matches_float_rounding() {
    for s in [0u8, 13, 50, 100] {
        for g in [0u8, 7, 99, 100] {
            for e in (0..=1200u64).step_by(37) {
                let ec = e.min(1000);
                let twice = 2 * (s as u64 * (1000 - ec) + g as u64 * ec);
                if twice % 2000 == 1000 {
                    // An exact half, where float error may round either way.
                    continue;
                }
                let t = (e as f64 / 1000.0).min(1.0);
                let expected = (s as f64 + (g as f64 - s as f64) * t).round() as u8;
                assert_eq!(interpolate_pct(s, g, e, 1000), expected, "s={s} g={g} e={e}");
            }
        }
    }
}

#[test]
fn ticks_publish_only_changes() {
    assert_eq!(interpolation_tick(), 100);
    let mut i = Interpolation::new(7, pos(Some(0), None, None), pos(Some(2), None, None), 1000);
    let (out, done) = i.tick(&state(), 100);
    assert_eq!(texts(&out), vec!["pv2mqtt/shade/ABC123/7/position = 0"]);
    assert!(!done);
    let (out, _) = i.tick(&state(), 200);
    assert!(out.is_empty());
    let (out, _) = i.tick(&state(), 300);
    assert_eq!(texts(&out), vec!["pv2mqtt/shade/ABC123/7/position = 1"]);
    let (out, done) = i.tick(&state(), 1000);
    assert_eq!(texts(&out), vec!["pv2mqtt/shade/ABC123/7/position = 2"]);
    assert!(done);
    assert_eq!(i.last_primary, Some(2));
    assert_eq!(i.last_secondary, None);
}

#[test]
fn ticks_cover_both_rails() {
    let mut i = Interpolation::new(7, pos(Some(100), Some(0), None), pos(Some(0), Some(50), None), 500);
    let (out, done) = i.tick(&state(), 600);
    assert_eq!(
        texts(&out),
        vec!["pv2mqtt/shade/ABC123/7/position = 0", "pv2mqtt/shade/ABC123/7_middle/position = 50"]
    );
    assert!(done);
}

#[test]
fn rail_addresses() {
    assert_eq!(ShadeIdAddr::from_str("12"), Ok(ShadeIdAddr { shade_id: 12, is_secondary: false }));
    assert_eq!(ShadeIdAddr::from_str("12_middle"), Ok(ShadeIdAddr { shade_id: 12, is_secondary: true }));
    assert_eq!(ShadeIdAddr::from_str("-3_middle"), Ok(ShadeIdAddr { shade_id: -3, is_secondary: true }));
    assert!(ShadeIdAddr::from_str("_middle").is_err());
    assert!(ShadeIdAddr::from_str("12_top").is_err());
    assert!(ShadeIdAddr::from_str("").is_err());
    assert!(ShadeIdAddr::from_str("12_middle_middle").is_err());
}

#[test]
fn registered_rail_ids_read_back() {
    for id in [0, 7, -1, i32::MAX, i32::MIN] {
        for sec in [false, true] {
            let rail = pview::bridge::rail_id_text(id, sec);
            assert_eq!(ShadeIdAddr::from_str(&rail), Ok(ShadeIdAddr { shade_id: id, is_secondary: sec }));
        }
    }
}

#[test]
fn commands_for_other_hubs_are_ignored() {
    assert!(addressed_to_us(&state(), "ABC123"));
    assert!(!addressed_to_us(&state(), "XYZ"));
    assert!(mqtt_scene_activate(&state(), &hub(), "XYZ", 4).is_empty());
    assert_eq!(
        texts(&mqtt_scene_activate(&state(), &hub(), "ABC123", 4)),
        vec!["Put http://10.0.0.2/home/scenes/4/activate"]
    );
    match &mqtt_scene_activate(&state(), &hub(), "ABC123", 4)[0] {
        BridgeAction::HubCall(r) => assert!(matches!(r.body, RequestBody::EmptyObject)),
        other => panic!("unexpected action {other:?}"),
    }
}

#[test]
fn set_position_labels_and_request() {
    let s = shade(Some(40), Some(10), None);
    let out = mqtt_shade_set_position(&state(), &hub(), ShadeIdAddr { shade_id: 7, is_secondary: false }, 20, &s);
    assert_eq!(
        texts(&out),
        vec!["pv2mqtt/shade/ABC123/7/state = closing", "Put http://10.0.0.2/home/shades/7/positions"]
    );
    match &out[1] {
        BridgeAction::HubCall(r) => match &r.body {
            RequestBody::Positions(p) => {
                assert_eq!(p.primary, Some(20));
                assert_eq!(p.secondary, None);
            }
            other => panic!("unexpected body {other:?}"),
        },
        other => panic!("unexpected action {other:?}"),
    }
    let out = mqtt_shade_set_position(&state(), &hub(), ShadeIdAddr { shade_id: 7, is_secondary: true }, 90, &s);
    assert_eq!(texts(&out)[0], "pv2mqtt/shade/ABC123/7_middle/state = opening");
    let out = mqtt_shade_set_position(&state(), &hub(), ShadeIdAddr { shade_id: 7, is_secondary: true }, 10, &s);
    assert_eq!(texts(&out)[0], "pv2mqtt/shade/ABC123/7_middle/state = opening");
    let out = mqtt_shade_set_position(&state(), &hub(), ShadeIdAddr { shade_id: 7, is_secondary: false }, 0, &shade(None, None, None));
    assert_eq!(texts(&out)[0], "pv2mqtt/shade/ABC123/7/state = opening");
}

#[test]
fn shade_commands() {
    assert_eq!(
        texts(&mqtt_shade_command(&state(), &hub(), 7, "OPEN")),
        vec!["pv2mqtt/shade/ABC123/7/state = opening", "Put http://10.0.0.2/home/shades/7/positions"]
    );
    assert_eq!(
        texts(&mqtt_shade_command(&state(), &hub(), 7, "CLOSE")),
        vec!["pv2mqtt/shade/ABC123/7/state = closing", "Put http://10.0.0.2/home/shades/7/positions"]
    );
    assert_eq!(texts(&mqtt_shade_command(&state(), &hub(), 7, "STOP")), vec!["Put http://10.0.0.2/home/shades/stop"]);
    assert_eq!(texts(&mqtt_shade_command(&state(), &hub(), 7, "JOG")), vec!["Put http://10.0.0.2/home/shades/7/motion"]);
    assert!(mqtt_shade_command(&state(), &hub(), 7, "open").is_empty());
    match &mqtt_shade_command(&state(), &hub(), 7, "CLOSE")[1] {
        BridgeAction::HubCall(r) => {
            assert_eq!(r.method, HttpMethod::Put);
            match &r.body {
                RequestBody::Positions(p) => assert_eq!(p.primary, Some(0)),
                other => panic!("unexpected body {other:?}"),
            }
        }
        other => panic!("unexpected action {other:?}"),
    }
}

#[test]
fn rediscovery_decisions() {
    let current = gateway("ABC123", "10.0.0.2");
    assert_eq!(handle_discovery(&state(), true, &current, &None), DiscoveryDecision::MarkUnresponsive);
    assert_eq!(handle_discovery(&state(), true, &current, &Some(gateway("OTHER", "10.0.0.9"))), DiscoveryDecision::Ignore);
    assert_eq!(handle_discovery(&state(), true, &current, &Some(gateway("ABC123", "10.0.0.2"))), DiscoveryDecision::Ignore);
    assert_eq!(handle_discovery(&state(), false, &current, &Some(gateway("ABC123", "10.0.0.2"))), DiscoveryDecision::Rebind);
    assert_eq!(handle_discovery(&state(), true, &current, &Some(gateway("ABC123", "10.0.0.3"))), DiscoveryDecision::Rebind);
}

#[test]
fn unresponsive_message() {
    assert_eq!(text(&advise_hass_of_unresponsive(&state())), "pv2mqtt/sensor/ABC123-responding/state = UNRESPONSIVE");
}

#[test]
fn discovery_filter() {
    let g = Some(gateway("ABC123", "1.2.3.4"));
    assert!(discovery_accepts(&None, &g));
    assert!(discovery_accepts(&Some("ABC123".to_string()), &g));
    assert!(!discovery_accepts(&Some("XYZ".to_string()), &g));
    assert!(!discovery_accepts(&None, &None));
}

#[test]
fn failures_that_mean_unresponsive() {
    assert!(is_unresponsive(&vec![FailureCause::Other, FailureCause::Connect]));
    assert!(is_unresponsive(&vec![FailureCause::Locked]));
    assert!(!is_unresponsive(&vec![FailureCause::Other]));
    assert!(!is_unresponsive(&vec![]));
}

#[test]
fn interpolation_never_goes_back() {
    for (s, g) in [(0u8, 100u8), (100, 0), (37, 38), (90, 90)] {
        let mut last = interpolate_pct(s, g, 0, 7000);
        for e in (0..8000u64).step_by(100) {
            let v = interpolate_pct(s, g, e, 7000);
            if s <= g {
                assert!(v >= last);
            } else {
                assert!(v <= last);
            }
            last = v;
        }
        assert_eq!(last, g);
    }
}
