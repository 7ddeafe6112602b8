use pview::bridge::{
    power_type_to_state, rail_id_text, register_hub, register_scenes, register_shade,
    register_with_hass, room_name_of, shade_topic_text, Pv2MqttState,
};
use pview::hass::{DiscoveryConfig, HassRegistration, Payload, RegEntry};
use pview::types::{
    BatteryStatus, GatewayConfig, GatewayFirmware, GatewayFirmwareVersions, GatewayNetworkStatus,
    PowerType, RoomData, Scene, ShadeCapabilities, ShadeData, ShadeFirmware, ShadePosition,
};

fn state() -> Pv2MqttState {
    Pv2MqttState { serial: "ABC123".to_string(), discovery_prefix: "homeassistant".to_string() }
}

fn gateway() -> GatewayConfig {
    GatewayConfig {
        serial_number: "ABC123".to_string(),
        brand: "HD".to_string(),
        model: "Pro".to_string(),
        firmware: GatewayFirmwareVersions {
            main_processor: GatewayFirmware { name: "PV Hub".to_string(), revision: 3, sub_revision: 1, build: 5 },
        },
        network_status: GatewayNetworkStatus {
            ip_address: "10.0.0.2".to_string(),
            primary_mac_address: "00:11:22".to_string(),
        },
    }
}

fn room(id: i32, name: &str) -> RoomData {
    RoomData { id, pt_name: name.to_string(), name: String::new(), color: String::new(), icon: String::new(), room_type: 0 }
}

fn shade(caps: ShadeCapabilities, primary: Option<u8>, secondary: Option<u8>) -> ShadeData {
    ShadeData {
        id: 7,
        shade_type: 8,
        pt_name: "Blind".to_string(),
        name: String::new(),
        capabilities: caps,
        power_type: PowerType::Rechargeable,
        battery_status: Some(BatteryStatus::Medium),
        room_id: 2,
        firmware: ShadeFirmware { revision: 2, sub_revision: 0, build: 11 },
        positions: ShadePosition { primary, secondary, tilt: None, velocity: None, eta_ms: None },
        signal_percent: None,
        ble_name: String::new(),
        shade_group_ids: vec![],
        serial_number: String::new(),
    }
}

fn entry_text(e: &RegEntry) -> String {
    match e {
        RegEntry::Delay(ms) => format!("delay {ms}"),
        RegEntry::Msg { topic, payload: Payload::Text(t) } => format!("{topic} = {t}"),
        RegEntry::Msg { topic, payload: Payload::Config(_) } => format!("{topic} = <config>"),
    }
}

fn texts(entries: &[RegEntry]) -> Vec<String> {
    entries.iter().map(entry_text).collect()
}

#[test]
fn topics_and_rail_ids() {
    assert_eq!(rail_id_text(7, false), "7");
    assert_eq!(rail_id_text(7, true), "7_middle");
    assert_eq!(shade_topic_text("ABC123", "7_middle", "position"), "pv2mqtt/shade/ABC123/7_middle/position");
    let st = state();
    let s = shade(ShadeCapabilities::BottomUp, None, None);
    assert_eq!(st.battery_availability_topic(&s), "pv2mqtt/sensor/ABC123/7/battery/availability");
    assert_eq!(st.battery_state_topic(&s), "pv2mqtt/sensor/ABC123-7-battery/state");
    assert_eq!(st.power_type_state_topic(&s), "pv2mqtt/sensor/ABC123/7/psu/state");
}

#[test]
fn power_labels() {
    assert_eq!(power_type_to_state(PowerType::Hardwired), "Hard Wired");
    assert_eq!(power_type_to_state(PowerType::Battery), "Battery");
    assert_eq!(power_type_to_state(PowerType::Rechargeable), "Rechargeable Battery");
    assert_eq!(power_type_to_state(PowerType::Unknown(9)), "Battery");
}

#[test]
fn last_room_with_an_id_names_it() {
    let rooms = vec![room(1, "Den"), room(2, "Attic"), room(1, "Study")];
    assert_eq!(room_name_of(&rooms, 1), Some("Study".to_string()));
    assert_eq!(room_name_of(&rooms, 2), Some("Attic".to_string()));
    assert_eq!(room_name_of(&rooms, 3), None);
}

#[test]
fn hub_registration_first_run() {
    let mut reg = HassRegistration::new();
    register_hub(&gateway(), true, "1.2.3", &state(), &mut reg);
    assert_eq!(reg.config_count(), 2);
    let plan = reg.apply_updates(true);
    assert_eq!(
        texts(&plan),
        vec![
            "homeassistant/sensor/ABC123-hub-ip/config = <config>",
            "homeassistant/sensor/ABC123-responding/config = <config>",
            "delay 60",
            "pv2mqtt/sensor/ABC123-hub-ip/availability = online",
            "pv2mqtt/sensor/ABC123-hub-ip/state = 10.0.0.2",
            "pv2mqtt/sensor/ABC123-responding/availability = online",
            "pv2mqtt/sensor/ABC123-responding/state = OK",
        ]
    );
    match &plan[0] {
        RegEntry::Msg { payload: Payload::Config(DiscoveryConfig::Sensor(c)), .. } => {
            assert_eq!(c.base.name.as_deref(), Some("IP Address"));
            assert_eq!(c.base.unique_id, "ABC123-hub-ip");
            assert_eq!(c.base.device.name, "PowerView Hub ABC123");
            assert_eq!(c.base.device.identifiers, vec!["pv2mqtt-ABC123", "ABC123", "00:11:22"]);
            assert_eq!(c.base.device.sw_version.as_deref(), Some("1.2.3"));
            assert_eq!(c.state_topic, "pv2mqtt/sensor/ABC123-hub-ip/state");
        }
        other => panic!("unexpected entry {other:?}"),
    }
}

#[test]
fn unresponsive_hub_status() {
    let mut reg = HassRegistration::new();
    register_hub(&gateway(), false, "1.2.3", &state(), &mut reg);
    let plan = reg.apply_updates(false);
    assert_eq!(texts(&plan).last().unwrap(), "pv2mqtt/sensor/ABC123-responding/state = UNRESPONSIVE");
}

#[test]
fn shade_with_middle_rail_registration() {
    let mut reg = HassRegistration::new();
    let s = shade(ShadeCapabilities::TopDownBottomUp, Some(0), Some(35));
    register_shade(&state(), &s, &vec![room(2, "Den")], &mut reg);
    let plan = reg.apply_updates(true);
    assert_eq!(
        texts(&plan),
        vec![
            "delay 4000",
            "homeassistant/cover/7/config = ",
            "homeassistant/cover/7_middle/config = ",
            "homeassistant/button/ABC123-7-jog/config = ",
            "homeassistant/sensor/ABC123-7-battery/config = ",
            "homeassistant/sensor/ABC123-7-signal/config = ",
            "homeassistant/select/ABC123-7-psu/config = ",
            "homeassistant/sensor/ABC123-7-psu/config = ",
            "homeassistant/cover/ABC123-7/config = <config>",
            "homeassistant/cover/ABC123-7_middle/config = <config>",
            "homeassistant/button/ABC123-7-jog/config = <config>",
            "homeassistant/sensor/ABC123-7-battery/config = <config>",
            "homeassistant/sensor/ABC123-7-signal/config = <config>",
            "homeassistant/sensor/ABC123-7-psu/config = <config>",
            "delay 180",
            "pv2mqtt/shade/ABC123/7/availability = online",
            "pv2mqtt/shade/ABC123/7/position = 0",
            "pv2mqtt/shade/ABC123/7/state = closed",
            "pv2mqtt/shade/ABC123/7_middle/availability = online",
            "pv2mqtt/shade/ABC123/7_middle/position = 35",
            "pv2mqtt/shade/ABC123/7_middle/state = open",
            "pv2mqtt/shade/ABC123/7/jog/availability = online",
            "pv2mqtt/sensor/ABC123/7/battery/availability = online",
            "pv2mqtt/sensor/ABC123-7-battery/state = 50",
            "pv2mqtt/sensor/ABC123/7/signal/availability = offline",
            "pv2mqtt/sensor/ABC123/7/psu/availability = online",
            "pv2mqtt/sensor/ABC123/7/psu/state = Rechargeable Battery",
        ]
    );
    match &plan[9] {
        RegEntry::Msg { payload: Payload::Config(DiscoveryConfig::Cover(c)), .. } => {
            assert_eq!(c.base.name.as_deref(), Some("Blind_middle"));
            assert_eq!(c.base.unique_id, "ABC123-7_middle");
            assert_eq!(c.base.device.name, "Den Blind");
            assert_eq!(c.base.device.suggested_area.as_deref(), Some("Den"));
            assert_eq!(c.base.device.sw_version.as_deref(), Some("2.0.11"));
            assert_eq!(c.base.device.via_device.as_deref(), Some("pv2mqtt-ABC123"));
            assert_eq!(c.command_topic, "pv2mqtt/shade/ABC123/7_middle/command");
            assert_eq!(c.set_position_topic, "pv2mqtt/shade/ABC123/7_middle/set_position");
        }
        other => panic!("unexpected entry {other:?}"),
    }
}

#[test]
fn later_runs_skip_deletes_and_pause() {
    let mut reg = HassRegistration::new();
    let s = shade(ShadeCapabilities::BottomUp, None, None);
    register_shade(&state(), &s, &vec![], &mut reg);
    let plan = texts(&reg.apply_updates(false));
    assert_eq!(plan.len(), 5 + 7);
    assert!(plan.iter().all(|t| !t.starts_with("delay") && !t.ends_with("= ")));
    assert_eq!(plan[5], "pv2mqtt/shade/ABC123/7/availability = online");
}

#[test]
fn deletes_share_one_pause() {
    let mut reg = HassRegistration::new();
    reg.delete("a".to_string());
    reg.delete("b".to_string());
    reg.update("t".to_string(), "v".to_string());
    let plan = texts(&reg.apply_updates(true));
    assert_eq!(plan, vec!["delay 4000", "a = ", "b = ", "t = v"]);
}

#[test]
fn scenes_registration() {
    let mut reg = HassRegistration::new();
    let scenes = vec![Scene {
        id: 4,
        pt_name: "Morning".to_string(),
        name: String::new(),
        color: String::new(),
        icon: String::new(),
        network_number: 0,
        room_ids: vec![2, 9],
    }];
    register_scenes(&state(), &scenes, &vec![room(2, "Den")], &mut reg);
    let plan = reg.apply_updates(true);
    assert_eq!(
        texts(&plan),
        vec![
            "delay 4000",
            "homeassistant/scene/ABC123-scene-4/config = ",
            "homeassistant/scene/ABC123-scene-4/config = <config>",
            "delay 30",
            "pv2mqtt/scene/ABC123/4/availability = online",
        ]
    );
    match &plan[2] {
        RegEntry::Msg { payload: Payload::Config(DiscoveryConfig::Scene(c)), .. } => {
            assert_eq!(c.command_topic, "pv2mqtt/scene/ABC123/4/set");
            assert_eq!(c.payload_on, "ON");
            assert_eq!(c.base.device.suggested_area.as_deref(), Some("Den"));
            assert_eq!(c.base.device.name, "Morning");
        }
        other => panic!("unexpected entry {other:?}"),
    }
}

#[test]
fn full_registration_orders_hub_shades_scenes() {
    let reg = register_with_hass(
        &state(),
        &gateway(),
        true,
        "0.1.0",
        &vec![shade(ShadeCapabilities::BottomUp, Some(100), None)],
        &vec![],
        &vec![],
        &vec![],
    );
    assert_eq!(reg.config_count(), 2 + 5);
    let plan = texts(&reg.apply_updates(false));
    assert_eq!(plan[0], "homeassistant/sensor/ABC123-hub-ip/config = <config>");
    assert_eq!(plan[2], "homeassistant/cover/ABC123-7/config = <config>");
    assert!(plan.contains(&"pv2mqtt/shade/ABC123/7/state = open".to_string()));
}

#[test]
fn queues_keep_call_order() {
    let mut reg = HassRegistration::new();
    reg.update("u1".to_string(), "1".to_string());
    reg.delete("a".to_string());
    reg.update("u2".to_string(), "2".to_string());
    reg.delete("b".to_string());
    let plan = texts(&reg.apply_updates(true));
    assert_eq!(plan, vec!["delay 4000", "a = ", "b = ", "u1 = 1", "u2 = 2"]);
    let empty = HassRegistration::new();
    assert!(empty.apply_updates(true).is_empty());
}
