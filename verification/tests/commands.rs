use pview::commands::{
    HubInfoCommand, InspectShadeCommand, ListHubsCommand, ListScenesCommand, ListShadesCommand,
    MoveShadeCommand, MqttEnvironment, NoTargetError, ServeError, ServeMqttCommand, TargetPosition,
};
use pview::hub::{HttpMethod, Hub, RequestBody};
use pview::table::{table_column, render_table, ColumnAlign};
use pview::types::{
    BatteryStatus, GatewayConfig, GatewayFirmware, GatewayFirmwareVersions, GatewayNetworkStatus,
    PowerType, RoomData, Scene, ShadeCapabilities, ShadeData, ShadeFirmware, ShadePosition,
    ShadeUpdateMotion,
};

fn gateway() -> GatewayConfig {
    GatewayConfig {
        serial_number: "ABC123".to_string(),
        brand: "Hunter Douglas".to_string(),
        model: "Gen3".to_string(),
        firmware: GatewayFirmwareVersions {
            main_processor: GatewayFirmware { name: "PowerView Hub".to_string(), revision: 3, sub_revision: 1, build: 472 },
        },
        network_status: GatewayNetworkStatus {
            ip_address: "192.168.1.5".to_string(),
            primary_mac_address: "00:26:74:aa:bb:cc".to_string(),
        },
    }
}

fn room(id: i32, name: &str) -> RoomData {
    RoomData { id, pt_name: name.to_string(), name: String::new(), color: String::new(), icon: String::new(), room_type: 0 }
}

fn scene(id: i32, name: &str, rooms: Vec<i32>) -> Scene {
    Scene {
        id,
        pt_name: name.to_string(),
        name: String::new(),
        color: String::new(),
        icon: String::new(),
        network_number: 0,
        room_ids: rooms,
    }
}

fn shade(id: i32, name: &str, room_id: i32, caps: ShadeCapabilities, primary: Option<u8>, secondary: Option<u8>) -> ShadeData {
    ShadeData {
        id,
        shade_type: 6,
        pt_name: name.to_string(),
        name: String::new(),
        capabilities: caps,
        power_type: PowerType::Battery,
        battery_status: Some(BatteryStatus::High),
        room_id,
        firmware: ShadeFirmware { revision: 2, sub_revision: 1, build: 7 },
        positions: ShadePosition { primary, secondary, tilt: None, velocity: None, eta_ms: None },
        signal_percent: Some(88),
        ble_name: String::new(),
        shade_group_ids: vec![],
        serial_number: "SN-9".to_string(),
    }
}

#[test]
fn hub_info_lines() {
    assert_eq!(
        HubInfoCommand::report(&gateway()),
        vec![
            "Serial:    ABC123",
            "Brand:     Hunter Douglas",
            "Model:     Gen3",
            "Firmware:  3.1.472 (PowerView Hub)",
            "IP:        192.168.1.5",
            "MAC:       00:26:74:aa:bb:cc",
        ]
    );
}

#[test]
fn inspect_shade_lines() {
    let s = shade(12, "Den", 3, ShadeCapabilities::TopDownBottomUp, Some(40), None);
    assert_eq!(
        InspectShadeCommand::report(&s, &Some("-56".to_string())),
        vec![
            "Name:          Den",
            "ID:            12",
            "Serial:        SN-9",
            "Room ID:       3",
            "Type:          6",
            "Capabilities:  TopDownBottomUp",
            "Power Type:    Battery",
            "Battery:       High (100%)",
            "Signal:        -56 dBm (88%)",
            "Firmware:      2.1.7",
            "Positions:     primary: 40%",
        ]
    );
}

#[test]
fn inspect_shade_without_battery_or_signal() {
    let mut s = shade(12, "Den", 3, ShadeCapabilities::Unknown(42), None, None);
    s.battery_status = None;
    s.signal_percent = None;
    s.power_type = PowerType::Unknown(5);
    let lines = InspectShadeCommand::report(&s, &None);
    assert_eq!(lines[5], "Capabilities:  Unknown(42)");
    assert_eq!(lines[6], "Power Type:    Unknown(5)");
    assert_eq!(lines[7], "Battery:       unavailable");
    assert_eq!(lines[8], "Signal:        unavailable");
    assert_eq!(lines[10], "Positions:     unknown");
    let cmd = InspectShadeCommand { name: "den".to_string() };
    assert_eq!(cmd.name, "den");
}

#[test]
fn hub_lines() {
    assert_eq!(
        ListHubsCommand::hub_line("192.168.1.5", &Some(gateway())),
        "192.168.1.5 SN=ABC123 MAC=00:26:74:aa:bb:cc"
    );
    assert_eq!(ListHubsCommand::hub_line("192.168.1.9", &None), "192.168.1.9 (Not responding)");
    let cmd = ListHubsCommand { timeout: 15 };
    assert_eq!(cmd.timeout, 15);
}

#[test]
fn shade_rows_grouped_by_room() {
    let rooms = Hub::list_rooms(vec![room(2, "Living"), room(1, "Den"), room(3, "Empty")]);
    let shades = Hub::list_shades(
        vec![
            shade(10, "Window", 2, ShadeCapabilities::BottomUp, Some(50), None),
            shade(11, "Door", 2, ShadeCapabilities::TopDownBottomUp, Some(0), None),
            shade(12, "Desk", 1, ShadeCapabilities::BottomUp, None, None),
            shade(13, "Lost", 9, ShadeCapabilities::BottomUp, Some(5), None),
        ],
        None,
    );
    let rows = ListShadesCommand::rows(&rooms, &shades);
    assert_eq!(
        rows,
        vec![
            vec!["Den", "Desk", ""],
            vec!["Living", "Door", "0%"],
            vec!["Living", "Door Middle Rail", ""],
            vec!["Living", "Window", "50%"],
        ]
    );
}

#[test]
fn shade_table_layout() {
    let rows = vec![vec!["Living".to_string(), "Blind".to_string(), "50%".to_string()]];
    let text = ListShadesCommand::render(&rows).unwrap();
    assert_eq!(text, "ROOM   SHADE POSITION\nLiving Blind      50%\n");
}

#[test]
fn scene_rows_and_filter() {
    let rooms = Hub::list_rooms(vec![room(1, "Den"), room(2, "Living")]);
    let scenes = Hub::list_scenes(vec![
        scene(5, "Morning", vec![2, 1, 77]),
        scene(6, "Night", vec![]),
        scene(7, "Den only", vec![1]),
    ]);
    let rows = ListScenesCommand::rows(&scenes, &rooms);
    assert_eq!(
        rows,
        vec![vec!["Den only", "Den"], vec!["Morning", "Living, Den"], vec!["Night", ""]]
    );
    let in_den = ListScenesCommand::in_room(scenes, 1);
    let ids: Vec<i32> = in_den.iter().map(|s| s.id).collect();
    assert_eq!(ids, vec![7, 5]);
    let cmd = ListScenesCommand { room: Some("Den".to_string()) };
    assert_eq!(cmd.room.as_deref(), Some("Den"));
}

#[test]
fn scene_table_layout() {
    let rows = vec![vec!["Morning".to_string(), "Living, Den".to_string()]];
    let text = ListScenesCommand::render(&rows).unwrap();
    assert_eq!(text, "SCENE   ROOMS      \nMorning Living, Den\n");
}

#[test]
fn centered_columns() {
    let cols = vec![table_column("AB", ColumnAlign::Center), table_column("C", ColumnAlign::Right)];
    let rows = vec![vec!["abcdef".to_string(), "x".to_string()]];
    assert_eq!(render_table(&cols, &rows).unwrap(), "  AB   C\nabcdef x\n");
}

fn move_cmd(motion: Option<ShadeUpdateMotion>, percent: Option<u8>, secondary: Option<u8>) -> MoveShadeCommand {
    MoveShadeCommand {
        name: "Den".to_string(),
        target_position: TargetPosition { motion, percent, secondary_percent: secondary },
    }
}

#[test]
fn move_with_a_motion() {
    let h = Hub::with_addr("10.0.0.2".to_string());
    let s = shade(12, "Den", 3, ShadeCapabilities::BottomUp, None, None);
    let (req, msg) = move_cmd(Some(ShadeUpdateMotion::Jog), Some(5), None).plan(&h, &s).unwrap();
    assert_eq!(req.url, "http://10.0.0.2/home/shades/12/motion");
    assert_eq!(msg, "Sent Jog to Den (id=12)");
    let (req, msg) = move_cmd(Some(ShadeUpdateMotion::Up), None, None).plan(&h, &s).unwrap();
    assert_eq!(req.url, "http://10.0.0.2/home/shades/12/positions");
    assert_eq!(msg, "Sent Up to Den (id=12)");
}

#[test]
fn move_to_a_position() {
    let h = Hub::with_addr("10.0.0.2".to_string());
    let s = shade(12, "Den", 3, ShadeCapabilities::BottomUp, None, None);
    let (req, msg) = move_cmd(None, Some(40), Some(10)).plan(&h, &s).unwrap();
    assert_eq!(req.method, HttpMethod::Put);
    assert_eq!(msg, "Set Den (id=12) primary to 40%");
    match req.body {
        RequestBody::Positions(p) => {
            assert_eq!(p.primary, Some(40));
            assert_eq!(p.secondary, None);
        }
        other => panic!("unexpected body {other:?}"),
    }
    let (req, msg) = move_cmd(None, None, Some(10)).plan(&h, &s).unwrap();
    assert_eq!(msg, "Set Den (id=12) secondary to 10%");
    match req.body {
        RequestBody::Positions(p) => {
            assert_eq!(p.secondary, Some(10));
            assert_eq!(p.primary, None);
        }
        other => panic!("unexpected body {other:?}"),
    }
}

#[test]
fn move_without_target() {
    let h = Hub::with_addr("10.0.0.2".to_string());
    let s = shade(12, "Den", 3, ShadeCapabilities::BottomUp, None, None);
    let err = move_cmd(None, None, None).plan(&h, &s).unwrap_err();
    assert_eq!(err, NoTargetError {});
    assert_eq!(err.message(), "One of --motion, --percent, or --secondary-percent is required");
}

fn serve(host: Option<&str>, port: Option<u16>) -> ServeMqttCommand {
    ServeMqttCommand {
        host: host.map(|h| h.to_string()),
        port,
        username: Some("me".to_string()),
        password: None,
        discovery_prefix: "homeassistant".to_string(),
    }
}

fn env(host: Option<&str>, port: Option<&str>) -> MqttEnvironment {
    MqttEnvironment {
        host: host.map(|h| h.to_string()),
        port: port.map(|p| p.to_string()),
        user: Some("env-user".to_string()),
        password: Some("SECRET-REDACTED".to_string()),
    }
}

#[test]
fn broker_settings_prefer_options() {
    let s = serve(Some("broker"), Some(8883)).settings(&env(Some("other"), Some("1"))).unwrap();
    assert_eq!(s.host, "broker");
    assert_eq!(s.port, 8883);
    assert_eq!(s.username.as_deref(), Some("me"));
    assert_eq!(s.password.as_deref(), Some("SECRET-REDACTED"));
}

#[test]
fn broker_settings_fall_back_on_environment() {
    let s = serve(None, None).settings(&env(Some("envhost"), Some("1884"))).unwrap();
    assert_eq!(s.host, "envhost");
    assert_eq!(s.port, 1884);
    let s = serve(None, None).settings(&env(Some("envhost"), None)).unwrap();
    assert_eq!(s.port, 1883);
}

#[test]
fn broker_settings_errors() {
    let e = serve(None, None).settings(&env(None, Some("1884"))).err().unwrap();
    assert_eq!(e, ServeError::MissingHost);
    assert_eq!(
        e.message(),
        "specify the mqtt host either via the --host option or the PV_MQTT_HOST environment variable"
    );
    let e = serve(Some("h"), None).settings(&env(None, Some("http"))).err().unwrap();
    assert_eq!(e, ServeError::BadPort);
}

#[test]
fn bridge_state_needs_the_serial() {
    let st = serve(Some("h"), None).bridge_state(&Some(gateway())).unwrap();
    assert_eq!(st.serial, "ABC123");
    assert_eq!(st.discovery_prefix, "homeassistant");
    let e = serve(Some("h"), None).bridge_state(&None).err().unwrap();
    assert_eq!(e, ServeError::NoSerial);
    assert!(e.message().starts_with("Unable to determine the serial number of the hub."));
}

#[test]
fn subscribed_topics() {
    assert_eq!(
        serve(None, None).route_patterns(),
        vec![
            "homeassistant/status",
            "pv2mqtt/scene/:serial/:scene_id/set",
            "pv2mqtt/shade/:serial/:shade_id/set_position",
            "pv2mqtt/shade/:serial/:shade_id/command",
        ]
    );
}
