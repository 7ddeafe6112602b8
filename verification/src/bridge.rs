//! The MQTT bridge to Home Assistant: topics, and the entities it registers
//! for the hub, its shades and its scenes.
use vstd::prelude::*;
use crate::hass::{
    config_msg, text_msg, with_deletes, law_deletes_in_steps, ButtonConfig,
    CoverConfig, Device, DeviceView, DiscoveryConfig, DiscoveryConfigView, EntityConfig,
    EntityConfigView, HassRegistration, Origin, RegEntryView, SceneConfig, SensorConfig,
};
use crate::text::{dec_int, dec_nat, push_dec, push_dec_i32};
use crate::types::{
    has_secondary_rail, GatewayConfig, PowerType, RoomData, Scene, ShadeData, ShadeFirmware,
};

verus! {

// ── Names and topics ─────────────────────────────────────────────────────────

/// The bridge's model name, which prefixes its topics.
pub open spec fn model() -> Seq<char> {
    "pv2mqtt"@
}

/// The suffix that addresses a shade's secondary rail.
pub open spec fn secondary_suffix() -> Seq<char> {
    "_middle"@
}

/// The id of a rail: the shade id, with `_middle` for the secondary rail.
pub open spec fn rail_id(shade_id: i32, secondary: bool) -> Seq<char> {
    if secondary {
        dec_int(shade_id as int) + secondary_suffix()
    } else {
        dec_int(shade_id as int)
    }
}

/// `pv2mqtt/shade/{serial}/{rail}/{leaf}`
pub open spec fn shade_topic(serial: Seq<char>, rail: Seq<char>, leaf: Seq<char>) -> Seq<char> {
    "pv2mqtt/shade/"@ + serial + "/"@ + rail + "/"@ + leaf
}

/// `pv2mqtt/sensor/{serial}/{id}/{leaf}`
pub open spec fn sensor_topic(serial: Seq<char>, shade_id: i32, leaf: Seq<char>) -> Seq<char> {
    "pv2mqtt/sensor/"@ + serial + "/"@ + dec_int(shade_id as int) + "/"@ + leaf
}

/// `{serial}-{id}`
pub open spec fn device_id(serial: Seq<char>, shade_id: i32) -> Seq<char> {
    serial + "-"@ + dec_int(shade_id as int)
}

/// `closed` at 0 %, `open` otherwise.
pub open spec fn open_closed(p: u8) -> Seq<char> {
    if p == 0 {
        "closed"@
    } else {
        "open"@
    }
}

/// The bridge's fixed settings: the hub's serial number and the discovery
/// prefix of Home Assistant.
#[derive(Clone, Debug)]
pub struct Pv2MqttState {
    pub serial: String,
    pub discovery_prefix: String,
}

fn cat2(a: &str, b: &str) -> (r: String)
    ensures
        r@ == a@ + b@,
{
    let mut r = String::from_str(a);
    r.append(b);
    r
}

fn cat3(a: &str, b: &str, c: &str) -> (r: String)
    ensures
        r@ == a@ + b@ + c@,
{
    let mut r = String::from_str(a);
    r.append(b);
    r.append(c);
    r
}

fn cat4(a: &str, b: &str, c: &str, d: &str) -> (r: String)
    ensures
        r@ == a@ + b@ + c@ + d@,
{
    let mut r = String::from_str(a);
    r.append(b);
    r.append(c);
    r.append(d);
    r
}

/// The id of a rail as text.
pub fn rail_id_text(shade_id: i32, secondary: bool) -> (r: String)
    ensures
        r@ == rail_id(shade_id, secondary),
{
    let mut r = String::new();
    push_dec_i32(&mut r, shade_id);
    if secondary {
        r.append("_middle");
    }
    assert(r@ =~= rail_id(shade_id, secondary));
    r
}

/// `pv2mqtt/shade/{serial}/{rail}/{leaf}`
pub fn shade_topic_text(serial: &str, rail: &str, leaf: &str) -> (r: String)
    ensures
        r@ == shade_topic(serial@, rail@, leaf@),
{
    let mut r = String::from_str("pv2mqtt/shade/");
    r.append(serial);
    r.append("/");
    r.append(rail);
    r.append("/");
    r.append(leaf);
    r
}

fn sensor_topic_text(serial: &str, shade_id: i32, leaf: &str) -> (r: String)
    ensures
        r@ == sensor_topic(serial@, shade_id, leaf@),
{
    let mut r = String::from_str("pv2mqtt/sensor/");
    r.append(serial);
    r.append("/");
    push_dec_i32(&mut r, shade_id);
    r.append("/");
    r.append(leaf);
    assert(r@ =~= sensor_topic(serial@, shade_id, leaf@));
    r
}

fn device_id_text(serial: &str, shade_id: i32) -> (r: String)
    ensures
        r@ == device_id(serial@, shade_id),
{
    let mut r = String::from_str(serial);
    r.append("-");
    push_dec_i32(&mut r, shade_id);
    assert(r@ =~= device_id(serial@, shade_id));
    r
}

fn percent_payload(p: u8) -> (r: String)
    ensures
        r@ == dec_nat(p as nat),
{
    let mut r = String::new();
    push_dec(&mut r, p as u64);
    assert(r@ =~= dec_nat(p as nat));
    r
}

fn open_closed_text(p: u8) -> (r: String)
    ensures
        r@ == open_closed(p),
{
    if p == 0 {
        String::from_str("closed")
    } else {
        String::from_str("open")
    }
}

impl Pv2MqttState {
    /// `pv2mqtt/sensor/{serial}/{id}/battery/availability`
    pub fn battery_availability_topic(&self, shade: &ShadeData) -> (r: String)
        ensures
            r@ == sensor_topic(self.serial@, shade.id, "battery/availability"@),
    {
        sensor_topic_text(self.serial.as_str(), shade.id, "battery/availability")
    }

    /// `pv2mqtt/sensor/{serial}-{id}-battery/state`
    pub fn battery_state_topic(&self, shade: &ShadeData) -> (r: String)
        ensures
            r@ == "pv2mqtt/sensor/"@ + device_id(self.serial@, shade.id) + "-battery/state"@,
    {
        let id = device_id_text(self.serial.as_str(), shade.id);
        cat3("pv2mqtt/sensor/", id.as_str(), "-battery/state")
    }

    /// `pv2mqtt/sensor/{serial}/{id}/psu/state`
    pub fn power_type_state_topic(&self, shade: &ShadeData) -> (r: String)
        ensures
            r@ == sensor_topic(self.serial@, shade.id, "psu/state"@),
    {
        sensor_topic_text(self.serial.as_str(), shade.id, "psu/state")
    }
}

/// The label of the power source sensor; unknown power types count as battery.
pub open spec fn power_label(p: PowerType) -> Seq<char> {
    match p {
        PowerType::Hardwired => "Hard Wired"@,
        PowerType::Rechargeable => "Rechargeable Battery"@,
        _ => "Battery"@,
    }
}

/// The state of the power source sensor for a power type.
pub fn power_type_to_state(power_type: PowerType) -> (r: &'static str)
    ensures
        r@ == power_label(power_type),
{
    match power_type {
        PowerType::Hardwired => "Hard Wired",
        PowerType::Battery => "Battery",
        PowerType::Rechargeable => "Rechargeable Battery",
        PowerType::Unknown(_) => "Battery",
    }
}

// ── Rooms by id ──────────────────────────────────────────────────────────────

/// The name of room `id`: the last room listed with that id, as collecting
/// the rooms into a map by id keeps.
pub open spec fn room_name(rooms: Seq<RoomData>, id: i32) -> Option<Seq<char>>
    decreases rooms.len(),
{
    if rooms.len() == 0 {
        None
    } else if rooms.last().id == id {
        Some(rooms.last().pt_name@)
    } else {
        room_name(rooms.drop_last(), id)
    }
}

/// The name of room `id`.
pub fn room_name_of(rooms: &Vec<RoomData>, id: i32) -> (r: Option<String>)
    ensures
        r.deep_view() == room_name(rooms@, id),
{
    let mut j: usize = rooms.len();
    assert(rooms@.take(j as int) =~= rooms@);
    while j > 0
        invariant
            j <= rooms@.len(),
            room_name(rooms@, id) == room_name(rooms@.take(j as int), id),
        decreases j,
    {
        let ghost t = rooms@.take(j as int);
        assert(t.drop_last() =~= rooms@.take(j - 1));
        if rooms[j - 1].id == id {
            assert(t.last() == rooms@[j - 1]);
            return Some(rooms[j - 1].pt_name.clone());
        }
        j = j - 1;
    }
    None
}

// ── Registering the hub ──────────────────────────────────────────────────────

/// The hub's device.
pub open spec fn hub_device(g: GatewayConfig, version: Seq<char>) -> DeviceView {
    let serial = g.serial_number@;
    let mac = g.network_status.primary_mac_address@;
    DeviceView {
        identifiers: seq!["pv2mqtt-"@ + serial, serial, mac],
        connections: seq![("mac"@, mac)],
        name: "PowerView Hub "@ + serial,
        manufacturer: "Wez Furlong"@,
        model: model(),
        sw_version: Some(version),
        suggested_area: None,
        via_device: None,
    }
}

/// The configuration of a diagnostic sensor of the hub.
pub open spec fn diagnostic_config(
    g: GatewayConfig,
    version: Seq<char>,
    name: Seq<char>,
    unique_id: Seq<char>,
) -> DiscoveryConfigView {
    DiscoveryConfigView::Sensor {
        base: EntityConfigView {
            name: Some(name),
            availability_topic: "pv2mqtt/sensor/"@ + unique_id + "/availability"@,
            device: hub_device(g, version),
            device_class: None,
            unique_id,
            entity_category: Some("diagnostic"@),
            icon: None,
        },
        state_topic: "pv2mqtt/sensor/"@ + unique_id + "/state"@,
        unit_of_measurement: None,
    }
}

/// The status value of the hub.
pub open spec fn responding_label(responding: bool) -> Seq<char> {
    if responding {
        "OK"@
    } else {
        "UNRESPONSIVE"@
    }
}

/// The configurations of the hub's diagnostic sensors.
pub open spec fn hub_configs(
    prefix: Seq<char>,
    g: GatewayConfig,
    version: Seq<char>,
) -> Seq<RegEntryView> {
    let ip_id = g.serial_number@ + "-hub-ip"@;
    let status_id = g.serial_number@ + "-responding"@;
    seq![
        config_msg(prefix + "/sensor/"@ + ip_id + "/config"@, diagnostic_config(g, version, "IP Address"@, ip_id)),
        config_msg(prefix + "/sensor/"@ + status_id + "/config"@, diagnostic_config(g, version, "Status"@, status_id)),
    ]
}

/// The availability and state updates of the hub's diagnostic sensors.
pub open spec fn hub_updates(g: GatewayConfig, responding: bool) -> Seq<RegEntryView> {
    let ip_id = g.serial_number@ + "-hub-ip"@;
    let status_id = g.serial_number@ + "-responding"@;
    seq![
        text_msg("pv2mqtt/sensor/"@ + ip_id + "/availability"@, "online"@),
        text_msg("pv2mqtt/sensor/"@ + ip_id + "/state"@, g.network_status.ip_address@),
        text_msg("pv2mqtt/sensor/"@ + status_id + "/availability"@, "online"@),
        text_msg("pv2mqtt/sensor/"@ + status_id + "/state"@, responding_label(responding)),
    ]
}

fn hub_device_exec(g: &GatewayConfig, version: &str) -> (r: Device)
    ensures
        r@ == hub_device(*g, version@),
{
    let serial = g.serial_number.as_str();
    let mac = g.network_status.primary_mac_address.as_str();
    let mut identifiers: Vec<String> = Vec::new();
    identifiers.push(cat2("pv2mqtt-", serial));
    identifiers.push(String::from_str(serial));
    identifiers.push(String::from_str(mac));
    let mut connections: Vec<(String, String)> = Vec::new();
    connections.push((String::from_str("mac"), String::from_str(mac)));
    let d = Device {
        identifiers,
        connections,
        name: cat2("PowerView Hub ", serial),
        manufacturer: String::from_str("Wez Furlong"),
        model: String::from_str("pv2mqtt"),
        sw_version: Some(String::from_str(version)),
        suggested_area: None,
        via_device: None,
    };
    assert(d@.identifiers =~= hub_device(*g, version@).identifiers);
    assert(d@.connections =~= hub_device(*g, version@).connections);
    d
}

/// Queues the configuration and the two updates of one diagnostic sensor.
fn register_diagnostic_entity(
    name: &str,
    unique_id: &str,
    value: String,
    g: &GatewayConfig,
    version: &str,
    state: &Pv2MqttState,
    reg: &mut HassRegistration,
)
    ensures
        final(reg)@.deletes == old(reg)@.deletes,
        final(reg)@.configs == old(reg)@.configs.push(
            config_msg(
                state.discovery_prefix@ + "/sensor/"@ + unique_id@ + "/config"@,
                diagnostic_config(*g, version@, name@, unique_id@),
            ),
        ),
        final(reg)@.updates == old(reg)@.updates + seq![
            text_msg("pv2mqtt/sensor/"@ + unique_id@ + "/availability"@, "online"@),
            text_msg("pv2mqtt/sensor/"@ + unique_id@ + "/state"@, value@),
        ],
{
    let config = SensorConfig {
        base: EntityConfig {
            name: Some(String::from_str(name)),
            availability_topic: cat3("pv2mqtt/sensor/", unique_id, "/availability"),
            device: hub_device_exec(g, version),
            device_class: None,
            origin: Origin::default_origin(),
            unique_id: String::from_str(unique_id),
            entity_category: Some(String::from_str("diagnostic")),
            icon: None,
        },
        state_topic: cat3("pv2mqtt/sensor/", unique_id, "/state"),
        unit_of_measurement: None,
    };
    let availability = config.base.availability_topic.clone();
    let state_topic = config.state_topic.clone();
    let config_topic = cat4(state.discovery_prefix.as_str(), "/sensor/", unique_id, "/config");
    reg.config(config_topic, DiscoveryConfig::Sensor(config));
    reg.update(availability, String::from_str("online"));
    reg.update(state_topic, value);
    assert(reg@.updates =~= old(reg)@.updates + seq![
        text_msg("pv2mqtt/sensor/"@ + unique_id@ + "/availability"@, "online"@),
        text_msg("pv2mqtt/sensor/"@ + unique_id@ + "/state"@, value@),
    ]);
}

/// Registers the hub's diagnostic sensors: its IP address and whether it responds.
pub fn register_hub(
    g: &GatewayConfig,
    responding: bool,
    version: &str,
    state: &Pv2MqttState,
    reg: &mut HassRegistration,
)
    ensures
        final(reg)@.deletes == old(reg)@.deletes,
        final(reg)@.configs == old(reg)@.configs + hub_configs(
            state.discovery_prefix@,
            *g,
            version@,
        ),
        final(reg)@.updates == old(reg)@.updates + hub_updates(*g, responding),
{
    let serial = g.serial_number.as_str();
    let ip_id = cat2(serial, "-hub-ip");
    register_diagnostic_entity(
        "IP Address",
        ip_id.as_str(),
        g.network_status.ip_address.clone(),
        g,
        version,
        state,
        reg,
    );
    let status_id = cat2(serial, "-responding");
    let value = if responding {
        String::from_str("OK")
    } else {
        String::from_str("UNRESPONSIVE")
    };
    register_diagnostic_entity("Status", status_id.as_str(), value, g, version, state, reg);
    assert(reg@.configs =~= old(reg)@.configs + hub_configs(
        state.discovery_prefix@,
        *g,
        version@,
    ));
    assert(reg@.updates =~= old(reg)@.updates + hub_updates(*g, responding));
}

// ── Registering a shade ──────────────────────────────────────────────────────

/// `{revision}.{sub_revision}.{build}`
pub open spec fn firmware_text(f: ShadeFirmware) -> Seq<char> {
    dec_int(f.revision as int) + "."@ + dec_int(f.sub_revision as int) + "."@ + dec_int(
        f.build as int,
    )
}

/// The device of a shade: named after its room when the room is known.
pub open spec fn shade_device(serial: Seq<char>, shade: ShadeData, rooms: Seq<RoomData>) -> DeviceView {
    let area = room_name(rooms, shade.room_id);
    DeviceView {
        identifiers: seq![device_id(serial, shade.id)],
        connections: Seq::empty(),
        name: match area {
            Some(room) => room + " "@ + shade.pt_name@,
            None => shade.pt_name@,
        },
        manufacturer: "Hunter Douglas"@,
        model: model(),
        sw_version: Some(firmware_text(shade.firmware)),
        suggested_area: area,
        via_device: Some("pv2mqtt-"@ + serial),
    }
}

/// The cover of one rail.
pub open spec fn cover_config(
    serial: Seq<char>,
    device: DeviceView,
    rail: Seq<char>,
    name: Option<Seq<char>>,
) -> DiscoveryConfigView {
    DiscoveryConfigView::Cover {
        base: EntityConfigView {
            name,
            availability_topic: shade_topic(serial, rail, "availability"@),
            device,
            device_class: Some("shade"@),
            unique_id: serial + "-"@ + rail,
            entity_category: None,
            icon: None,
        },
        command_topic: shade_topic(serial, rail, "command"@),
        position_topic: shade_topic(serial, rail, "position"@),
        set_position_topic: shade_topic(serial, rail, "set_position"@),
        state_topic: shade_topic(serial, rail, "state"@),
    }
}

/// The updates of one rail: online, then its position and state when known.
pub open spec fn rail_updates(serial: Seq<char>, rail: Seq<char>, pos: Option<u8>) -> Seq<RegEntryView> {
    seq![text_msg(shade_topic(serial, rail, "availability"@), "online"@)] + match pos {
        Some(p) => seq![
            text_msg(shade_topic(serial, rail, "position"@), dec_nat(p as nat)),
            text_msg(shade_topic(serial, rail, "state"@), open_closed(p)),
        ],
        None => Seq::empty(),
    }
}

/// A diagnostic sensor of a shade.
pub open spec fn diagnostic_sensor(
    device: DeviceView,
    unique_id: Seq<char>,
    name: Seq<char>,
    availability_topic: Seq<char>,
    device_class: Option<Seq<char>>,
    icon: Option<Seq<char>>,
    state_topic: Seq<char>,
    unit: Option<Seq<char>>,
) -> DiscoveryConfigView {
    DiscoveryConfigView::Sensor {
        base: EntityConfigView {
            name: Some(name),
            availability_topic,
            device,
            device_class,
            unique_id,
            entity_category: Some("diagnostic"@),
            icon,
        },
        state_topic,
        unit_of_measurement: unit,
    }
}

/// The deletions for a shade: its old cover topics (by shade id), jog,
/// battery, signal, and the power source as select and as sensor.
pub open spec fn shade_deletes(prefix: Seq<char>, serial: Seq<char>, shade: ShadeData) -> Seq<Seq<char>> {
    let dev = device_id(serial, shade.id);
    seq![prefix + "/cover/"@ + rail_id(shade.id, false) + "/config"@] + (if has_secondary_rail(
        shade.capabilities,
    ) {
        seq![prefix + "/cover/"@ + rail_id(shade.id, true) + "/config"@]
    } else {
        Seq::empty()
    }) + seq![
        prefix + "/button/"@ + dev + "-jog/config"@,
        prefix + "/sensor/"@ + dev + "-battery/config"@,
        prefix + "/sensor/"@ + dev + "-signal/config"@,
        prefix + "/select/"@ + dev + "-psu/config"@,
        prefix + "/sensor/"@ + dev + "-psu/config"@,
    ]
}

/// The configuration of a shade's jog button.
pub open spec fn jog_config(serial: Seq<char>, shade: ShadeData, device: DeviceView) -> DiscoveryConfigView {
    DiscoveryConfigView::Button {
        base: EntityConfigView {
            name: Some("Jog"@),
            availability_topic: shade_topic(serial, dec_int(shade.id as int), "jog/availability"@),
            device,
            device_class: None,
            unique_id: device_id(serial, shade.id) + "-jog"@,
            entity_category: Some("diagnostic"@),
            icon: None,
        },
        command_topic: shade_topic(serial, dec_int(shade.id as int), "command"@),
        payload_press: Some("JOG"@),
    }
}

/// The configuration of a shade's battery sensor.
pub open spec fn battery_config(serial: Seq<char>, shade: ShadeData, device: DeviceView) -> DiscoveryConfigView {
    diagnostic_sensor(
        device,
        device_id(serial, shade.id) + "-battery"@,
        "Battery"@,
        sensor_topic(serial, shade.id, "battery/availability"@),
        Some("battery"@),
        None,
        "pv2mqtt/sensor/"@ + device_id(serial, shade.id) + "-battery/state"@,
        Some("%"@),
    )
}

/// The configuration of a shade's signal strength sensor.
pub open spec fn signal_config(serial: Seq<char>, shade: ShadeData, device: DeviceView) -> DiscoveryConfigView {
    diagnostic_sensor(
        device,
        device_id(serial, shade.id) + "-signal"@,
        "Signal Strength"@,
        sensor_topic(serial, shade.id, "signal/availability"@),
        None,
        Some("mdi:signal"@),
        "pv2mqtt/sensor/"@ + device_id(serial, shade.id) + "-signal/state"@,
        Some("%"@),
    )
}

/// The configuration of a shade's power source sensor.
pub open spec fn psu_config(serial: Seq<char>, shade: ShadeData, device: DeviceView) -> DiscoveryConfigView {
    diagnostic_sensor(
        device,
        device_id(serial, shade.id) + "-psu"@,
        "Power Source"@,
        sensor_topic(serial, shade.id, "psu/availability"@),
        None,
        Some("mdi:power-plug-outline"@),
        sensor_topic(serial, shade.id, "psu/state"@),
        None,
    )
}

/// The configurations for a shade: a cover per rail, then jog, battery,
/// signal and power source.
pub open spec fn shade_configs(
    prefix: Seq<char>,
    serial: Seq<char>,
    shade: ShadeData,
    rooms: Seq<RoomData>,
) -> Seq<RegEntryView> {
    let device = shade_device(serial, shade, rooms);
    let dev = device_id(serial, shade.id);
    seq![
        config_msg(
            prefix + "/cover/"@ + serial + "-"@ + rail_id(shade.id, false) + "/config"@,
            cover_config(serial, device, rail_id(shade.id, false), None),
        ),
    ] + (if has_secondary_rail(shade.capabilities) {
        seq![
            config_msg(
                prefix + "/cover/"@ + serial + "-"@ + rail_id(shade.id, true) + "/config"@,
                cover_config(serial, device, rail_id(shade.id, true), Some(shade.pt_name@ + "_middle"@)),
            ),
        ]
    } else {
        Seq::empty()
    }) + seq![
        config_msg(prefix + "/button/"@ + dev + "-jog/config"@, jog_config(serial, shade, device)),
        config_msg(prefix + "/sensor/"@ + dev + "-battery/config"@, battery_config(serial, shade, device)),
        config_msg(prefix + "/sensor/"@ + dev + "-signal/config"@, signal_config(serial, shade, device)),
        config_msg(prefix + "/sensor/"@ + dev + "-psu/config"@, psu_config(serial, shade, device)),
    ]
}

/// Online and the value when a percentage is known, offline otherwise.
pub open spec fn percent_sensor_updates(
    availability: Seq<char>,
    state_topic: Seq<char>,
    pct: Option<u8>,
) -> Seq<RegEntryView> {
    match pct {
        Some(p) => seq![text_msg(availability, "online"@), text_msg(state_topic, dec_nat(p as nat))],
        None => seq![text_msg(availability, "offline"@)],
    }
}

/// The updates for a shade.
pub open spec fn shade_updates(serial: Seq<char>, shade: ShadeData) -> Seq<RegEntryView> {
    let dev = device_id(serial, shade.id);
    rail_updates(serial, rail_id(shade.id, false), shade.positions.primary) + (if has_secondary_rail(
        shade.capabilities,
    ) {
        rail_updates(serial, rail_id(shade.id, true), shade.positions.secondary)
    } else {
        Seq::empty()
    }) + seq![text_msg(shade_topic(serial, dec_int(shade.id as int), "jog/availability"@), "online"@)]
        + percent_sensor_updates(
        sensor_topic(serial, shade.id, "battery/availability"@),
        "pv2mqtt/sensor/"@ + dev + "-battery/state"@,
        match shade.battery_status {
            Some(b) => Some(crate::types::battery_percent_spec(b)),
            None => None,
        },
    ) + percent_sensor_updates(
        sensor_topic(serial, shade.id, "signal/availability"@),
        "pv2mqtt/sensor/"@ + dev + "-signal/state"@,
        shade.signal_percent,
    ) + seq![
        text_msg(sensor_topic(serial, shade.id, "psu/availability"@), "online"@),
        text_msg(sensor_topic(serial, shade.id, "psu/state"@), power_label(shade.power_type)),
    ]
}

fn shade_device_exec(serial: &str, shade: &ShadeData, rooms: &Vec<RoomData>) -> (r: Device)
    ensures
        r@ == shade_device(serial@, *shade, rooms@),
{
    let area = room_name_of(rooms, shade.room_id);
    let name = match &area {
        Some(room) => cat3(room.as_str(), " ", shade.pt_name.as_str()),
        None => shade.pt_name.clone(),
    };
    let mut fw = String::new();
    push_dec_i32(&mut fw, shade.firmware.revision);
    fw.append(".");
    push_dec_i32(&mut fw, shade.firmware.sub_revision);
    fw.append(".");
    push_dec_i32(&mut fw, shade.firmware.build);
    assert(fw@ =~= firmware_text(shade.firmware));
    let mut identifiers: Vec<String> = Vec::new();
    identifiers.push(device_id_text(serial, shade.id));
    let d = Device {
        identifiers,
        connections: Vec::new(),
        name,
        manufacturer: String::from_str("Hunter Douglas"),
        model: String::from_str("pv2mqtt"),
        sw_version: Some(fw),
        suggested_area: area,
        via_device: Some(cat2("pv2mqtt-", serial)),
    };
    assert(d@.identifiers =~= shade_device(serial@, *shade, rooms@).identifiers);
    assert(d@.connections =~= shade_device(serial@, *shade, rooms@).connections);
    d
}

fn register_rail(
    state: &Pv2MqttState,
    device: &Device,
    shade_id: i32,
    secondary: bool,
    name: Option<String>,
    pos: Option<u8>,
    reg: &mut HassRegistration,
)
    ensures
        final(reg)@.deletes == with_deletes(
            old(reg)@.deletes,
            seq![state.discovery_prefix@ + "/cover/"@ + rail_id(shade_id, secondary) + "/config"@],
        ),
        final(reg)@.configs == old(reg)@.configs.push(
            config_msg(
                state.discovery_prefix@ + "/cover/"@ + state.serial@ + "-"@ + rail_id(
                    shade_id,
                    secondary,
                ) + "/config"@,
                cover_config(state.serial@, device@, rail_id(shade_id, secondary), name.deep_view()),
            ),
        ),
        final(reg)@.updates == old(reg)@.updates + rail_updates(
            state.serial@,
            rail_id(shade_id, secondary),
            pos,
        ),
{
    let serial = state.serial.as_str();
    let prefix = state.discovery_prefix.as_str();
    let rail = rail_id_text(shade_id, secondary);
    let rail_s = rail.as_str();
    let config = CoverConfig {
        base: EntityConfig {
            unique_id: cat3(serial, "-", rail_s),
            name,
            availability_topic: shade_topic_text(serial, rail_s, "availability"),
            device_class: Some(String::from_str("shade")),
            origin: Origin::default_origin(),
            device: device.duplicate(),
            entity_category: None,
            icon: None,
        },
        command_topic: shade_topic_text(serial, rail_s, "command"),
        position_topic: shade_topic_text(serial, rail_s, "position"),
        set_position_topic: shade_topic_text(serial, rail_s, "set_position"),
        state_topic: shade_topic_text(serial, rail_s, "state"),
    };
    let availability = config.base.availability_topic.clone();
    reg.delete(cat4(prefix, "/cover/", rail_s, "/config"));
    let mut config_topic = cat4(prefix, "/cover/", serial, "-");
    config_topic.append(rail_s);
    config_topic.append("/config");
    reg.config(config_topic, DiscoveryConfig::Cover(config));
    reg.update(availability, String::from_str("online"));
    if let Some(p) = pos {
        reg.update(shade_topic_text(serial, rail_s, "position"), percent_payload(p));
        reg.update(shade_topic_text(serial, rail_s, "state"), open_closed_text(p));
    }
    assert(reg@.updates =~= old(reg)@.updates + rail_updates(
        state.serial@,
        rail_id(shade_id, secondary),
        pos,
    ));
}

fn register_sensor_updates(
    availability: String,
    state_topic: String,
    pct: Option<u8>,
    reg: &mut HassRegistration,
)
    ensures
        final(reg)@.deletes == old(reg)@.deletes,
        final(reg)@.configs == old(reg)@.configs,
        final(reg)@.updates == old(reg)@.updates + percent_sensor_updates(
            availability@,
            state_topic@,
            pct,
        ),
{
    match pct {
        Some(p) => {
            reg.update(availability, String::from_str("online"));
            reg.update(state_topic, percent_payload(p));
        },
        None => {
            reg.update(availability, String::from_str("offline"));
        },
    }
    assert(reg@.updates =~= old(reg)@.updates + percent_sensor_updates(
        availability@,
        state_topic@,
        pct,
    ));
}

fn sensor_entity(
    device: &Device,
    unique_id: String,
    name: &str,
    availability_topic: String,
    device_class: Option<String>,
    icon: Option<String>,
    state_topic: String,
    unit: Option<String>,
) -> (r: SensorConfig)
    ensures
        DiscoveryConfig::Sensor(r)@ == diagnostic_sensor(
            device@,
            unique_id@,
            name@,
            availability_topic@,
            device_class.deep_view(),
            icon.deep_view(),
            state_topic@,
            unit.deep_view(),
        ),
        r.base.availability_topic@ == availability_topic@,
        r.state_topic@ == state_topic@,
{
    SensorConfig {
        base: EntityConfig {
            unique_id,
            name: Some(String::from_str(name)),
            availability_topic,
            device_class,
            origin: Origin::default_origin(),
            device: device.duplicate(),
            entity_category: Some(String::from_str("diagnostic")),
            icon,
        },
        state_topic,
        unit_of_measurement: unit,
    }
}

fn register_jog(
    state: &Pv2MqttState,
    shade: &ShadeData,
    device: &Device,
    reg: &mut HassRegistration,
)
    ensures
        final(reg)@.deletes == with_deletes(
            old(reg)@.deletes,
            seq![state.discovery_prefix@ + "/button/"@ + device_id(state.serial@, shade.id) + "-jog/config"@],
        ),
        final(reg)@.configs == old(reg)@.configs.push(
            config_msg(
                state.discovery_prefix@ + "/button/"@ + device_id(state.serial@, shade.id) + "-jog/config"@,
                jog_config(state.serial@, *shade, device@),
            ),
        ),
        final(reg)@.updates == old(reg)@.updates.push(
            text_msg(shade_topic(state.serial@, dec_int(shade.id as int), "jog/availability"@), "online"@),
        ),
{
    let serial = state.serial.as_str();
    let prefix = state.discovery_prefix.as_str();
    let dev = device_id_text(serial, shade.id);
    let dev_s = dev.as_str();
    let id_text = rail_id_text(shade.id, false);
    let jog = ButtonConfig {
        base: EntityConfig {
            unique_id: cat2(dev_s, "-jog"),
            name: Some(String::from_str("Jog")),
            availability_topic: shade_topic_text(serial, id_text.as_str(), "jog/availability"),
            device_class: None,
            origin: Origin::default_origin(),
            device: device.duplicate(),
            entity_category: Some(String::from_str("diagnostic")),
            icon: None,
        },
        command_topic: shade_topic_text(serial, id_text.as_str(), "command"),
        payload_press: Some(String::from_str("JOG")),
    };
    let jog_availability = jog.base.availability_topic.clone();
    let jog_topic = cat4(prefix, "/button/", dev_s, "-jog/config");
    reg.delete(jog_topic.clone());
    reg.config(jog_topic, DiscoveryConfig::Button(jog));
    reg.update(jog_availability, String::from_str("online"));
}

/// Registers a diagnostic percentage sensor (battery or signal) of a shade.
fn register_percent_sensor(
    state: &Pv2MqttState,
    config_topic: String,
    config: SensorConfig,
    pct: Option<u8>,
    reg: &mut HassRegistration,
)
    ensures
        final(reg)@.deletes == with_deletes(old(reg)@.deletes, seq![config_topic@]),
        final(reg)@.configs == old(reg)@.configs.push(
            config_msg(config_topic@, DiscoveryConfig::Sensor(config)@),
        ),
        final(reg)@.updates == old(reg)@.updates + percent_sensor_updates(
            config.base.availability_topic@,
            config.state_topic@,
            pct,
        ),
{
    let availability = config.base.availability_topic.clone();
    let state_topic = config.state_topic.clone();
    reg.delete(config_topic.clone());
    reg.config(config_topic, DiscoveryConfig::Sensor(config));
    register_sensor_updates(availability, state_topic, pct, reg);
}

fn register_psu(
    state: &Pv2MqttState,
    shade: &ShadeData,
    device: &Device,
    reg: &mut HassRegistration,
)
    ensures
        final(reg)@.deletes == with_deletes(
            old(reg)@.deletes,
            seq![
                state.discovery_prefix@ + "/select/"@ + device_id(state.serial@, shade.id) + "-psu/config"@,
                state.discovery_prefix@ + "/sensor/"@ + device_id(state.serial@, shade.id) + "-psu/config"@,
            ],
        ),
        final(reg)@.configs == old(reg)@.configs.push(
            config_msg(
                state.discovery_prefix@ + "/sensor/"@ + device_id(state.serial@, shade.id) + "-psu/config"@,
                psu_config(state.serial@, *shade, device@),
            ),
        ),
        final(reg)@.updates == old(reg)@.updates + seq![
            text_msg(sensor_topic(state.serial@, shade.id, "psu/availability"@), "online"@),
            text_msg(sensor_topic(state.serial@, shade.id, "psu/state"@), power_label(shade.power_type)),
        ],
{
    let serial = state.serial.as_str();
    let prefix = state.discovery_prefix.as_str();
    let dev = device_id_text(serial, shade.id);
    let dev_s = dev.as_str();
    let psu = sensor_entity(
        device,
        cat2(dev_s, "-psu"),
        "Power Source",
        sensor_topic_text(serial, shade.id, "psu/availability"),
        None,
        Some(String::from_str("mdi:power-plug-outline")),
        state.power_type_state_topic(shade),
        None,
    );
    let psu_availability = psu.base.availability_topic.clone();
    let psu_state = psu.state_topic.clone();
    let select_topic = cat4(prefix, "/select/", dev_s, "-psu/config");
    let psu_topic = cat4(prefix, "/sensor/", dev_s, "-psu/config");
    reg.delete(select_topic);
    reg.delete(psu_topic.clone());
    proof {
        law_deletes_in_steps(
            old(reg)@.deletes,
            seq![prefix@ + "/select/"@ + dev@ + "-psu/config"@],
            seq![psu_topic@],
        );
        assert(seq![prefix@ + "/select/"@ + dev@ + "-psu/config"@] + seq![psu_topic@] =~= seq![
            prefix@ + "/select/"@ + dev@ + "-psu/config"@,
            psu_topic@,
        ]);
    }
    reg.config(psu_topic, DiscoveryConfig::Sensor(psu));
    reg.update(psu_availability, String::from_str("online"));
    reg.update(psu_state, String::from_str(power_type_to_state(shade.power_type)));
    assert(reg@.updates =~= old(reg)@.updates + seq![
        text_msg(sensor_topic(state.serial@, shade.id, "psu/availability"@), "online"@),
        text_msg(sensor_topic(state.serial@, shade.id, "psu/state"@), power_label(shade.power_type)),
    ]);
}

/// The three sequences of messages one shade adds.
pub open spec fn shade_registration(
    r: crate::hass::HassRegistrationView,
    prefix: Seq<char>,
    serial: Seq<char>,
    shade: ShadeData,
    rooms: Seq<RoomData>,
) -> crate::hass::HassRegistrationView {
    crate::hass::HassRegistrationView {
        deletes: with_deletes(r.deletes, shade_deletes(prefix, serial, shade)),
        configs: r.configs + shade_configs(prefix, serial, shade, rooms),
        updates: r.updates + shade_updates(serial, shade),
    }
}

/// Registers one shade: a cover for each rail, and its jog button, battery,
/// signal and power source entities.
pub fn register_shade(
    state: &Pv2MqttState,
    shade: &ShadeData,
    rooms: &Vec<RoomData>,
    reg: &mut HassRegistration,
)
    ensures
        final(reg)@ == shade_registration(
            old(reg)@,
            state.discovery_prefix@,
            state.serial@,
            *shade,
            rooms@,
        ),
{
    let serial = state.serial.as_str();
    let prefix = state.discovery_prefix.as_str();
    let ghost r0 = old(reg)@;
    let ghost prefix_v = state.discovery_prefix@;
    let ghost serial_v = state.serial@;
    let device = shade_device_exec(serial, shade, rooms);
    let secondary = shade.capabilities.has_secondary_rail();
    let ghost dv = device@;

    register_rail(state, &device, shade.id, false, None, shade.positions.primary, reg);
    let ghost p_del = seq![prefix_v + "/cover/"@ + rail_id(shade.id, false) + "/config"@];
    let ghost s_del = if secondary {
        seq![prefix_v + "/cover/"@ + rail_id(shade.id, true) + "/config"@]
    } else {
        Seq::<Seq<char>>::empty()
    };
    if secondary {
        let mut middle_name = shade.pt_name.clone();
        middle_name.append("_middle");
        register_rail(
            state,
            &device,
            shade.id,
            true,
            Some(middle_name),
            shade.positions.secondary,
            reg,
        );
        proof {
            law_deletes_in_steps(r0.deletes, p_del, s_del);
        }
    } else {
        assert(p_del + s_del =~= p_del);
    }
    let ghost r1 = reg@;
    assert(r1.deletes == with_deletes(r0.deletes, p_del + s_del));

    register_jog(state, shade, &device, reg);
    let ghost r2 = reg@;

    let dev = device_id_text(serial, shade.id);
    let dev_s = dev.as_str();
    let battery = sensor_entity(
        &device,
        cat2(dev_s, "-battery"),
        "Battery",
        state.battery_availability_topic(shade),
        Some(String::from_str("battery")),
        None,
        state.battery_state_topic(shade),
        Some(String::from_str("%")),
    );
    let battery_topic = cat4(prefix, "/sensor/", dev_s, "-battery/config");
    register_percent_sensor(state, battery_topic, battery, shade.battery_percent(), reg);
    let ghost r3 = reg@;

    let signal = sensor_entity(
        &device,
        cat2(dev_s, "-signal"),
        "Signal Strength",
        sensor_topic_text(serial, shade.id, "signal/availability"),
        None,
        Some(String::from_str("mdi:signal")),
        cat3("pv2mqtt/sensor/", dev_s, "-signal/state"),
        Some(String::from_str("%")),
    );
    let signal_topic = cat4(prefix, "/sensor/", dev_s, "-signal/config");
    register_percent_sensor(state, signal_topic, signal, shade.signal_strength_percent(), reg);
    let ghost r4 = reg@;

    register_psu(state, shade, &device, reg);

    proof {
        let dev_v = device_id(serial_v, shade.id);
        let jog_t = seq![prefix_v + "/button/"@ + dev_v + "-jog/config"@];
        let bat_t = seq![prefix_v + "/sensor/"@ + dev_v + "-battery/config"@];
        let sig_t = seq![prefix_v + "/sensor/"@ + dev_v + "-signal/config"@];
        let psu_t = seq![
            prefix_v + "/select/"@ + dev_v + "-psu/config"@,
            prefix_v + "/sensor/"@ + dev_v + "-psu/config"@,
        ];
        law_deletes_in_steps(r0.deletes, p_del + s_del, jog_t);
        law_deletes_in_steps(r0.deletes, p_del + s_del + jog_t, bat_t);
        law_deletes_in_steps(r0.deletes, p_del + s_del + jog_t + bat_t, sig_t);
        law_deletes_in_steps(r0.deletes, p_del + s_del + jog_t + bat_t + sig_t, psu_t);
        assert(p_del + s_del + jog_t + bat_t + sig_t + psu_t =~= shade_deletes(
            prefix_v,
            serial_v,
            *shade,
        ));
        assert(reg@.configs =~= r0.configs + shade_configs(prefix_v, serial_v, *shade, rooms@));
        assert(reg@.updates =~= r0.updates + shade_updates(serial_v, *shade));
    }
}

/// The registration after registering each shade in turn.
pub open spec fn shades_registration(
    r: crate::hass::HassRegistrationView,
    prefix: Seq<char>,
    serial: Seq<char>,
    shades: Seq<ShadeData>,
    rooms: Seq<RoomData>,
) -> crate::hass::HassRegistrationView
    decreases shades.len(),
{
    if shades.len() == 0 {
        r
    } else {
        shade_registration(
            shades_registration(r, prefix, serial, shades.drop_last(), rooms),
            prefix,
            serial,
            shades.last(),
            rooms,
        )
    }
}

/// Registers every shade, in the order given.
pub fn register_shades(
    state: &Pv2MqttState,
    shades: &Vec<ShadeData>,
    rooms: &Vec<RoomData>,
    reg: &mut HassRegistration,
)
    ensures
        final(reg)@ == shades_registration(
            old(reg)@,
            state.discovery_prefix@,
            state.serial@,
            shades@,
            rooms@,
        ),
{
    let ghost r0 = reg@;
    let mut i: usize = 0;
    while i < shades.len()
        invariant
            i <= shades@.len(),
            reg@ == shades_registration(
                r0,
                state.discovery_prefix@,
                state.serial@,
                shades@.take(i as int),
                rooms@,
            ),
        decreases shades.len() - i,
    {
        register_shade(state, &shades[i], rooms, reg);
        assert(shades@.take(i + 1).drop_last() =~= shades@.take(i as int));
        i = i + 1;
    }
    assert(shades@.take(i as int) =~= shades@);
}

// ── Registering scenes ───────────────────────────────────────────────────────

/// `{serial}-scene-{id}`
pub open spec fn scene_unique_id(serial: Seq<char>, scene_id: i32) -> Seq<char> {
    serial + "-scene-"@ + dec_int(scene_id as int)
}

/// `pv2mqtt/scene/{serial}/{id}/{leaf}`
pub open spec fn scene_topic(serial: Seq<char>, scene_id: i32, leaf: Seq<char>) -> Seq<char> {
    "pv2mqtt/scene/"@ + serial + "/"@ + dec_int(scene_id as int) + "/"@ + leaf
}

/// The room a scene is suggested for: that of its first room id, if known.
pub open spec fn scene_area(scene: Scene, rooms: Seq<RoomData>) -> Option<Seq<char>> {
    if scene.room_ids@.len() > 0 {
        room_name(rooms, scene.room_ids@[0])
    } else {
        None
    }
}

/// The configuration of a scene entity.
pub open spec fn scene_config(serial: Seq<char>, scene: Scene, rooms: Seq<RoomData>) -> DiscoveryConfigView {
    let uid = scene_unique_id(serial, scene.id);
    DiscoveryConfigView::Scene {
        base: EntityConfigView {
            name: None,
            availability_topic: scene_topic(serial, scene.id, "availability"@),
            device: DeviceView {
                identifiers: seq![uid],
                connections: Seq::empty(),
                name: scene.pt_name@,
                manufacturer: "Hunter Douglas"@,
                model: model(),
                sw_version: None,
                suggested_area: scene_area(scene, rooms),
                via_device: Some("pv2mqtt-"@ + serial),
            },
            device_class: None,
            unique_id: uid,
            entity_category: None,
            icon: None,
        },
        command_topic: scene_topic(serial, scene.id, "set"@),
        payload_on: "ON"@,
    }
}

/// The registration after registering one scene.
pub open spec fn scene_registration(
    r: crate::hass::HassRegistrationView,
    prefix: Seq<char>,
    serial: Seq<char>,
    scene: Scene,
    rooms: Seq<RoomData>,
) -> crate::hass::HassRegistrationView {
    let uid = scene_unique_id(serial, scene.id);
    crate::hass::HassRegistrationView {
        deletes: with_deletes(r.deletes, seq![prefix + "/scene/"@ + uid + "/config"@]),
        configs: r.configs.push(config_msg(prefix + "/scene/"@ + uid + "/config"@, scene_config(serial, scene, rooms))),
        updates: r.updates.push(text_msg(scene_topic(serial, scene.id, "availability"@), "online"@)),
    }
}

/// The registration after registering the scenes, in order.
pub open spec fn scenes_registration(
    r: crate::hass::HassRegistrationView,
    prefix: Seq<char>,
    serial: Seq<char>,
    scenes: Seq<Scene>,
    rooms: Seq<RoomData>,
) -> crate::hass::HassRegistrationView
    decreases scenes.len(),
{
    if scenes.len() == 0 {
        r
    } else {
        scene_registration(
            scenes_registration(r, prefix, serial, scenes.drop_last(), rooms),
            prefix,
            serial,
            scenes.last(),
            rooms,
        )
    }
}

fn scene_topic_text(serial: &str, scene_id: i32, leaf: &str) -> (r: String)
    ensures
        r@ == scene_topic(serial@, scene_id, leaf@),
{
    let mut r = String::from_str("pv2mqtt/scene/");
    r.append(serial);
    r.append("/");
    push_dec_i32(&mut r, scene_id);
    r.append("/");
    r.append(leaf);
    assert(r@ =~= scene_topic(serial@, scene_id, leaf@));
    r
}

/// Registers one scene as a Home Assistant scene entity.
pub fn register_scene(
    state: &Pv2MqttState,
    scene: &Scene,
    rooms: &Vec<RoomData>,
    reg: &mut HassRegistration,
)
    ensures
        final(reg)@ == scene_registration(
            old(reg)@,
            state.discovery_prefix@,
            state.serial@,
            *scene,
            rooms@,
        ),
{
    let serial = state.serial.as_str();
    let prefix = state.discovery_prefix.as_str();
    let mut uid = cat2(serial, "-scene-");
    push_dec_i32(&mut uid, scene.id);
    assert(uid@ =~= scene_unique_id(serial@, scene.id));
    let area = if scene.room_ids.len() > 0 {
        room_name_of(rooms, scene.room_ids[0])
    } else {
        None
    };
    let mut identifiers: Vec<String> = Vec::new();
    identifiers.push(uid.clone());
    let config = SceneConfig {
        base: EntityConfig {
            device: Device {
                suggested_area: area,
                identifiers,
                via_device: Some(cat2("pv2mqtt-", serial)),
                name: scene.pt_name.clone(),
                manufacturer: String::from_str("Hunter Douglas"),
                model: String::from_str("pv2mqtt"),
                connections: Vec::new(),
                sw_version: None,
            },
            availability_topic: scene_topic_text(serial, scene.id, "availability"),
            device_class: None,
            name: None,
            origin: Origin::default_origin(),
            unique_id: uid.clone(),
            entity_category: None,
            icon: None,
        },
        command_topic: scene_topic_text(serial, scene.id, "set"),
        payload_on: String::from_str("ON"),
    };
    assert(config.base.device@.identifiers =~= seq![uid@]);
    assert(config.base.device@.connections =~= Seq::<(Seq<char>, Seq<char>)>::empty());
    let availability = config.base.availability_topic.clone();
    let topic = cat3(prefix, "/scene/", uid.as_str());
    let mut topic = topic;
    topic.append("/config");
    reg.delete(topic.clone());
    reg.config(topic, DiscoveryConfig::Scene(config));
    reg.update(availability, String::from_str("online"));
}

/// Registers every scene, in the order given.
pub fn register_scenes(
    state: &Pv2MqttState,
    scenes: &Vec<Scene>,
    rooms: &Vec<RoomData>,
    reg: &mut HassRegistration,
)
    ensures
        final(reg)@ == scenes_registration(
            old(reg)@,
            state.discovery_prefix@,
            state.serial@,
            scenes@,
            rooms@,
        ),
{
    let ghost r0 = reg@;
    let mut i: usize = 0;
    while i < scenes.len()
        invariant
            i <= scenes@.len(),
            reg@ == scenes_registration(
                r0,
                state.discovery_prefix@,
                state.serial@,
                scenes@.take(i as int),
                rooms@,
            ),
        decreases scenes.len() - i,
    {
        register_scene(state, &scenes[i], rooms, reg);
        assert(scenes@.take(i + 1).drop_last() =~= scenes@.take(i as int));
        i = i + 1;
    }
    assert(scenes@.take(i as int) =~= scenes@);
}

// ── A full registration ──────────────────────────────────────────────────────

/// The registration after registering the hub's diagnostics.
pub open spec fn hub_registration(
    r: crate::hass::HassRegistrationView,
    prefix: Seq<char>,
    g: GatewayConfig,
    version: Seq<char>,
    responding: bool,
) -> crate::hass::HassRegistrationView {
    crate::hass::HassRegistrationView {
        deletes: r.deletes,
        configs: r.configs + hub_configs(prefix, g, version),
        updates: r.updates + hub_updates(g, responding),
    }
}

/// Everything to register with Home Assistant: the hub, then the shades
/// (with the rooms listed for them), then the scenes (with the rooms listed
/// for them).
pub fn register_with_hass(
    state: &Pv2MqttState,
    gateway: &GatewayConfig,
    responding: bool,
    version: &str,
    shades: &Vec<ShadeData>,
    shade_rooms: &Vec<RoomData>,
    scenes: &Vec<Scene>,
    scene_rooms: &Vec<RoomData>,
) -> (r: HassRegistration)
    ensures
        r@ == scenes_registration(
            shades_registration(
                hub_registration(
                    HassRegistration::new_view(),
                    state.discovery_prefix@,
                    *gateway,
                    version@,
                    responding,
                ),
                state.discovery_prefix@,
                state.serial@,
                shades@,
                shade_rooms@,
            ),
            state.discovery_prefix@,
            state.serial@,
            scenes@,
            scene_rooms@,
        ),
{
    let mut reg = HassRegistration::new();
    register_hub(gateway, responding, version, state, &mut reg);
    assert(reg@ == hub_registration(
        HassRegistration::new_view(),
        state.discovery_prefix@,
        *gateway,
        version@,
        responding,
    ));
    register_shades(state, shades, shade_rooms, &mut reg);
    register_scenes(state, scenes, scene_rooms, &mut reg);
    reg
}

} // verus!
