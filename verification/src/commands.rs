//! The command-line commands: what each one shows, and what it asks of the hub.
use vstd::prelude::*;
use crate::table::{table_column, render_table, rows_view, tabulated, ColumnAlign, TableColumn, TableError};
use crate::bridge::{firmware_text, room_name, room_name_of, Pv2MqttState};
use crate::hub::{only_primary, only_secondary, shade_path, Hub, HttpMethod, HubRequest, RequestBody};
use crate::text::{chars_of, dec_int, dec_nat, parse_u16, parse_u16_spec, push_dec, push_dec_i32};
use crate::types::{
    battery_percent_spec, describe_spec, has_secondary_rail, join_strings, join_with, percent_text,
    BatteryStatus, GatewayConfig, PowerType, RoomData, Scene, ShadeCapabilities, ShadeData,
    ShadeFirmware, ShadeUpdateMotion, ShadePosition,
};

verus! {

/// `"{p}%"`, or nothing when the rail is unknown.
pub open spec fn percent_or_empty(p: Option<u8>) -> Seq<char> {
    match p {
        Some(v) => percent_text(v),
        None => Seq::empty(),
    }
}

// ── list-shades ──────────────────────────────────────────────────────────────

/// List shades and their current positions.
pub struct ListShadesCommand {
    /// Only list the shades of this room (a name or an id).
    pub room: Option<String>,
}

/// The columns of the shade list.
pub open spec fn list_shades_columns() -> Seq<(Seq<char>, ColumnAlign)> {
    seq![("ROOM"@, ColumnAlign::Left), ("SHADE"@, ColumnAlign::Left), ("POSITION"@, ColumnAlign::Right)]
}

/// The rows of one shade in a room: its primary rail, then its middle rail
/// when it has one.
pub open spec fn shade_rows(room: RoomData, shade: ShadeData) -> Seq<Seq<Seq<char>>> {
    seq![seq![room.pt_name@, shade.pt_name@, percent_or_empty(shade.positions.primary)]]
        + if has_secondary_rail(shade.capabilities) {
        seq![
            seq![
                room.pt_name@,
                shade.pt_name@ + " Middle Rail"@,
                percent_or_empty(shade.positions.secondary),
            ],
        ]
    } else {
        Seq::empty()
    }
}

/// The rows of the shades of one room, in the order of the shades.
pub open spec fn room_rows(room: RoomData, shades: Seq<ShadeData>) -> Seq<Seq<Seq<char>>>
    decreases shades.len(),
{
    if shades.len() == 0 {
        Seq::empty()
    } else {
        room_rows(room, shades.drop_last()) + if shades.last().room_id == room.id {
            shade_rows(room, shades.last())
        } else {
            Seq::empty()
        }
    }
}

/// The shade list: room by room, in the order of the rooms, the rows of the
/// shades in that room.
pub open spec fn list_shades_table(rooms: Seq<RoomData>, shades: Seq<ShadeData>) -> Seq<Seq<Seq<char>>>
    decreases rooms.len(),
{
    if rooms.len() == 0 {
        Seq::empty()
    } else {
        list_shades_table(rooms.drop_last(), shades) + room_rows(rooms.last(), shades)
    }
}

fn push_shade_rows(room: &RoomData, shade: &ShadeData, out: &mut Vec<Vec<String>>)
    ensures
        rows_view(final(out)@) == rows_view(old(out)@) + shade_rows(*room, *shade),
{
    let mut row: Vec<String> = Vec::new();
    row.push(room.pt_name.clone());
    row.push(shade.pt_name.clone());
    row.push(shade.positions.describe_pos1());
    assert(row.deep_view() =~= seq![room.pt_name@, shade.pt_name@, percent_or_empty(shade.positions.primary)]);
    out.push(row);
    if shade.capabilities.has_secondary_rail() {
        let mut name = shade.pt_name.clone();
        name.append(" Middle Rail");
        let mut row2: Vec<String> = Vec::new();
        row2.push(room.pt_name.clone());
        row2.push(name);
        row2.push(shade.positions.describe_pos2());
        assert(row2.deep_view() =~= seq![
            room.pt_name@,
            shade.pt_name@ + " Middle Rail"@,
            percent_or_empty(shade.positions.secondary),
        ]);
        out.push(row2);
    }
    assert(rows_view(out@) =~= rows_view(old(out)@) + shade_rows(*room, *shade));
}

impl ListShadesCommand {
    /// The columns: ROOM and SHADE aligned left, POSITION aligned right.
    pub fn columns() -> (r: Vec<TableColumn>)
        ensures
            crate::table::columns_view(r@) == list_shades_columns(),
    {
        let mut c: Vec<TableColumn> = Vec::new();
        c.push(table_column("ROOM", ColumnAlign::Left));
        c.push(table_column("SHADE", ColumnAlign::Left));
        c.push(table_column("POSITION", ColumnAlign::Right));
        assert(crate::table::columns_view(c@) =~= list_shades_columns());
        c
    }

    /// The rows of the shade list, for the rooms (sorted by name) and the
    /// shades to list (sorted by name, of the chosen room only when one was
    /// chosen).
    pub fn rows(rooms: &Vec<RoomData>, shades: &Vec<ShadeData>) -> (r: Vec<Vec<String>>)
        ensures
            rows_view(r@) == list_shades_table(rooms@, shades@),
    {
        let mut out: Vec<Vec<String>> = Vec::new();
        let mut i: usize = 0;
        while i < rooms.len()
            invariant
                i <= rooms@.len(),
                rows_view(out@) == list_shades_table(rooms@.take(i as int), shades@),
            decreases rooms.len() - i,
        {
            let ghost before = rows_view(out@);
            let room = &rooms[i];
            let mut j: usize = 0;
            while j < shades.len()
                invariant
                    j <= shades@.len(),
                    *room == rooms@[i as int],
                    rows_view(out@) == before + room_rows(*room, shades@.take(j as int)),
                decreases shades.len() - j,
            {
                let ghost mid = rows_view(out@);
                assert(shades@.take(j + 1).drop_last() =~= shades@.take(j as int));
                if shades[j].room_id == room.id {
                    push_shade_rows(room, &shades[j], &mut out);
                }
                assert(rows_view(out@) =~= before + room_rows(*room, shades@.take(j + 1)));
                j = j + 1;
            }
            assert(shades@.take(shades@.len() as int) =~= shades@);
            assert(rooms@.take(i + 1).drop_last() =~= rooms@.take(i as int));
            i = i + 1;
        }
        assert(rooms@.take(rooms@.len() as int) =~= rooms@);
        out
    }

    /// The shade list laid out as a table; this always succeeds.
    pub fn render(rows: &Vec<Vec<String>>) -> (r: Result<String, TableError>)
        ensures
            r is Ok,
            r matches Ok(s) ==> s@ == tabulated(list_shades_columns(), rows_view(rows@)),
    {
        render_table(&Self::columns(), rows)
    }
}

// ── list-scenes ──────────────────────────────────────────────────────────────

/// List scenes and their associated rooms.
pub struct ListScenesCommand {
    /// Only list the scenes of this room (a name or an id).
    pub room: Option<String>,
}

/// The columns of the scene list.
pub open spec fn list_scenes_columns() -> Seq<(Seq<char>, ColumnAlign)> {
    seq![("SCENE"@, ColumnAlign::Left), ("ROOMS"@, ColumnAlign::Left)]
}

/// The names of the rooms with these ids, in order, leaving out ids of no
/// listed room.
pub open spec fn room_names(ids: Seq<i32>, rooms: Seq<RoomData>) -> Seq<Seq<char>>
    decreases ids.len(),
{
    if ids.len() == 0 {
        Seq::empty()
    } else {
        room_names(ids.drop_last(), rooms) + match room_name(rooms, ids.last()) {
            Some(n) => seq![n],
            None => Seq::empty(),
        }
    }
}

/// A scene's row: its name and its rooms' names separated by `, `.
pub open spec fn scene_row(scene: Scene, rooms: Seq<RoomData>) -> Seq<Seq<char>> {
    seq![scene.pt_name@, join_with(room_names(scene.room_ids@, rooms), ", "@)]
}

/// The scene list: one row per scene, in order.
pub open spec fn list_scenes_table(scenes: Seq<Scene>, rooms: Seq<RoomData>) -> Seq<Seq<Seq<char>>> {
    scenes.map_values(|s: Scene| scene_row(s, rooms))
}

/// Whether a scene is in a room.
pub open spec fn scene_in_room(s: Scene, room_id: i32) -> bool {
    s.room_ids@.contains(room_id)
}

fn contains_id(ids: &Vec<i32>, id: i32) -> (r: bool)
    ensures
        r == ids@.contains(id),
{
    let mut i: usize = 0;
    while i < ids.len()
        invariant
            i <= ids@.len(),
            forall|k: int| 0 <= k < i ==> ids@[k] != id,
        decreases ids.len() - i,
    {
        if ids[i] == id {
            assert(ids@[i as int] == id);
            return true;
        }
        i = i + 1;
    }
    false
}

fn names_of_rooms(ids: &Vec<i32>, rooms: &Vec<RoomData>) -> (r: Vec<String>)
    ensures
        r.deep_view() == room_names(ids@, rooms@),
{
    let mut out: Vec<String> = Vec::new();
    let mut i: usize = 0;
    while i < ids.len()
        invariant
            i <= ids@.len(),
            out.deep_view() == room_names(ids@.take(i as int), rooms@),
        decreases ids.len() - i,
    {
        assert(ids@.take(i + 1).drop_last() =~= ids@.take(i as int));
        let ghost before = out.deep_view();
        match room_name_of(rooms, ids[i]) {
            Some(n) => {
                out.push(n);
            },
            None => {},
        }
        assert(out.deep_view() =~= room_names(ids@.take(i + 1), rooms@));
        i = i + 1;
    }
    assert(ids@.take(ids@.len() as int) =~= ids@);
    out
}

impl ListScenesCommand {
    /// The columns: SCENE and ROOMS, both aligned left.
    pub fn columns() -> (r: Vec<TableColumn>)
        ensures
            crate::table::columns_view(r@) == list_scenes_columns(),
    {
        let mut c: Vec<TableColumn> = Vec::new();
        c.push(table_column("SCENE", ColumnAlign::Left));
        c.push(table_column("ROOMS", ColumnAlign::Left));
        assert(crate::table::columns_view(c@) =~= list_scenes_columns());
        c
    }

    /// The scenes of one room, in order.
    pub fn in_room(scenes: Vec<Scene>, room_id: i32) -> (r: Vec<Scene>)
        ensures
            r@ == scenes@.filter(|s: Scene| scene_in_room(s, room_id)),
    {
        let ghost orig = scenes@;
        let ghost pred = |s: Scene| scene_in_room(s, room_id);
        let n = scenes.len();
        let mut pool = scenes;
        let mut kept: Vec<Scene> = Vec::new();
        let mut i: usize = 0;
        while pool.len() > 0
            invariant
                n == orig.len(),
                orig == orig.take(i as int) + pool@,
                i + pool@.len() == orig.len(),
                kept@ == orig.take(i as int).filter(pred),
                pred == (|s: Scene| scene_in_room(s, room_id)),
            decreases pool@.len(),
        {
            let x = pool.remove(0);
            let ghost prefix = orig.take(i as int);
            assert(orig.take(i + 1) =~= prefix.push(x));
            proof {
                prefix.lemma_filter_push(x, pred);
            }
            if contains_id(&x.room_ids, room_id) {
                kept.push(x);
            }
            i = i + 1;
            assert(orig =~= orig.take(i as int) + pool@);
        }
        assert(orig.take(i as int) =~= orig);
        kept
    }

    /// The rows of the scene list, for the scenes to list and the rooms
    /// (sorted by name; of rooms sharing an id, the last names it).
    pub fn rows(scenes: &Vec<Scene>, rooms: &Vec<RoomData>) -> (r: Vec<Vec<String>>)
        ensures
            rows_view(r@) == list_scenes_table(scenes@, rooms@),
    {
        let mut out: Vec<Vec<String>> = Vec::new();
        let mut i: usize = 0;
        while i < scenes.len()
            invariant
                i <= scenes@.len(),
                rows_view(out@) == list_scenes_table(scenes@.take(i as int), rooms@),
            decreases scenes.len() - i,
        {
            let scene = &scenes[i];
            let names = names_of_rooms(&scene.room_ids, rooms);
            let mut row: Vec<String> = Vec::new();
            row.push(scene.pt_name.clone());
            row.push(join_strings(&names, ", "));
            assert(row.deep_view() =~= scene_row(*scene, rooms@));
            let ghost prev = out@;
            out.push(row);
            assert(out@ =~= prev.push(row));
            assert(rows_view(out@) =~= rows_view(prev).push(scene_row(scenes@[i as int], rooms@)));
            assert(scenes@.take(i + 1) =~= scenes@.take(i as int).push(scenes@[i as int]));
            assert(list_scenes_table(scenes@.take(i + 1), rooms@) =~= list_scenes_table(
                scenes@.take(i as int),
                rooms@,
            ).push(scene_row(scenes@[i as int], rooms@)));
            i = i + 1;
        }
        assert(scenes@.take(scenes@.len() as int) =~= scenes@);
        out
    }

    /// The scene list laid out as a table; this always succeeds.
    pub fn render(rows: &Vec<Vec<String>>) -> (r: Result<String, TableError>)
        ensures
            r is Ok,
            r matches Ok(s) ==> s@ == tabulated(list_scenes_columns(), rows_view(rows@)),
    {
        render_table(&Self::columns(), rows)
    }
}

// ── Text helpers ─────────────────────────────────────────────────────────────

fn cat2(a: &str, b: &str) -> (r: String)
    ensures
        r@ == a@ + b@,
{
    let mut r = String::from_str(a);
    r.append(b);
    r
}

fn int_text(n: i32) -> (r: String)
    ensures
        r@ == dec_int(n as int),
{
    let mut r = String::new();
    push_dec_i32(&mut r, n);
    assert(r@ =~= dec_int(n as int));
    r
}

/// `{revision}.{sub_revision}.{build}`
fn firmware_string(f: &ShadeFirmware) -> (r: String)
    ensures
        r@ == firmware_text(*f),
{
    let mut r = String::new();
    push_dec_i32(&mut r, f.revision);
    r.append(".");
    push_dec_i32(&mut r, f.sub_revision);
    r.append(".");
    push_dec_i32(&mut r, f.build);
    assert(r@ =~= firmware_text(*f));
    r
}

// ── hub-info ─────────────────────────────────────────────────────────────────

/// Show diagnostic information for the hub.
pub struct HubInfoCommand {}

/// The lines that describe the hub.
pub open spec fn hub_info_lines(c: GatewayConfig) -> Seq<Seq<char>> {
    let fw = c.firmware.main_processor;
    seq![
        "Serial:    "@ + c.serial_number@,
        "Brand:     "@ + c.brand@,
        "Model:     "@ + c.model@,
        "Firmware:  "@ + dec_int(fw.revision as int) + "."@ + dec_int(fw.sub_revision as int) + "."@
            + dec_int(fw.build as int) + " ("@ + fw.name@ + ")"@,
        "IP:        "@ + c.network_status.ip_address@,
        "MAC:       "@ + c.network_status.primary_mac_address@,
    ]
}

impl HubInfoCommand {
    /// The lines that describe the hub, from its gateway data.
    pub fn report(config: &GatewayConfig) -> (r: Vec<String>)
        ensures
            r.deep_view() == hub_info_lines(*config),
    {
        let fw = &config.firmware.main_processor;
        let mut out: Vec<String> = Vec::new();
        out.push(cat2("Serial:    ", config.serial_number.as_str()));
        out.push(cat2("Brand:     ", config.brand.as_str()));
        out.push(cat2("Model:     ", config.model.as_str()));
        let mut f = String::from_str("Firmware:  ");
        push_dec_i32(&mut f, fw.revision);
        f.append(".");
        push_dec_i32(&mut f, fw.sub_revision);
        f.append(".");
        push_dec_i32(&mut f, fw.build);
        f.append(" (");
        f.append(fw.name.as_str());
        f.append(")");
        out.push(f);
        out.push(cat2("IP:        ", config.network_status.ip_address.as_str()));
        out.push(cat2("MAC:       ", config.network_status.primary_mac_address.as_str()));
        assert(out.deep_view() =~= hub_info_lines(*config));
        out
    }
}

// ── inspect-shade ────────────────────────────────────────────────────────────

/// Show diagnostic information about a shade.
pub struct InspectShadeCommand {
    /// The name or id of the shade to inspect; names are compared ignoring
    /// ASCII case.
    pub name: String,
}

/// The debug name of a capability code.
pub open spec fn capabilities_debug(c: ShadeCapabilities) -> Seq<char> {
    match c {
        ShadeCapabilities::BottomUp => "BottomUp"@,
        ShadeCapabilities::BottomUpTilt90 => "BottomUpTilt90"@,
        ShadeCapabilities::BottomUpTilt180 => "BottomUpTilt180"@,
        ShadeCapabilities::VerticalTilt180 => "VerticalTilt180"@,
        ShadeCapabilities::Vertical => "Vertical"@,
        ShadeCapabilities::TiltOnly180 => "TiltOnly180"@,
        ShadeCapabilities::TopDown => "TopDown"@,
        ShadeCapabilities::TopDownBottomUp => "TopDownBottomUp"@,
        ShadeCapabilities::DualOverlapped => "DualOverlapped"@,
        ShadeCapabilities::DualOverlappedTilt90 => "DualOverlappedTilt90"@,
        ShadeCapabilities::DuoliteTilt180 => "DuoliteTilt180"@,
        ShadeCapabilities::Illuminated => "Illuminated"@,
        ShadeCapabilities::Unknown(n) => "Unknown("@ + dec_int(n as int) + ")"@,
    }
}

/// The debug name of a power type.
pub open spec fn power_type_debug(p: PowerType) -> Seq<char> {
    match p {
        PowerType::Battery => "Battery"@,
        PowerType::Hardwired => "Hardwired"@,
        PowerType::Rechargeable => "Rechargeable"@,
        PowerType::Unknown(n) => "Unknown("@ + dec_int(n as int) + ")"@,
    }
}

/// The debug name of a battery status.
pub open spec fn battery_debug(b: BatteryStatus) -> Seq<char> {
    match b {
        BatteryStatus::NoPower => "NoPower"@,
        BatteryStatus::Low => "Low"@,
        BatteryStatus::Medium => "Medium"@,
        BatteryStatus::High => "High"@,
    }
}

/// The battery line names each status by its own name, so no two statuses
/// read alike, and the name agrees with the percentage shown beside it.
pub proof fn law_battery_names(b1: BatteryStatus, b2: BatteryStatus)
    ensures
        battery_debug(b1) == battery_debug(b2) ==> b1 == b2,
        battery_percent_spec(b1) == 0 ==> battery_debug(b1) == "NoPower"@,
        battery_percent_spec(b1) == 20 ==> battery_debug(b1) == "Low"@,
        battery_percent_spec(b1) == 50 ==> battery_debug(b1) == "Medium"@,
        battery_percent_spec(b1) == 100 ==> battery_debug(b1) == "High"@,
{
    reveal_strlit("NoPower");
    reveal_strlit("Low");
    reveal_strlit("Medium");
    reveal_strlit("High");
    assert("NoPower"@.len() == 7 && "Low"@.len() == 3 && "Medium"@.len() == 6 && "High"@.len() == 4);
}

fn capabilities_debug_text(c: ShadeCapabilities) -> (r: String)
    ensures
        r@ == capabilities_debug(c),
{
    match c {
        ShadeCapabilities::BottomUp => String::from_str("BottomUp"),
        ShadeCapabilities::BottomUpTilt90 => String::from_str("BottomUpTilt90"),
        ShadeCapabilities::BottomUpTilt180 => String::from_str("BottomUpTilt180"),
        ShadeCapabilities::VerticalTilt180 => String::from_str("VerticalTilt180"),
        ShadeCapabilities::Vertical => String::from_str("Vertical"),
        ShadeCapabilities::TiltOnly180 => String::from_str("TiltOnly180"),
        ShadeCapabilities::TopDown => String::from_str("TopDown"),
        ShadeCapabilities::TopDownBottomUp => String::from_str("TopDownBottomUp"),
        ShadeCapabilities::DualOverlapped => String::from_str("DualOverlapped"),
        ShadeCapabilities::DualOverlappedTilt90 => String::from_str("DualOverlappedTilt90"),
        ShadeCapabilities::DuoliteTilt180 => String::from_str("DuoliteTilt180"),
        ShadeCapabilities::Illuminated => String::from_str("Illuminated"),
        ShadeCapabilities::Unknown(n) => {
            let mut r = String::from_str("Unknown(");
            push_dec_i32(&mut r, n);
            r.append(")");
            assert(r@ =~= capabilities_debug(c));
            r
        },
    }
}

fn power_type_debug_text(p: PowerType) -> (r: String)
    ensures
        r@ == power_type_debug(p),
{
    match p {
        PowerType::Battery => String::from_str("Battery"),
        PowerType::Hardwired => String::from_str("Hardwired"),
        PowerType::Rechargeable => String::from_str("Rechargeable"),
        PowerType::Unknown(n) => {
            let mut r = String::from_str("Unknown(");
            push_dec_i32(&mut r, n);
            r.append(")");
            assert(r@ =~= power_type_debug(p));
            r
        },
    }
}

fn battery_debug_text(b: BatteryStatus) -> (r: String)
    ensures
        r@ == battery_debug(b),
{
    match b {
        BatteryStatus::NoPower => String::from_str("NoPower"),
        BatteryStatus::Low => String::from_str("Low"),
        BatteryStatus::Medium => String::from_str("Medium"),
        BatteryStatus::High => String::from_str("High"),
    }
}

/// The battery line: its status and percentage, or unavailable.
pub open spec fn battery_line(b: Option<BatteryStatus>) -> Seq<char> {
    match b {
        Some(s) => "Battery:       "@ + battery_debug(s) + " ("@ + dec_nat(battery_percent_spec(s) as nat)
            + "%)"@,
        None => "Battery:       unavailable"@,
    }
}

/// The signal line: the strength in dBm (as the caller rounded it) and as a
/// percentage (0 when unknown), or unavailable.
pub open spec fn signal_line(dbm: Option<Seq<char>>, percent: Option<u8>) -> Seq<char> {
    match dbm {
        Some(t) => "Signal:        "@ + t + " dBm ("@ + dec_nat(
            match percent {
                Some(p) => p as nat,
                None => 0nat,
            },
        ) + "%)"@,
        None => "Signal:        unavailable"@,
    }
}

/// The lines that describe a shade.
pub open spec fn inspect_lines(shade: ShadeData, dbm: Option<Seq<char>>) -> Seq<Seq<char>> {
    seq![
        "Name:          "@ + shade.pt_name@,
        "ID:            "@ + dec_int(shade.id as int),
        "Serial:        "@ + shade.serial_number@,
        "Room ID:       "@ + dec_int(shade.room_id as int),
        "Type:          "@ + dec_int(shade.shade_type as int),
        "Capabilities:  "@ + capabilities_debug(shade.capabilities),
        "Power Type:    "@ + power_type_debug(shade.power_type),
        battery_line(shade.battery_status),
        signal_line(dbm, shade.signal_percent),
        "Firmware:      "@ + firmware_text(shade.firmware),
        "Positions:     "@ + describe_spec(shade.positions),
    ]
}

impl InspectShadeCommand {
    /// The lines that describe a shade; `signal_dbm` is its signal strength
    /// in dBm, rounded to a whole number, when the hub reported one.
    pub fn report(shade: &ShadeData, signal_dbm: &Option<String>) -> (r: Vec<String>)
        ensures
            r.deep_view() == inspect_lines(*shade, signal_dbm.deep_view()),
    {
        let mut out: Vec<String> = Vec::new();
        out.push(cat2("Name:          ", shade.pt_name.as_str()));
        out.push(cat2("ID:            ", int_text(shade.id).as_str()));
        out.push(cat2("Serial:        ", shade.serial_number.as_str()));
        out.push(cat2("Room ID:       ", int_text(shade.room_id).as_str()));
        out.push(cat2("Type:          ", int_text(shade.shade_type).as_str()));
        out.push(cat2("Capabilities:  ", capabilities_debug_text(shade.capabilities).as_str()));
        out.push(cat2("Power Type:    ", power_type_debug_text(shade.power_type).as_str()));
        let battery = match shade.battery_status {
            Some(b) => {
                let mut l = String::from_str("Battery:       ");
                l.append(battery_debug_text(b).as_str());
                l.append(" (");
                let pct = match shade.battery_percent() {
                    Some(p) => p,
                    None => 0,
                };
                push_dec(&mut l, pct as u64);
                l.append("%)");
                assert(l@ =~= battery_line(shade.battery_status));
                l
            },
            None => String::from_str("Battery:       unavailable"),
        };
        out.push(battery);
        let signal = match signal_dbm {
            Some(t) => {
                let mut l = String::from_str("Signal:        ");
                l.append(t.as_str());
                l.append(" dBm (");
                let pct: u8 = match shade.signal_strength_percent() {
                    Some(p) => p,
                    None => 0,
                };
                push_dec(&mut l, pct as u64);
                l.append("%)");
                assert(l@ =~= signal_line(signal_dbm.deep_view(), shade.signal_percent));
                l
            },
            None => String::from_str("Signal:        unavailable"),
        };
        out.push(signal);
        out.push(cat2("Firmware:      ", firmware_string(&shade.firmware).as_str()));
        out.push(cat2("Positions:     ", shade.positions.describe().as_str()));
        assert(out.deep_view() =~= inspect_lines(*shade, signal_dbm.deep_view()));
        out
    }
}

// ── list-hubs ────────────────────────────────────────────────────────────────

/// Discover and list the hubs on the network.
pub struct ListHubsCommand {
    /// How long to wait for discovery to complete, in seconds.
    pub timeout: u64,
}

/// The line for a discovered hub: its address, serial number and MAC
/// address, or that it is not responding when it gave no gateway data.
pub open spec fn hub_line_spec(addr: Seq<char>, found: Option<(Seq<char>, Seq<char>)>) -> Seq<char> {
    match found {
        Some((serial, mac)) => addr + " SN="@ + serial + " MAC="@ + mac,
        None => addr + " (Not responding)"@,
    }
}

impl ListHubsCommand {
    /// The line for a discovered hub.
    pub fn hub_line(addr: &str, found: &Option<GatewayConfig>) -> (r: String)
        ensures
            r@ == hub_line_spec(
                addr@,
                match found {
                    Some(g) => Some((g.serial_number@, g.network_status.primary_mac_address@)),
                    None => None,
                },
            ),
    {
        let mut r = String::from_str(addr);
        match found {
            Some(g) => {
                r.append(" SN=");
                r.append(g.serial_number.as_str());
                r.append(" MAC=");
                r.append(g.network_status.primary_mac_address.as_str());
            },
            None => {
                r.append(" (Not responding)");
            },
        }
        r
    }
}

// ── move-shade ───────────────────────────────────────────────────────────────

/// Where to move a shade: a motion, or a position of one rail.
pub struct TargetPosition {
    pub motion: Option<ShadeUpdateMotion>,
    /// The primary rail position (0–100).
    pub percent: Option<u8>,
    /// The secondary (middle) rail position (0–100).
    pub secondary_percent: Option<u8>,
}

/// Move or set the position of a shade.
pub struct MoveShadeCommand {
    /// The name or id of the shade to move; names are compared ignoring
    /// ASCII case.
    pub name: String,
    pub target_position: TargetPosition,
}

/// No target was given.
#[derive(Clone, Copy, Debug, PartialEq, Eq, Structural)]
pub struct NoTargetError {}

impl NoTargetError {
    /// The text of the error.
    pub fn message(&self) -> (r: String)
        ensures
            r@ == "One of --motion, --percent, or --secondary-percent is required"@,
    {
        String::from_str("One of --motion, --percent, or --secondary-percent is required")
    }
}

/// The debug name of a motion.
pub open spec fn motion_debug(m: ShadeUpdateMotion) -> Seq<char> {
    match m {
        ShadeUpdateMotion::Down => "Down"@,
        ShadeUpdateMotion::Jog => "Jog"@,
        ShadeUpdateMotion::LeftTilt => "LeftTilt"@,
        ShadeUpdateMotion::RightTilt => "RightTilt"@,
        ShadeUpdateMotion::Stop => "Stop"@,
        ShadeUpdateMotion::Up => "Up"@,
    }
}

/// The motion that a move reports is the one whose request was sent: the
/// request that sets the primary rail to 100 % is reported as `Up`, to 0 %
/// as `Down`, the tilt to 0 % as `LeftTilt`, to 100 % as `RightTilt`, the
/// jog request as `Jog` and the stop request as `Stop`; and no two motions
/// are reported alike.
pub proof fn law_move_reports_the_motion_sent(
    hub: Hub,
    shade_id: i32,
    m: ShadeUpdateMotion,
    m2: ShadeUpdateMotion,
    req: HubRequest,
)
    requires
        hub.is_move_request(shade_id, m, req),
    ensures
        motion_debug(m) == motion_debug(m2) ==> m == m2,
        (req.body matches RequestBody::Positions(p) && p.primary == Some(100u8)) ==> motion_debug(m)
            == "Up"@,
        (req.body matches RequestBody::Positions(p) && p.primary == Some(0u8)) ==> motion_debug(m)
            == "Down"@,
        (req.body matches RequestBody::Positions(p) && p.tilt == Some(0u8)) ==> motion_debug(m)
            == "LeftTilt"@,
        (req.body matches RequestBody::Positions(p) && p.tilt == Some(100u8)) ==> motion_debug(m)
            == "RightTilt"@,
        req.body is Jog ==> motion_debug(m) == "Jog"@,
        req.body is StopIds ==> motion_debug(m) == "Stop"@,
{
    reveal_strlit("Down");
    reveal_strlit("Jog");
    reveal_strlit("LeftTilt");
    reveal_strlit("RightTilt");
    reveal_strlit("Stop");
    reveal_strlit("Up");
    assert("Down"@.len() == 4 && "Jog"@.len() == 3 && "LeftTilt"@.len() == 8 && "RightTilt"@.len() == 9
        && "Stop"@.len() == 4 && "Up"@.len() == 2);
    assert("Down"@[0] != "Stop"@[0]);
}

fn motion_debug_text(m: ShadeUpdateMotion) -> (r: String)
    ensures
        r@ == motion_debug(m),
{
    match m {
        ShadeUpdateMotion::Down => String::from_str("Down"),
        ShadeUpdateMotion::Jog => String::from_str("Jog"),
        ShadeUpdateMotion::LeftTilt => String::from_str("LeftTilt"),
        ShadeUpdateMotion::RightTilt => String::from_str("RightTilt"),
        ShadeUpdateMotion::Stop => String::from_str("Stop"),
        ShadeUpdateMotion::Up => String::from_str("Up"),
    }
}

/// `{name} (id={id})`
pub open spec fn shade_label(shade: ShadeData) -> Seq<char> {
    shade.pt_name@ + " (id="@ + dec_int(shade.id as int) + ")"@
}

/// What is printed once the hub took a position: e.g.
/// `Set Den (id=3) primary to 40%`.
pub open spec fn set_message(shade: ShadeData, rail: Seq<char>, p: u8) -> Seq<char> {
    "Set "@ + shade_label(shade) + " "@ + rail + " to "@ + dec_nat(p as nat) + "%"@
}

fn shade_label_text(shade: &ShadeData) -> (r: String)
    ensures
        r@ == shade_label(*shade),
{
    let mut r = shade.pt_name.clone();
    r.append(" (id=");
    push_dec_i32(&mut r, shade.id);
    r.append(")");
    assert(r@ =~= shade_label(*shade));
    r
}

fn set_message_text(shade: &ShadeData, rail: &str, p: u8) -> (r: String)
    ensures
        r@ == set_message(*shade, rail@, p),
{
    let mut r = String::from_str("Set ");
    r.append(shade_label_text(shade).as_str());
    r.append(" ");
    r.append(rail);
    r.append(" to ");
    push_dec(&mut r, p as u64);
    r.append("%");
    assert(r@ =~= set_message(*shade, rail@, p));
    r
}

impl MoveShadeCommand {
    /// The request that carries out the command on a shade, and what is
    /// printed once the hub took it. A motion comes first, then the primary
    /// position, then the secondary one; with none of them there is nothing
    /// to do.
    pub fn plan(&self, hub: &Hub, shade: &ShadeData) -> (r: Result<(HubRequest, String), NoTargetError>)
        ensures
            match self.target_position.motion {
                Some(m) => r matches Ok((req, msg)) && hub.is_move_request(shade.id, m, req)
                    && msg@ == "Sent "@ + motion_debug(m) + " to "@ + shade_label(*shade),
                None => match self.target_position.percent {
                    Some(p) => r matches Ok((req, msg)) && req.method == HttpMethod::Put
                        && req.url@ == hub.url_spec(shade_path(shade.id) + "/positions"@)
                        && (req.body matches RequestBody::Positions(q) && only_primary(q, p))
                        && msg@ == set_message(*shade, "primary"@, p),
                    None => match self.target_position.secondary_percent {
                        Some(p) => r matches Ok((req, msg)) && req.method == HttpMethod::Put
                            && req.url@ == hub.url_spec(shade_path(shade.id) + "/positions"@)
                            && (req.body matches RequestBody::Positions(q) && only_secondary(q, p))
                            && msg@ == set_message(*shade, "secondary"@, p),
                        None => r == Err::<(HubRequest, String), NoTargetError>(NoTargetError {}),
                    },
                },
            },
    {
        if let Some(m) = self.target_position.motion {
            let req = hub.move_shade(shade.id, m);
            let mut msg = String::from_str("Sent ");
            msg.append(motion_debug_text(m).as_str());
            msg.append(" to ");
            msg.append(shade_label_text(shade).as_str());
            assert(msg@ =~= "Sent "@ + motion_debug(m) + " to "@ + shade_label(*shade));
            Ok((req, msg))
        } else if let Some(p) = self.target_position.percent {
            let mut pos = ShadePosition::empty();
            pos.primary = Some(p);
            Ok((hub.set_shade_position(shade.id, pos), set_message_text(shade, "primary", p)))
        } else if let Some(p) = self.target_position.secondary_percent {
            let mut pos = ShadePosition::empty();
            pos.secondary = Some(p);
            Ok((hub.set_shade_position(shade.id, pos), set_message_text(shade, "secondary", p)))
        } else {
            Err(NoTargetError {})
        }
    }
}

// ── serve-mqtt ───────────────────────────────────────────────────────────────

/// Launch the bridge, adding the hub to Home Assistant.
pub struct ServeMqttCommand {
    /// The MQTT broker's host name or address (else `PV_MQTT_HOST`).
    pub host: Option<String>,
    /// The MQTT broker's port (else `PV_MQTT_PORT`, else 1883).
    pub port: Option<u16>,
    /// The user name for the broker (else `PV_MQTT_USER`).
    pub username: Option<String>,
    /// The password for the broker (else `PV_MQTT_PASSWORD`).
    pub password: Option<String>,
    /// Home Assistant's discovery prefix (by default `homeassistant`).
    pub discovery_prefix: String,
}

/// The values of the environment variables that the broker settings fall
/// back on, where they are set.
pub struct MqttEnvironment {
    pub host: Option<String>,
    pub port: Option<String>,
    pub user: Option<String>,
    pub password: Option<String>,
}

/// How to reach the MQTT broker.
#[derive(Clone, Debug)]
pub struct MqttSettings {
    pub host: String,
    pub port: u16,
    pub username: Option<String>,
    pub password: Option<String>,
}

/// Why the bridge cannot start.
#[derive(Clone, Copy, Debug, PartialEq, Eq, Structural)]
pub enum ServeError {
    /// No broker host was given.
    MissingHost,
    /// `PV_MQTT_PORT` is not a port number.
    BadPort,
    /// The hub gave no gateway data, so its serial number is unknown.
    NoSerial,
}

impl ServeError {
    /// The text of the error.
    pub fn message(&self) -> (r: String)
        ensures
            r@ == match self {
                ServeError::MissingHost => "specify the mqtt host either via the --host option or the PV_MQTT_HOST environment variable"@,
                ServeError::BadPort => "PV_MQTT_PORT is not a valid port number"@,
                ServeError::NoSerial => "Unable to determine the serial number of the hub. The hub is not responding correctly and may need to be restarted"@,
            },
    {
        match self {
            ServeError::MissingHost => String::from_str(
                "specify the mqtt host either via the --host option or the PV_MQTT_HOST environment variable",
            ),
            ServeError::BadPort => String::from_str("PV_MQTT_PORT is not a valid port number"),
            ServeError::NoSerial => String::from_str(
                "Unable to determine the serial number of the hub. The hub is not responding correctly and may need to be restarted",
            ),
        }
    }
}

/// The broker port when neither the option nor the environment gives one.
pub open spec fn default_mqtt_port() -> u16 {
    1883
}

/// The first of two values that is given.
pub open spec fn either(a: Option<Seq<char>>, b: Option<Seq<char>>) -> Option<Seq<char>> {
    match a {
        Some(x) => Some(x),
        None => b,
    }
}

fn either_string(a: &Option<String>, b: &Option<String>) -> (r: Option<String>)
    ensures
        r.deep_view() == either(a.deep_view(), b.deep_view()),
{
    match a {
        Some(x) => Some(x.clone()),
        None => match b {
            Some(y) => Some(y.clone()),
            None => None,
        },
    }
}

impl ServeMqttCommand {
    /// The broker settings: each option, else its environment variable; the
    /// port is 1883 when neither gives one. A missing host, or a port
    /// variable that is not a `u16`, is an error.
    pub fn settings(&self, env: &MqttEnvironment) -> (r: Result<MqttSettings, ServeError>)
        ensures
            either(self.host.deep_view(), env.host.deep_view()) is None ==> r == Err::<MqttSettings, ServeError>(ServeError::MissingHost),
            either(self.host.deep_view(), env.host.deep_view()) is Some ==> match self.port {
                Some(p) => r matches Ok(s) && s.port == p,
                None => match env.port {
                    None => r matches Ok(s) && s.port == default_mqtt_port(),
                    Some(t) => match parse_u16_spec(t@) {
                        Some(v) => r matches Ok(s) && s.port == v,
                        None => r == Err::<MqttSettings, ServeError>(ServeError::BadPort),
                    },
                },
            },
            r matches Ok(s) ==> Some(s.host@) == either(self.host.deep_view(), env.host.deep_view())
                && s.username.deep_view() == either(self.username.deep_view(), env.user.deep_view())
                && s.password.deep_view() == either(self.password.deep_view(), env.password.deep_view()),
    {
        let host = match either_string(&self.host, &env.host) {
            Some(h) => h,
            None => {
                return Err(ServeError::MissingHost);
            },
        };
        let port: u16 = match self.port {
            Some(p) => p,
            None => match &env.port {
                None => 1883,
                Some(t) => {
                    let chars = chars_of(t.as_str());
                    match parse_u16(&chars) {
                        Some(v) => v,
                        None => {
                            return Err(ServeError::BadPort);
                        },
                    }
                },
            },
        };
        Ok(MqttSettings {
            host,
            port,
            username: either_string(&self.username, &env.user),
            password: either_string(&self.password, &env.password),
        })
    }

    /// The bridge's settings for the hub, from the gateway data it answered;
    /// without it the hub's serial number is unknown.
    pub fn bridge_state(&self, gateway: &Option<GatewayConfig>) -> (r: Result<Pv2MqttState, ServeError>)
        ensures
            match gateway {
                Some(g) => r matches Ok(s) && s.serial@ == g.serial_number@
                    && s.discovery_prefix@ == self.discovery_prefix@,
                None => r == Err::<Pv2MqttState, ServeError>(ServeError::NoSerial),
            },
    {
        match gateway {
            Some(g) => Ok(Pv2MqttState {
                serial: g.serial_number.clone(),
                discovery_prefix: self.discovery_prefix.clone(),
            }),
            None => Err(ServeError::NoSerial),
        }
    }

    /// The topics the bridge subscribes to: Home Assistant's status, and the
    /// scene and shade commands (`:serial`, `:scene_id` and `:shade_id` stand
    /// for one topic level each).
    pub fn route_patterns(&self) -> (r: Vec<String>)
        ensures
            r.deep_view() == seq![
                self.discovery_prefix@ + "/status"@,
                "pv2mqtt/scene/:serial/:scene_id/set"@,
                "pv2mqtt/shade/:serial/:shade_id/set_position"@,
                "pv2mqtt/shade/:serial/:shade_id/command"@,
            ],
    {
        let mut r: Vec<String> = Vec::new();
        r.push(cat2(self.discovery_prefix.as_str(), "/status"));
        r.push(String::from_str("pv2mqtt/scene/:serial/:scene_id/set"));
        r.push(String::from_str("pv2mqtt/shade/:serial/:shade_id/set_position"));
        r.push(String::from_str("pv2mqtt/shade/:serial/:shade_id/command"));
        assert(r.deep_view() =~= seq![
            self.discovery_prefix@ + "/status"@,
            "pv2mqtt/scene/:serial/:scene_id/set"@,
            "pv2mqtt/shade/:serial/:shade_id/set_position"@,
            "pv2mqtt/shade/:serial/:shade_id/command"@,
        ]);
        r
    }
}

} // verus!
