//! Data model of the PowerView Gen 3 hub API.
//!
//! Positions are held as whole percentages of travel (0–100 for positions the
//! hub reports within its 0.0–1.0 range): every decision in this crate reads
//! positions only as percentages, and the hub accepts percentages back as
//! `pct / 100`. Estimated motion durations are held in milliseconds.
use vstd::prelude::*;
use crate::text::{dec_nat, push_dec, str_eq};

verus! {

// ── Rooms ────────────────────────────────────────────────────────────────────

/// A room as the hub lists it.
#[derive(Clone, Debug)]
pub struct RoomData {
    pub id: i32,
    pub pt_name: String,
    /// Base64 name, stored as the hub sent it.
    pub name: String,
    pub color: String,
    pub icon: String,
    pub room_type: i32,
}

// ── Scenes ───────────────────────────────────────────────────────────────────

/// A scene as the hub lists it.
#[derive(Clone, Debug)]
pub struct Scene {
    pub id: i32,
    pub pt_name: String,
    /// Base64 name, stored as the hub sent it.
    pub name: String,
    pub color: String,
    pub icon: String,
    pub network_number: i32,
    pub room_ids: Vec<i32>,
}

// ── Shade positions ──────────────────────────────────────────────────────────

/// Positions of a shade's rails, each a percentage of travel.
/// `None` leaves an axis out (a partial update, or an unknown position).
#[derive(Clone, Copy, Debug, PartialEq, Eq, Structural)]
pub struct ShadePosition {
    pub primary: Option<u8>,
    pub secondary: Option<u8>,
    pub tilt: Option<u8>,
    pub velocity: Option<u8>,
    /// Estimated time to reach this position, in milliseconds; only present
    /// in the target positions of a motion-started event.
    pub eta_ms: Option<u64>,
}

/// `"{p}%"`
pub open spec fn percent_text(p: u8) -> Seq<char> {
    dec_nat(p as nat) + "%"@
}

/// The text of one labelled axis, or nothing when the axis is absent.
pub open spec fn labelled_axis(label: Seq<char>, p: Option<u8>) -> Seq<Seq<char>> {
    match p {
        Some(v) => seq![label + ": "@ + percent_text(v)],
        None => Seq::empty(),
    }
}

/// The parts joined by `sep`.
pub open spec fn join_with(parts: Seq<Seq<char>>, sep: Seq<char>) -> Seq<char>
    decreases parts.len(),
{
    if parts.len() == 0 {
        Seq::empty()
    } else if parts.len() == 1 {
        parts[0]
    } else {
        join_with(parts.drop_last(), sep) + sep + parts.last()
    }
}

/// The describe text: labelled axes separated by ` / `, or `unknown`.
pub open spec fn describe_spec(p: ShadePosition) -> Seq<char> {
    let parts = labelled_axis("primary"@, p.primary) + labelled_axis("secondary"@, p.secondary)
        + labelled_axis("tilt"@, p.tilt);
    if parts.len() == 0 {
        "unknown"@
    } else {
        join_with(parts, " / "@)
    }
}

/// Joins the strings with `sep` between neighbours.
pub fn join_strings(parts: &Vec<String>, sep: &str) -> (r: String)
    ensures
        r@ == join_with(parts.deep_view(), sep@),
{
    let mut r = String::new();
    let mut i: usize = 0;
    while i < parts.len()
        invariant
            i <= parts@.len(),
            r@ == join_with(parts.deep_view().take(i as int), sep@),
        decreases parts.len() - i,
    {
        let ghost before = parts.deep_view().take(i as int);
        let ghost after = parts.deep_view().take(i + 1);
        assert(after.drop_last() =~= before);
        if i > 0 {
            r.append(sep);
        }
        r.append(parts[i].as_str());
        assert(r@ =~= join_with(after, sep@));
        i = i + 1;
    }
    assert(parts.deep_view().take(parts@.len() as int) =~= parts.deep_view());
    r
}

fn append_percent(s: &mut String, p: u8)
    ensures
        final(s)@ == old(s)@ + percent_text(p),
{
    push_dec(s, p as u64);
    s.append("%");
    assert(final(s)@ =~= old(s)@ + percent_text(p));
}

fn labelled_axis_text(label: &str, p: u8) -> (r: String)
    ensures
        r@ == label@ + ": "@ + percent_text(p),
{
    let mut r = String::from_str(label);
    r.append(": ");
    append_percent(&mut r, p);
    assert(r@ =~= label@ + ": "@ + percent_text(p));
    r
}

impl ShadePosition {
    /// A position that leaves every axis out.
    pub fn empty() -> (r: ShadePosition)
        ensures
            r.primary is None && r.secondary is None && r.tilt is None,
            r.velocity is None && r.eta_ms is None,
    {
        ShadePosition { primary: None, secondary: None, tilt: None, velocity: None, eta_ms: None }
    }

    /// Percentage of the primary rail.
    pub fn pos1_percent(&self) -> (r: Option<u8>)
        ensures
            r == self.primary,
    {
        self.primary
    }

    /// Percentage of the secondary (middle) rail.
    pub fn pos2_percent(&self) -> (r: Option<u8>)
        ensures
            r == self.secondary,
    {
        self.secondary
    }

    /// `"{p}%"` for the primary rail, or the empty string.
    pub fn describe_pos1(&self) -> (r: String)
        ensures
            r@ == (match self.primary {
                Some(p) => percent_text(p),
                None => Seq::empty(),
            }),
    {
        let mut r = String::new();
        if let Some(p) = self.primary {
            append_percent(&mut r, p);
        }
        r
    }

    /// `"{p}%"` for the secondary rail, or the empty string.
    pub fn describe_pos2(&self) -> (r: String)
        ensures
            r@ == (match self.secondary {
                Some(p) => percent_text(p),
                None => Seq::empty(),
            }),
    {
        let mut r = String::new();
        if let Some(p) = self.secondary {
            append_percent(&mut r, p);
        }
        r
    }

    /// e.g. `primary: 40% / tilt: 0%`, or `unknown` when no axis is known.
    pub fn describe(&self) -> (r: String)
        ensures
            r@ == describe_spec(*self),
    {
        let mut parts: Vec<String> = Vec::new();
        if let Some(p) = self.primary {
            parts.push(labelled_axis_text("primary", p));
        }
        if let Some(p) = self.secondary {
            parts.push(labelled_axis_text("secondary", p));
        }
        if let Some(p) = self.tilt {
            parts.push(labelled_axis_text("tilt", p));
        }
        let ghost expected = labelled_axis("primary"@, self.primary) + labelled_axis(
            "secondary"@,
            self.secondary,
        ) + labelled_axis("tilt"@, self.tilt);
        assert(parts.deep_view() =~= expected);
        if parts.len() == 0 {
            String::from_str("unknown")
        } else {
            join_strings(&parts, " / ")
        }
    }
}

// ── Firmware ─────────────────────────────────────────────────────────────────

/// A shade's firmware version.
#[derive(Clone, Copy, Debug, PartialEq, Eq, Structural)]
pub struct ShadeFirmware {
    pub revision: i32,
    pub sub_revision: i32,
    pub build: i32,
}

// ── Capabilities ─────────────────────────────────────────────────────────────

/// What a shade can do, as the hub codes it.
#[derive(Clone, Copy, Debug, PartialEq, Eq, Structural)]
pub enum ShadeCapabilities {
    BottomUp,
    BottomUpTilt90,
    BottomUpTilt180,
    VerticalTilt180,
    Vertical,
    TiltOnly180,
    TopDown,
    TopDownBottomUp,
    DualOverlapped,
    DualOverlappedTilt90,
    DuoliteTilt180,
    Illuminated,
    /// A code this crate does not know; it has no flags.
    Unknown(i32),
}

/// The capability for a hub code.
pub open spec fn capabilities_from_code_spec(v: i32) -> ShadeCapabilities {
    if v == 0 {
        ShadeCapabilities::BottomUp
    } else if v == 1 {
        ShadeCapabilities::BottomUpTilt90
    } else if v == 2 {
        ShadeCapabilities::BottomUpTilt180
    } else if v == 3 {
        ShadeCapabilities::VerticalTilt180
    } else if v == 4 {
        ShadeCapabilities::Vertical
    } else if v == 5 {
        ShadeCapabilities::TiltOnly180
    } else if v == 6 {
        ShadeCapabilities::TopDown
    } else if v == 7 {
        ShadeCapabilities::TopDownBottomUp
    } else if v == 8 {
        ShadeCapabilities::DualOverlapped
    } else if v == 9 {
        ShadeCapabilities::DualOverlappedTilt90
    } else if v == 10 {
        ShadeCapabilities::DuoliteTilt180
    } else if v == 11 {
        ShadeCapabilities::Illuminated
    } else {
        ShadeCapabilities::Unknown(v)
    }
}

/// The hub code of a capability.
pub open spec fn capabilities_code_spec(c: ShadeCapabilities) -> i32 {
    match c {
        ShadeCapabilities::BottomUp => 0,
        ShadeCapabilities::BottomUpTilt90 => 1,
        ShadeCapabilities::BottomUpTilt180 => 2,
        ShadeCapabilities::VerticalTilt180 => 3,
        ShadeCapabilities::Vertical => 4,
        ShadeCapabilities::TiltOnly180 => 5,
        ShadeCapabilities::TopDown => 6,
        ShadeCapabilities::TopDownBottomUp => 7,
        ShadeCapabilities::DualOverlapped => 8,
        ShadeCapabilities::DualOverlappedTilt90 => 9,
        ShadeCapabilities::DuoliteTilt180 => 10,
        ShadeCapabilities::Illuminated => 11,
        ShadeCapabilities::Unknown(n) => n,
    }
}

/// The shade has a primary rail.
pub const PRIMARY_RAIL: u8 = 1;
/// The shade has a secondary (middle) rail.
pub const SECONDARY_RAIL: u8 = 2;
/// The vanes tilt when the shade is closed.
pub const TILT_ON_CLOSED: u8 = 4;
/// The vanes tilt at any position.
pub const TILT_ANYWHERE: u8 = 8;
/// The vanes tilt through 180 degrees.
pub const TILT_180: u8 = 16;
/// The primary rail moves top down.
pub const PRIMARY_RAIL_REVERSED: u8 = 32;
/// The secondary rail overlaps the primary one.
pub const SECONDARY_RAIL_OVERLAPPED: u8 = 64;

/// The flag bits of each capability.
pub open spec fn capability_bits(c: ShadeCapabilities) -> u8 {
    match c {
        ShadeCapabilities::BottomUp => PRIMARY_RAIL,
        ShadeCapabilities::BottomUpTilt90 => PRIMARY_RAIL | TILT_ON_CLOSED,
        ShadeCapabilities::BottomUpTilt180 => PRIMARY_RAIL | TILT_ANYWHERE | TILT_180,
        ShadeCapabilities::VerticalTilt180 => PRIMARY_RAIL | TILT_ANYWHERE | TILT_180,
        ShadeCapabilities::Vertical => PRIMARY_RAIL,
        ShadeCapabilities::TiltOnly180 => TILT_ANYWHERE | TILT_180,
        ShadeCapabilities::TopDown => PRIMARY_RAIL | PRIMARY_RAIL_REVERSED,
        ShadeCapabilities::TopDownBottomUp => PRIMARY_RAIL | SECONDARY_RAIL,
        ShadeCapabilities::DualOverlapped => PRIMARY_RAIL | SECONDARY_RAIL
            | SECONDARY_RAIL_OVERLAPPED,
        ShadeCapabilities::DualOverlappedTilt90 => PRIMARY_RAIL | SECONDARY_RAIL
            | SECONDARY_RAIL_OVERLAPPED | TILT_ON_CLOSED,
        ShadeCapabilities::DuoliteTilt180 => PRIMARY_RAIL | SECONDARY_RAIL | TILT_ANYWHERE
            | TILT_180,
        ShadeCapabilities::Illuminated => PRIMARY_RAIL | SECONDARY_RAIL,
        ShadeCapabilities::Unknown(_) => 0,
    }
}

/// The shades that have a secondary (middle) rail.
pub open spec fn has_secondary_rail(c: ShadeCapabilities) -> bool {
    match c {
        ShadeCapabilities::TopDownBottomUp => true,
        ShadeCapabilities::DualOverlapped => true,
        ShadeCapabilities::DualOverlappedTilt90 => true,
        ShadeCapabilities::DuoliteTilt180 => true,
        ShadeCapabilities::Illuminated => true,
        _ => false,
    }
}

/// A set of capability flags, as bits.
#[derive(Clone, Copy, Debug, PartialEq, Eq, Structural)]
pub struct ShadeCapabilityFlags {
    pub bits: u8,
}

impl ShadeCapabilityFlags {
    /// The flags with these bits.
    pub fn from_bits(bits: u8) -> (r: ShadeCapabilityFlags)
        ensures
            r.bits == bits,
    {
        ShadeCapabilityFlags { bits }
    }

    /// No flags.
    pub fn empty() -> (r: ShadeCapabilityFlags)
        ensures
            r.bits == 0,
    {
        ShadeCapabilityFlags { bits: 0 }
    }

    /// Whether every flag of `other` is set in `self`.
    pub fn contains(&self, other: ShadeCapabilityFlags) -> (r: bool)
        ensures
            r == (self.bits & other.bits == other.bits),
    {
        self.bits & other.bits == other.bits
    }

    /// The flags of either set.
    pub fn union(&self, other: ShadeCapabilityFlags) -> (r: ShadeCapabilityFlags)
        ensures
            r.bits == self.bits | other.bits,
    {
        ShadeCapabilityFlags { bits: self.bits | other.bits }
    }
}

impl ShadeCapabilities {
    /// The capability for a hub code; codes it does not know become `Unknown`.
    pub fn from_code(v: i32) -> (r: ShadeCapabilities)
        ensures
            r == capabilities_from_code_spec(v),
    {
        if v == 0 {
            ShadeCapabilities::BottomUp
        } else if v == 1 {
            ShadeCapabilities::BottomUpTilt90
        } else if v == 2 {
            ShadeCapabilities::BottomUpTilt180
        } else if v == 3 {
            ShadeCapabilities::VerticalTilt180
        } else if v == 4 {
            ShadeCapabilities::Vertical
        } else if v == 5 {
            ShadeCapabilities::TiltOnly180
        } else if v == 6 {
            ShadeCapabilities::TopDown
        } else if v == 7 {
            ShadeCapabilities::TopDownBottomUp
        } else if v == 8 {
            ShadeCapabilities::DualOverlapped
        } else if v == 9 {
            ShadeCapabilities::DualOverlappedTilt90
        } else if v == 10 {
            ShadeCapabilities::DuoliteTilt180
        } else if v == 11 {
            ShadeCapabilities::Illuminated
        } else {
            ShadeCapabilities::Unknown(v)
        }
    }

    /// The hub code of this capability.
    pub fn code(&self) -> (r: i32)
        ensures
            r == capabilities_code_spec(*self),
    {
        match self {
            ShadeCapabilities::BottomUp => 0,
            ShadeCapabilities::BottomUpTilt90 => 1,
            ShadeCapabilities::BottomUpTilt180 => 2,
            ShadeCapabilities::VerticalTilt180 => 3,
            ShadeCapabilities::Vertical => 4,
            ShadeCapabilities::TiltOnly180 => 5,
            ShadeCapabilities::TopDown => 6,
            ShadeCapabilities::TopDownBottomUp => 7,
            ShadeCapabilities::DualOverlapped => 8,
            ShadeCapabilities::DualOverlappedTilt90 => 9,
            ShadeCapabilities::DuoliteTilt180 => 10,
            ShadeCapabilities::Illuminated => 11,
            ShadeCapabilities::Unknown(n) => *n,
        }
    }

    /// The flags of this capability.
    pub fn flags(self) -> (r: ShadeCapabilityFlags)
        ensures
            r.bits == capability_bits(self),
    {
        let bits: u8 = match self {
            ShadeCapabilities::BottomUp => PRIMARY_RAIL,
            ShadeCapabilities::BottomUpTilt90 => PRIMARY_RAIL | TILT_ON_CLOSED,
            ShadeCapabilities::BottomUpTilt180 => PRIMARY_RAIL | TILT_ANYWHERE | TILT_180,
            ShadeCapabilities::VerticalTilt180 => PRIMARY_RAIL | TILT_ANYWHERE | TILT_180,
            ShadeCapabilities::Vertical => PRIMARY_RAIL,
            ShadeCapabilities::TiltOnly180 => TILT_ANYWHERE | TILT_180,
            ShadeCapabilities::TopDown => PRIMARY_RAIL | PRIMARY_RAIL_REVERSED,
            ShadeCapabilities::TopDownBottomUp => PRIMARY_RAIL | SECONDARY_RAIL,
            ShadeCapabilities::DualOverlapped => PRIMARY_RAIL | SECONDARY_RAIL
                | SECONDARY_RAIL_OVERLAPPED,
            ShadeCapabilities::DualOverlappedTilt90 => PRIMARY_RAIL | SECONDARY_RAIL
                | SECONDARY_RAIL_OVERLAPPED | TILT_ON_CLOSED,
            ShadeCapabilities::DuoliteTilt180 => PRIMARY_RAIL | SECONDARY_RAIL | TILT_ANYWHERE
                | TILT_180,
            ShadeCapabilities::Illuminated => PRIMARY_RAIL | SECONDARY_RAIL,
            ShadeCapabilities::Unknown(_) => 0,
        };
        ShadeCapabilityFlags { bits }
    }

    /// Whether the flags of this capability include the secondary rail.
    pub fn has_secondary_rail(self) -> (r: bool)
        ensures
            r == has_secondary_rail(self),
            r == (capability_bits(self) & SECONDARY_RAIL == SECONDARY_RAIL),
    {
        proof {
            law_secondary_rail_flag(self);
        }
        self.flags().contains(ShadeCapabilityFlags::from_bits(SECONDARY_RAIL))
    }
}

/// The secondary-rail flag is set exactly for the capabilities with a middle rail.
pub proof fn law_secondary_rail_flag(c: ShadeCapabilities)
    ensures
        (capability_bits(c) & SECONDARY_RAIL == SECONDARY_RAIL) == has_secondary_rail(c),
{
    assert((1u8 & 2u8) != 2u8) by (bit_vector);
    assert(((1u8 | 4u8) & 2u8) != 2u8) by (bit_vector);
    assert(((1u8 | 8u8 | 16u8) & 2u8) != 2u8) by (bit_vector);
    assert(((8u8 | 16u8) & 2u8) != 2u8) by (bit_vector);
    assert(((1u8 | 32u8) & 2u8) != 2u8) by (bit_vector);
    assert(((1u8 | 2u8) & 2u8) == 2u8) by (bit_vector);
    assert(((1u8 | 2u8 | 64u8) & 2u8) == 2u8) by (bit_vector);
    assert(((1u8 | 2u8 | 64u8 | 4u8) & 2u8) == 2u8) by (bit_vector);
    assert(((1u8 | 2u8 | 8u8 | 16u8) & 2u8) == 2u8) by (bit_vector);
    assert((0u8 & 2u8) != 2u8) by (bit_vector);
}

// ── Power and battery ────────────────────────────────────────────────────────

/// How a shade's motor is powered.
#[derive(Clone, Copy, Debug, PartialEq, Eq, Structural)]
pub enum PowerType {
    Battery,
    Hardwired,
    Rechargeable,
    /// A code this crate does not know.
    Unknown(i32),
}

/// The power type for a hub code.
pub open spec fn power_type_from_code_spec(v: i32) -> PowerType {
    if v == 0 {
        PowerType::Battery
    } else if v == 1 {
        PowerType::Hardwired
    } else if v == 2 {
        PowerType::Rechargeable
    } else {
        PowerType::Unknown(v)
    }
}

/// The hub code of a power type.
pub open spec fn power_type_code_spec(p: PowerType) -> i32 {
    match p {
        PowerType::Battery => 0,
        PowerType::Hardwired => 1,
        PowerType::Rechargeable => 2,
        PowerType::Unknown(n) => n,
    }
}

impl PowerType {
    /// The power type for a hub code; codes it does not know become `Unknown`.
    pub fn from_code(v: i32) -> (r: PowerType)
        ensures
            r == power_type_from_code_spec(v),
    {
        if v == 0 {
            PowerType::Battery
        } else if v == 1 {
            PowerType::Hardwired
        } else if v == 2 {
            PowerType::Rechargeable
        } else {
            PowerType::Unknown(v)
        }
    }

    /// The hub code of this power type.
    pub fn code(&self) -> (r: i32)
        ensures
            r == power_type_code_spec(*self),
    {
        match self {
            PowerType::Battery => 0,
            PowerType::Hardwired => 1,
            PowerType::Rechargeable => 2,
            PowerType::Unknown(n) => *n,
        }
    }
}

/// A shade's battery level, as the hub reports it.
#[derive(Clone, Copy, Debug, PartialEq, Eq, Structural)]
pub enum BatteryStatus {
    NoPower,
    Low,
    Medium,
    High,
}

/// The battery status for a hub code, if it is one.
pub open spec fn battery_status_from_code_spec(v: i32) -> Option<BatteryStatus> {
    if v == 0 {
        Some(BatteryStatus::NoPower)
    } else if v == 1 {
        Some(BatteryStatus::Low)
    } else if v == 2 {
        Some(BatteryStatus::Medium)
    } else if v == 3 {
        Some(BatteryStatus::High)
    } else {
        None
    }
}

/// The hub code of a battery status.
pub open spec fn battery_status_code_spec(b: BatteryStatus) -> i32 {
    match b {
        BatteryStatus::NoPower => 0,
        BatteryStatus::Low => 1,
        BatteryStatus::Medium => 2,
        BatteryStatus::High => 3,
    }
}

/// Battery level as a percentage.
pub open spec fn battery_percent_spec(b: BatteryStatus) -> u8 {
    match b {
        BatteryStatus::NoPower => 0,
        BatteryStatus::Low => 20,
        BatteryStatus::Medium => 50,
        BatteryStatus::High => 100,
    }
}

impl BatteryStatus {
    /// The status for a hub code; other codes are refused.
    pub fn from_code(v: i32) -> (r: Option<BatteryStatus>)
        ensures
            r == battery_status_from_code_spec(v),
    {
        if v == 0 {
            Some(BatteryStatus::NoPower)
        } else if v == 1 {
            Some(BatteryStatus::Low)
        } else if v == 2 {
            Some(BatteryStatus::Medium)
        } else if v == 3 {
            Some(BatteryStatus::High)
        } else {
            None
        }
    }

    /// The hub code of this status.
    pub fn code(&self) -> (r: i32)
        ensures
            r == battery_status_code_spec(*self),
    {
        match self {
            BatteryStatus::NoPower => 0,
            BatteryStatus::Low => 1,
            BatteryStatus::Medium => 2,
            BatteryStatus::High => 3,
        }
    }
}

// ── Codes read and written back ──────────────────────────────────────────────

/// Every capability code is written back as it was read.
pub proof fn law_capabilities_code_round_trip(v: i32)
    ensures
        capabilities_code_spec(capabilities_from_code_spec(v)) == v,
{
}

/// A capability is read back as it was written, except an `Unknown` that
/// carries the code of a known capability.
pub proof fn law_capabilities_value_round_trip(c: ShadeCapabilities)
    requires
        !(c matches ShadeCapabilities::Unknown(n) && 0 <= n <= 11),
    ensures
        capabilities_from_code_spec(capabilities_code_spec(c)) == c,
{
}

/// Every power-type code is written back as it was read.
pub proof fn law_power_type_code_round_trip(v: i32)
    ensures
        power_type_code_spec(power_type_from_code_spec(v)) == v,
{
}

/// A power type is read back as it was written, except an `Unknown` that
/// carries the code of a known power type.
pub proof fn law_power_type_value_round_trip(p: PowerType)
    requires
        !(p matches PowerType::Unknown(n) && 0 <= n <= 2),
    ensures
        power_type_from_code_spec(power_type_code_spec(p)) == p,
{
}

/// A battery status is read back as it was written, and a code that is read
/// is written back unchanged.
pub proof fn law_battery_status_round_trip(b: BatteryStatus, v: i32)
    ensures
        battery_status_from_code_spec(battery_status_code_spec(b)) == Some(b),
        battery_status_from_code_spec(v) matches Some(x) ==> battery_status_code_spec(x) == v,
{
}

// ── Motions ──────────────────────────────────────────────────────────────────

/// A motion command for a shade.
#[derive(Clone, Copy, Debug, PartialEq, Eq, Structural)]
pub enum ShadeUpdateMotion {
    Down,
    Jog,
    LeftTilt,
    RightTilt,
    Stop,
    Up,
}

// ── Shades ───────────────────────────────────────────────────────────────────

/// A shade as the hub describes it.
#[derive(Clone, Debug)]
pub struct ShadeData {
    pub id: i32,
    pub shade_type: i32,
    pub pt_name: String,
    /// Base64 name, stored as the hub sent it.
    pub name: String,
    pub capabilities: ShadeCapabilities,
    pub power_type: PowerType,
    /// `None` when the hub reports no battery status.
    pub battery_status: Option<BatteryStatus>,
    pub room_id: i32,
    pub firmware: ShadeFirmware,
    pub positions: ShadePosition,
    /// Radio signal strength mapped to 0–100 % (-100 dBm → 0 %, -50 dBm → 100 %).
    pub signal_percent: Option<u8>,
    pub ble_name: String,
    pub shade_group_ids: Vec<i32>,
    pub serial_number: String,
}

/// The model name that Home Assistant's PowerView integration gives each shade type.
pub open spec fn type_name_spec(t: i32) -> Seq<char> {
    if t == 1 {
        "Designer Roller"@
    } else if t == 4 {
        "Roman"@
    } else if t == 5 {
        "Bottom Up"@
    } else if t == 6 {
        "Duette"@
    } else if t == 7 {
        "Top Down"@
    } else if t == 8 {
        "Duette, Top Down Bottom Up"@
    } else if t == 9 {
        "Duette DuoLite, Top Down Bottom Up"@
    } else if t == 10 {
        "Duette and Applause SkyLift"@
    } else if t == 18 {
        "Pirouette"@
    } else if t == 19 {
        "Provenance Woven Wood"@
    } else if t == 23 {
        "Silhouette"@
    } else if t == 26 {
        "Skyline Panel, Left Stack"@
    } else if t == 27 {
        "Skyline Panel, Right Stack"@
    } else if t == 28 {
        "Skyline Panel, Split Stack"@
    } else if t == 31 || t == 32 || t == 84 {
        "Vignette"@
    } else if t == 33 {
        "Duette Architella, Top Down Bottom Up"@
    } else if t == 38 {
        "Silhouette Duolite"@
    } else if t == 40 {
        "Everwood Alternative Wood Blinds"@
    } else if t == 42 {
        "M25T Roller Blind"@
    } else if t == 43 {
        "Facette"@
    } else if t == 44 {
        "Twist"@
    } else if t == 47 {
        "Pleated, Top Down Bottom Up"@
    } else if t == 49 {
        "AC Roller"@
    } else if t == 51 || t == 62 {
        "Venetian, Tilt Anywhere"@
    } else if t == 52 {
        "Banded Shades"@
    } else if t == 53 {
        "Sonnette"@
    } else if t == 54 {
        "Vertical Slats, Left Stack"@
    } else if t == 55 {
        "Vertical Slats, Right Stack"@
    } else if t == 56 {
        "Vertical Slats, Split Stack"@
    } else if t == 57 {
        "Carole Roman Shades"@
    } else if t == 65 {
        "Vignette Duolite"@
    } else if t == 66 {
        "Palm Beach Shutters"@
    } else if t == 69 {
        "Curtain, Left Stack"@
    } else if t == 70 {
        "Curtain, Right Stack"@
    } else if t == 71 {
        "Curtain, Split Stack"@
    } else if t == 72 {
        "Silhouette"@
    } else if t == 79 {
        "Duolite Lift"@
    } else if t == 95 {
        "Aura Illuminated, Roller"@
    } else {
        "PowerView Shade"@
    }
}

impl ShadeData {
    /// The plain-text name of the shade.
    pub fn name(&self) -> (r: &str)
        ensures
            r@ == self.pt_name@,
    {
        self.pt_name.as_str()
    }

    /// Battery level as a percentage; `None` when the status is unavailable.
    pub fn battery_percent(&self) -> (r: Option<u8>)
        ensures
            r == (match self.battery_status {
                Some(b) => Some(battery_percent_spec(b)),
                None => None,
            }),
    {
        match self.battery_status {
            Some(BatteryStatus::NoPower) => Some(0),
            Some(BatteryStatus::Low) => Some(20),
            Some(BatteryStatus::Medium) => Some(50),
            Some(BatteryStatus::High) => Some(100),
            None => None,
        }
    }

    /// Signal strength as a percentage; `None` when the hub reports none.
    pub fn signal_strength_percent(&self) -> (r: Option<u8>)
        ensures
            r == self.signal_percent,
    {
        self.signal_percent
    }

    /// Percentage of the primary rail.
    pub fn pos1_percent(&self) -> (r: Option<u8>)
        ensures
            r == self.positions.primary,
    {
        self.positions.pos1_percent()
    }

    /// Percentage of the secondary rail.
    pub fn pos2_percent(&self) -> (r: Option<u8>)
        ensures
            r == self.positions.secondary,
    {
        self.positions.pos2_percent()
    }

    /// Human-readable model name for the shade type.
    pub fn shade_type_name(&self) -> (r: &'static str)
        ensures
            r@ == type_name_spec(self.shade_type),
    {
        let t = self.shade_type;
        if t == 1 {
            "Designer Roller"
        } else if t == 4 {
            "Roman"
        } else if t == 5 {
            "Bottom Up"
        } else if t == 6 {
            "Duette"
        } else if t == 7 {
            "Top Down"
        } else if t == 8 {
            "Duette, Top Down Bottom Up"
        } else if t == 9 {
            "Duette DuoLite, Top Down Bottom Up"
        } else if t == 10 {
            "Duette and Applause SkyLift"
        } else if t == 18 {
            "Pirouette"
        } else if t == 19 {
            "Provenance Woven Wood"
        } else if t == 23 {
            "Silhouette"
        } else if t == 26 {
            "Skyline Panel, Left Stack"
        } else if t == 27 {
            "Skyline Panel, Right Stack"
        } else if t == 28 {
            "Skyline Panel, Split Stack"
        } else if t == 31 || t == 32 || t == 84 {
            "Vignette"
        } else if t == 33 {
            "Duette Architella, Top Down Bottom Up"
        } else if t == 38 {
            "Silhouette Duolite"
        } else if t == 40 {
            "Everwood Alternative Wood Blinds"
        } else if t == 42 {
            "M25T Roller Blind"
        } else if t == 43 {
            "Facette"
        } else if t == 44 {
            "Twist"
        } else if t == 47 {
            "Pleated, Top Down Bottom Up"
        } else if t == 49 {
            "AC Roller"
        } else if t == 51 || t == 62 {
            "Venetian, Tilt Anywhere"
        } else if t == 52 {
            "Banded Shades"
        } else if t == 53 {
            "Sonnette"
        } else if t == 54 {
            "Vertical Slats, Left Stack"
        } else if t == 55 {
            "Vertical Slats, Right Stack"
        } else if t == 56 {
            "Vertical Slats, Split Stack"
        } else if t == 57 {
            "Carole Roman Shades"
        } else if t == 65 {
            "Vignette Duolite"
        } else if t == 66 {
            "Palm Beach Shutters"
        } else if t == 69 {
            "Curtain, Left Stack"
        } else if t == 70 {
            "Curtain, Right Stack"
        } else if t == 71 {
            "Curtain, Split Stack"
        } else if t == 72 {
            "Silhouette"
        } else if t == 79 {
            "Duolite Lift"
        } else if t == 95 {
            "Aura Illuminated, Roller"
        } else {
            "PowerView Shade"
        }
    }
}

// ── Gateway ──────────────────────────────────────────────────────────────────

/// The hub's own description (`GET gateway`, under `config`).
#[derive(Clone, Debug)]
pub struct GatewayConfig {
    pub serial_number: String,
    pub brand: String,
    pub model: String,
    pub firmware: GatewayFirmwareVersions,
    pub network_status: GatewayNetworkStatus,
}

/// The hub's firmware.
#[derive(Clone, Debug)]
pub struct GatewayFirmwareVersions {
    pub main_processor: GatewayFirmware,
}

/// The version of the hub's main processor firmware.
#[derive(Clone, Debug)]
pub struct GatewayFirmware {
    pub name: String,
    pub revision: i32,
    pub sub_revision: i32,
    pub build: i32,
}

/// The hub's network addresses.
#[derive(Clone, Debug)]
pub struct GatewayNetworkStatus {
    pub ip_address: String,
    pub primary_mac_address: String,
}

// ── Shade events ─────────────────────────────────────────────────────────────

/// One event of the hub's shade event stream.
#[derive(Clone, Debug)]
pub struct ShadeEvent {
    pub evt: ShadeEventKind,
    pub id: i32,
    pub current_positions: Option<ShadePosition>,
    pub target_positions: Option<ShadePosition>,
    pub iso_date: Option<String>,
}

/// The kind of a shade event.
#[derive(Clone, Copy, Debug, PartialEq, Eq, Structural)]
pub enum ShadeEventKind {
    ShadeOffline,
    ShadeOnline,
    MotionStarted,
    MotionStopped,
    BatteryAlert,
    /// Any event name this crate does not know.
    Unknown,
}

/// The kind of event for its wire name.
pub open spec fn event_kind_from_name_spec(name: Seq<char>) -> ShadeEventKind {
    if name == "shade-offline"@ {
        ShadeEventKind::ShadeOffline
    } else if name == "shade-online"@ {
        ShadeEventKind::ShadeOnline
    } else if name == "motion-started"@ {
        ShadeEventKind::MotionStarted
    } else if name == "motion-stopped"@ {
        ShadeEventKind::MotionStopped
    } else if name == "battery-alert"@ {
        ShadeEventKind::BatteryAlert
    } else {
        ShadeEventKind::Unknown
    }
}

impl ShadeEventKind {
    /// Whether events of this kind are handed on from the event stream;
    /// events of unknown kinds are skipped.
    pub fn is_known(&self) -> (r: bool)
        ensures
            r == (*self != ShadeEventKind::Unknown),
    {
        match self {
            ShadeEventKind::Unknown => false,
            _ => true,
        }
    }

    /// The kind for the wire name of an event (kebab-case); unknown names
    /// become `Unknown`.
    pub fn from_name(name: &str) -> (r: ShadeEventKind)
        ensures
            r == event_kind_from_name_spec(name@),
    {
        if str_eq(name, "shade-offline") {
            ShadeEventKind::ShadeOffline
        } else if str_eq(name, "shade-online") {
            ShadeEventKind::ShadeOnline
        } else if str_eq(name, "motion-started") {
            ShadeEventKind::MotionStarted
        } else if str_eq(name, "motion-stopped") {
            ShadeEventKind::MotionStopped
        } else if str_eq(name, "battery-alert") {
            ShadeEventKind::BatteryAlert
        } else {
            ShadeEventKind::Unknown
        }
    }
}

} // verus!
