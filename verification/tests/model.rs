use pview::text::{
    chars_of, eq_ignore_ascii_case, i32_text, parse_i32, parse_u16, trim_chars,
};
use pview::types::{
    join_strings, BatteryStatus, PowerType, ShadeCapabilities, ShadeCapabilityFlags, ShadeData,
    ShadeEventKind, ShadeFirmware, ShadePosition, PRIMARY_RAIL, SECONDARY_RAIL,
    SECONDARY_RAIL_OVERLAPPED, TILT_180, TILT_ANYWHERE, TILT_ON_CLOSED,
};

fn position(primary: Option<u8>, secondary: Option<u8>, tilt: Option<u8>) -> ShadePosition {
    ShadePosition { primary, secondary, tilt, velocity: None, eta_ms: None }
}

fn shade(shade_type: i32, battery: Option<BatteryStatus>, signal: Option<u8>) -> ShadeData {
    ShadeData {
        id: 7,
        shade_type,
        pt_name: "Den".to_string(),
        name: "RGVu".to_string(),
        capabilities: ShadeCapabilities::TopDownBottomUp,
        power_type: PowerType::Battery,
        battery_status: battery,
        room_id: 1,
        firmware: ShadeFirmware { revision: 3, sub_revision: 1, build: 9 },
        positions: position(Some(40), Some(60), None),
        signal_percent: signal,
        ble_name: "DUE:1".to_string(),
        shade_group_ids: vec![],
        serial_number: "SN7".to_string(),
    }
}

#[test]
fn battery_percent_of_each_status() {
    assert_eq!(shade(1, Some(BatteryStatus::NoPower), None).battery_percent(), Some(0));
    assert_eq!(shade(1, Some(BatteryStatus::Low), None).battery_percent(), Some(20));
    assert_eq!(shade(1, Some(BatteryStatus::Medium), None).battery_percent(), Some(50));
    assert_eq!(shade(1, Some(BatteryStatus::High), None).battery_percent(), Some(100));
    assert_eq!(shade(1, None, None).battery_percent(), None);
}

#[test]
fn signal_percent_is_what_was_reported() {
    assert_eq!(shade(1, None, Some(90)).signal_strength_percent(), Some(90));
    assert_eq!(shade(1, None, None).signal_strength_percent(), None);
}

#[test]
fn shade_accessors() {
    let s = shade(1, None, None);
    assert_eq!(s.name(), "Den");
    assert_eq!(s.pos1_percent(), Some(40));
    assert_eq!(s.pos2_percent(), Some(60));
}

#[test]
fn type_names_follow_the_home_assistant_mapping() {
    assert_eq!(shade(1, None, None).shade_type_name(), "Designer Roller");
    assert_eq!(shade(8, None, None).shade_type_name(), "Duette, Top Down Bottom Up");
    assert_eq!(shade(62, None, None).shade_type_name(), "Venetian, Tilt Anywhere");
    assert_eq!(shade(95, None, None).shade_type_name(), "Aura Illuminated, Roller");
    assert_eq!(shade(2, None, None).shade_type_name(), "PowerView Shade");
    assert_eq!(shade(-1, None, None).shade_type_name(), "PowerView Shade");
}

#[test]
fn describe_lists_known_axes() {
    assert_eq!(position(Some(40), None, Some(0)).describe(), "primary: 40% / tilt: 0%");
    assert_eq!(
        position(Some(50), Some(25), Some(0)).describe(),
        "primary: 50% / secondary: 25% / tilt: 0%"
    );
    let mut only_velocity = position(None, None, None);
    only_velocity.velocity = Some(30);
    assert_eq!(only_velocity.describe(), "unknown");
    assert_eq!(position(None, Some(3), None).describe(), "secondary: 3%");
    assert_eq!(position(None, None, None).describe(), "unknown");
}

#[test]
fn describe_single_rails() {
    let p = position(Some(40), None, None);
    assert_eq!(p.describe_pos1(), "40%");
    assert_eq!(p.describe_pos2(), "");
    assert_eq!(p.pos1_percent(), Some(40));
    assert_eq!(p.pos2_percent(), None);
    let e = ShadePosition::empty();
    assert_eq!(e.primary, None);
    assert_eq!(e.eta_ms, None);
}

#[test]
fn capability_flags() {
    let f = ShadeCapabilities::TopDownBottomUp.flags();
    assert!(f.contains(ShadeCapabilityFlags::from_bits(SECONDARY_RAIL)));
    assert!(f.contains(ShadeCapabilityFlags::from_bits(PRIMARY_RAIL)));
    assert_eq!(
        ShadeCapabilities::DualOverlappedTilt90.flags().bits,
        PRIMARY_RAIL | SECONDARY_RAIL | SECONDARY_RAIL_OVERLAPPED | TILT_ON_CLOSED
    );
    assert_eq!(ShadeCapabilities::TiltOnly180.flags().bits, TILT_ANYWHERE | TILT_180);
    assert!(!ShadeCapabilities::BottomUp.flags().contains(ShadeCapabilityFlags::from_bits(SECONDARY_RAIL)));
    assert_eq!(ShadeCapabilities::Unknown(42).flags(), ShadeCapabilityFlags::empty());
    assert!(ShadeCapabilities::Illuminated.has_secondary_rail());
    assert!(!ShadeCapabilities::TopDown.has_secondary_rail());
    let u = ShadeCapabilityFlags::from_bits(PRIMARY_RAIL).union(ShadeCapabilityFlags::from_bits(TILT_180));
    assert_eq!(u.bits, 17);
}

#[test]
fn capability_codes_round_trip() {
    for v in -3..20 {
        assert_eq!(ShadeCapabilities::from_code(v).code(), v);
    }
    assert_eq!(ShadeCapabilities::from_code(7), ShadeCapabilities::TopDownBottomUp);
    assert_eq!(ShadeCapabilities::from_code(12), ShadeCapabilities::Unknown(12));
    assert_eq!(ShadeCapabilities::Illuminated.code(), 11);
    // An Unknown carrying a known code reads back as the known capability.
    assert_eq!(ShadeCapabilities::from_code(ShadeCapabilities::Unknown(3).code()), ShadeCapabilities::VerticalTilt180);
}

#[test]
fn power_type_codes() {
    assert_eq!(PowerType::from_code(0), PowerType::Battery);
    assert_eq!(PowerType::from_code(1), PowerType::Hardwired);
    assert_eq!(PowerType::from_code(2), PowerType::Rechargeable);
    assert_eq!(PowerType::from_code(9), PowerType::Unknown(9));
    for v in -2..6 {
        assert_eq!(PowerType::from_code(v).code(), v);
    }
}

#[test]
fn battery_status_codes() {
    assert_eq!(BatteryStatus::from_code(0), Some(BatteryStatus::NoPower));
    assert_eq!(BatteryStatus::from_code(3), Some(BatteryStatus::High));
    assert_eq!(BatteryStatus::from_code(4), None);
    assert_eq!(BatteryStatus::Medium.code(), 2);
}

#[test]
fn event_kind_names() {
    assert_eq!(ShadeEventKind::from_name("motion-started"), ShadeEventKind::MotionStarted);
    assert_eq!(ShadeEventKind::from_name("motion-stopped"), ShadeEventKind::MotionStopped);
    assert_eq!(ShadeEventKind::from_name("shade-offline"), ShadeEventKind::ShadeOffline);
    assert_eq!(ShadeEventKind::from_name("shade-online"), ShadeEventKind::ShadeOnline);
    assert_eq!(ShadeEventKind::from_name("battery-alert"), ShadeEventKind::BatteryAlert);
    assert_eq!(ShadeEventKind::from_name("firmware-update"), ShadeEventKind::Unknown);
    assert_eq!(ShadeEventKind::from_name("MotionStarted"), ShadeEventKind::Unknown);
    assert!(ShadeEventKind::BatteryAlert.is_known());
    assert!(!ShadeEventKind::Unknown.is_known());
}

#[test]
fn integers_as_text() {
    assert_eq!(i32_text(-42), "-42");
    assert_eq!(i32_text(0), "0");
    assert_eq!(i32_text(i32::MIN), "-2147483648");
}

#[test]
fn parse_i32_like_std() {
    let p = |s: &str| parse_i32(&chars_of(s));
    assert_eq!(p("12"), Some(12));
    assert_eq!(p("+12"), Some(12));
    assert_eq!(p("-12"), Some(-12));
    assert_eq!(p("2147483647"), Some(i32::MAX));
    assert_eq!(p("-2147483648"), Some(i32::MIN));
    assert_eq!(p("2147483648"), None);
    assert_eq!(p(""), None);
    assert_eq!(p("-"), None);
    assert_eq!(p("1_0"), None);
    assert_eq!(p(" 1"), None);
    for v in [-1000, -1, 0, 5, 99999] {
        assert_eq!(p(&i32_text(v)), Some(v));
    }
}

#[test]
fn parse_u16_like_std() {
    let p = |s: &str| parse_u16(&chars_of(s));
    assert_eq!(p("1883"), Some(1883));
    assert_eq!(p("+80"), Some(80));
    assert_eq!(p("65535"), Some(65535));
    assert_eq!(p("65536"), None);
    assert_eq!(p("-0"), None);
    assert_eq!(p("port"), None);
    assert_eq!(p(""), None);
    for s in ["0", "00012", "+", "-5", "99999999999"] {
        assert_eq!(p(s), s.parse::<u16>().ok());
    }
}

#[test]
fn ascii_case_folding() {
    assert!(eq_ignore_ascii_case("Living Room", "living room"));
    assert!(eq_ignore_ascii_case("DEN", "den"));
    assert!(!eq_ignore_ascii_case("Den", "Dens"));
    assert!(!eq_ignore_ascii_case("Ä", "ä"));
}

#[test]
fn trimming() {
    let t: String = trim_chars(&chars_of("  {\"a\":1} \t")).into_iter().collect();
    assert_eq!(t, "{\"a\":1}");
    let e: String = trim_chars(&chars_of("   ")).into_iter().collect();
    assert_eq!(e, "");
}

#[test]
fn joining() {
    let parts = vec!["a".to_string(), "b".to_string(), "c".to_string()];
    assert_eq!(join_strings(&parts, ", "), "a, b, c");
    assert_eq!(join_strings(&vec![], ", "), "");
}
