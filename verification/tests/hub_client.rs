use pview::hub::{
    classify_status, status_error_message, HttpMethod, Hub, LockedError, LookupError, RequestBody,
    StatusClass,
};
use pview::sse::SseDecoder;
use pview::types::{
    PowerType, RoomData, Scene, ShadeCapabilities, ShadeData, ShadeFirmware, ShadePosition,
    ShadeUpdateMotion,
};

fn hub() -> Hub {
    Hub::with_addr("192.168.1.5".to_string())
}

fn room(id: i32, name: &str) -> RoomData {
    RoomData {
        id,
        pt_name: name.to_string(),
        name: String::new(),
        color: "7".to_string(),
        icon: "123".to_string(),
        room_type: 0,
    }
}

fn scene(id: i32, name: &str, rooms: Vec<i32>) -> Scene {
    Scene {
        id,
        pt_name: name.to_string(),
        name: String::new(),
        color: "1".to_string(),
        icon: "2".to_string(),
        network_number: 0,
        room_ids: rooms,
    }
}

fn shade(id: i32, name: &str, room_id: i32) -> ShadeData {
    ShadeData {
        id,
        shade_type: 1,
        pt_name: name.to_string(),
        name: String::new(),
        capabilities: ShadeCapabilities::BottomUp,
        power_type: PowerType::Hardwired,
        battery_status: None,
        room_id,
        firmware: ShadeFirmware { revision: 1, sub_revision: 2, build: 3 },
        positions: ShadePosition::empty(),
        signal_percent: None,
        ble_name: String::new(),
        shade_group_ids: vec![],
        serial_number: String::new(),
    }
}

#[test]
fn urls_of_the_hub() {
    let h = hub();
    assert_eq!(h.addr(), "192.168.1.5");
    assert_eq!(h.url("home/rooms"), "http://192.168.1.5/home/rooms");
    assert_eq!(h.rooms_request().url, "http://192.168.1.5/home/rooms");
    assert_eq!(h.scenes_request().url, "http://192.168.1.5/home/scenes");
    assert_eq!(h.shades_request().url, "http://192.168.1.5/home/shades");
    assert_eq!(h.get_gateway_data().url, "http://192.168.1.5/gateway");
    let r = h.shade_by_id(-4);
    assert_eq!(r.url, "http://192.168.1.5/home/shades/-4");
    assert_eq!(r.method, HttpMethod::Get);
    assert!(matches!(r.body, RequestBody::Empty));
}

#[test]
fn set_position_sends_only_given_axes() {
    let mut p = ShadePosition::empty();
    p.secondary = Some(30);
    let r = hub().set_shade_position(12, p);
    assert_eq!(r.method, HttpMethod::Put);
    assert_eq!(r.url, "http://192.168.1.5/home/shades/12/positions");
    match r.body {
        RequestBody::Positions(q) => assert_eq!(q, p),
        other => panic!("unexpected body {other:?}"),
    }
}

#[test]
fn motions_map_to_requests() {
    let h = hub();
    let up = h.move_shade(3, ShadeUpdateMotion::Up);
    assert_eq!(up.url, "http://192.168.1.5/home/shades/3/positions");
    match up.body {
        RequestBody::Positions(p) => {
            assert_eq!(p.primary, Some(100));
            assert_eq!(p.secondary, None);
            assert_eq!(p.tilt, None);
        }
        other => panic!("unexpected body {other:?}"),
    }
    match h.move_shade(3, ShadeUpdateMotion::Down).body {
        RequestBody::Positions(p) => assert_eq!(p.primary, Some(0)),
        other => panic!("unexpected body {other:?}"),
    }
    match h.move_shade(3, ShadeUpdateMotion::LeftTilt).body {
        RequestBody::Positions(p) => {
            assert_eq!(p.tilt, Some(0));
            assert_eq!(p.primary, None);
        }
        other => panic!("unexpected body {other:?}"),
    }
    match h.move_shade(3, ShadeUpdateMotion::RightTilt).body {
        RequestBody::Positions(p) => assert_eq!(p.tilt, Some(100)),
        other => panic!("unexpected body {other:?}"),
    }
    let jog = h.move_shade(3, ShadeUpdateMotion::Jog);
    assert_eq!(jog.url, "http://192.168.1.5/home/shades/3/motion");
    assert!(matches!(jog.body, RequestBody::Jog));
    let stop = h.move_shade(3, ShadeUpdateMotion::Stop);
    assert_eq!(stop.method, HttpMethod::Put);
    assert_eq!(stop.url, "http://192.168.1.5/home/shades/stop");
    match stop.body {
        RequestBody::StopIds(ids) => assert_eq!(ids, vec![3]),
        other => panic!("unexpected body {other:?}"),
    }
}

#[test]
fn activating_a_scene() {
    let r = hub().activate_scene(21);
    assert_eq!(r.method, HttpMethod::Put);
    assert_eq!(r.url, "http://192.168.1.5/home/scenes/21/activate");
    assert!(matches!(r.body, RequestBody::EmptyObject));
}

#[test]
fn event_stream_request() {
    let (r, _decoder) = hub().shade_events_stream();
    assert_eq!(r.method, HttpMethod::Get);
    assert_eq!(r.url, "http://192.168.1.5/home/shades/events?sse=true");
}

#[test]
fn rooms_are_sorted_by_name_stably() {
    let rooms = Hub::list_rooms(vec![room(1, "Den"), room(2, "Attic"), room(3, "Bath"), room(4, "Attic")]);
    let ids: Vec<i32> = rooms.iter().map(|r| r.id).collect();
    assert_eq!(ids, vec![2, 4, 3, 1]);
}

#[test]
fn scenes_are_sorted_by_name() {
    let scenes = Hub::list_scenes(vec![scene(1, "b", vec![]), scene(2, "B", vec![]), scene(3, "a", vec![])]);
    let names: Vec<&str> = scenes.iter().map(|s| s.pt_name.as_str()).collect();
    assert_eq!(names, vec!["B", "a", "b"]);
}

#[test]
fn shades_filtered_by_room_then_sorted() {
    let all = vec![shade(1, "Zed", 10), shade(2, "Alpha", 20), shade(3, "Mid", 10)];
    let in_10 = Hub::list_shades(all.clone(), Some(10));
    let ids: Vec<i32> = in_10.iter().map(|s| s.id).collect();
    assert_eq!(ids, vec![3, 1]);
    let every = Hub::list_shades(all, None);
    let ids: Vec<i32> = every.iter().map(|s| s.id).collect();
    assert_eq!(ids, vec![2, 3, 1]);
}

#[test]
fn lookups_by_name_or_id() {
    let rooms = Hub::list_rooms(vec![room(5, "Living Room"), room(6, "Den")]);
    assert_eq!(Hub::room_by_name(rooms.clone(), "living room").unwrap().id, 5);
    assert_eq!(Hub::room_by_name(rooms.clone(), "6").unwrap().id, 6);
    assert_eq!(Hub::room_by_name(rooms, "Attic").unwrap_err(), LookupError::NoRoom);
    let scenes = vec![scene(8, "Morning", vec![5])];
    assert_eq!(Hub::scene_by_name(scenes.clone(), "MORNING").unwrap().id, 8);
    assert_eq!(Hub::scene_by_name(scenes, "9").unwrap_err(), LookupError::NoScene);
    let shades = vec![shade(1, "Blind", 5), shade(2, "blind", 6)];
    assert_eq!(Hub::shade_by_name(shades.clone(), "BLIND").unwrap().id, 1);
    assert_eq!(Hub::shade_by_name(shades, "x").unwrap_err(), LookupError::NoShade);
}

#[test]
fn lookup_error_messages() {
    assert_eq!(LookupError::NoRoom.message("Den"), "No room with name or id matching 'Den' was found");
    assert_eq!(LookupError::NoScene.message("x"), "No scene with name or id matching 'x' was found");
    assert_eq!(LookupError::NoShade.message("7"), "No shade with name or id matching '7' was found");
}

#[test]
fn status_classes() {
    let get = HttpMethod::Get;
    let put = HttpMethod::Put;
    assert_eq!(classify_status(get, 200), StatusClass::Success);
    assert_eq!(classify_status(put, 204), StatusClass::Success);
    assert_eq!(classify_status(get, 299), StatusClass::Success);
    assert_eq!(classify_status(get, 300), StatusClass::Failure);
    assert_eq!(classify_status(get, 423), StatusClass::Locked);
    assert_eq!(classify_status(put, 423), StatusClass::Failure);
    assert_eq!(classify_status(put, 500), StatusClass::Failure);
}

#[test]
fn error_texts() {
    assert_eq!(
        status_error_message(404, "Not Found", "{}"),
        "request status 404: Not Found. Response body: {}"
    );
    let e = LockedError { body: "busy".to_string() };
    assert_eq!(e.message(), "Hub is Locked for maintenance. Response: busy");
}

#[test]
fn sse_single_event() {
    let mut d = SseDecoder::new();
    let out = d.push_text("data: {\"evt\":\"motion-started\",\"id\":3}\n\n");
    assert_eq!(out, vec!["{\"evt\":\"motion-started\",\"id\":3}".to_string()]);
}

#[test]
fn sse_events_split_across_chunks() {
    let mut d = SseDecoder::new();
    assert!(d.push_text("data: {\"a\"").is_empty());
    assert!(d.push_text(":1}\r\n\r").is_empty());
    assert_eq!(d.push_text("\ndata: 2\n\ndata:"), vec!["{\"a\":1}".to_string(), "2".to_string()]);
    assert_eq!(d.push_text(" 3 \n\n"), vec!["3".to_string()]);
}

#[test]
fn sse_ignores_other_lines() {
    let mut d = SseDecoder::new();
    let out = d.push_text("event: shade\nid: 4\ndata: x\r\nretry: 5\n\n: comment\n\n");
    assert_eq!(out, vec!["x".to_string()]);
}

#[test]
fn sse_prefers_crlf_delimiter() {
    let mut d = SseDecoder::new();
    let out = d.push_text("data: a\n\ndata: b\r\n\r\n");
    assert_eq!(out, vec!["a".to_string(), "b".to_string()]);
}

#[test]
fn sse_bytes_are_decoded_lossily() {
    let mut d = SseDecoder::new();
    let out = d.push_bytes(b"data: caf\xc3\xa9 \xff\n\n");
    assert_eq!(out, vec!["caf\u{e9} \u{fffd}".to_string()]);
}

#[test]
fn sse_any_split_gives_the_same_payloads() {
    let text = "data: 1\r\n\r\nid: x\ndata: 2\n\ndata:3\r\ndata: 4\n\n\ndata: 5\r\n\r\ndata: 6";
    let mut whole = SseDecoder::new();
    let expected = whole.push_text(text);
    assert_eq!(expected, vec!["1", "2", "3", "4", "5"]);
    let chars: Vec<char> = text.chars().collect();
    for cut in 0..=chars.len() {
        let a: String = chars[..cut].iter().collect();
        let b: String = chars[cut..].iter().collect();
        let mut d = SseDecoder::new();
        let mut got = d.push_text(&a);
        got.extend(d.push_text(&b));
        assert_eq!(got, expected, "cut at {cut}");
        assert!(d.push_text("\n\n") == vec!["6".to_string()], "cut at {cut}");
    }
}

#[test]
fn sse_any_byte_split_of_ascii_gives_the_same_payloads() {
    let bytes: &[u8] = b"data: {\"id\":1}\r\n\r\nretry: 3\ndata: 2\n\ndata: 3";
    let mut whole = SseDecoder::new();
    let expected = whole.push_bytes(bytes);
    assert_eq!(expected, vec!["{\"id\":1}", "2"]);
    for cut in 0..=bytes.len() {
        let mut d = SseDecoder::new();
        let mut got = d.push_bytes(&bytes[..cut]);
        got.extend(d.push_bytes(&bytes[cut..]));
        assert_eq!(got, expected, "cut at {cut}");
        assert_eq!(d.push_bytes(b"\n\n"), vec!["3".to_string()], "cut at {cut}");
    }
}
