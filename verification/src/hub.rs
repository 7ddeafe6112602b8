//! The hub's REST interface: the requests the client sends, and what it makes
//! of the answers.
use vstd::prelude::*;
use crate::order::{find_by_name, is_first_match, matches_name, same_order_per_name, sort_by_name, sorted_by_name, Listed};
use crate::sse::SseDecoder;
use crate::text::{dec_int, push_dec, push_dec_i32};
use crate::types::{RoomData, Scene, ShadeData, ShadePosition, ShadeUpdateMotion};

verus! {

impl Listed for RoomData {
    open spec fn name_key(&self) -> Seq<char> {
        self.pt_name@
    }

    open spec fn id_value(&self) -> i32 {
        self.id
    }

    fn name_str(&self) -> (r: &str) {
        self.pt_name.as_str()
    }

    fn id_of(&self) -> (r: i32) {
        self.id
    }
}

impl Listed for Scene {
    open spec fn name_key(&self) -> Seq<char> {
        self.pt_name@
    }

    open spec fn id_value(&self) -> i32 {
        self.id
    }

    fn name_str(&self) -> (r: &str) {
        self.pt_name.as_str()
    }

    fn id_of(&self) -> (r: i32) {
        self.id
    }
}

impl Listed for ShadeData {
    open spec fn name_key(&self) -> Seq<char> {
        self.pt_name@
    }

    open spec fn id_value(&self) -> i32 {
        self.id
    }

    fn name_str(&self) -> (r: &str) {
        self.pt_name.as_str()
    }

    fn id_of(&self) -> (r: i32) {
        self.id
    }
}

// ── Requests ─────────────────────────────────────────────────────────────────

/// The HTTP method of a hub request.
#[derive(Clone, Copy, Debug, PartialEq, Eq, Structural)]
pub enum HttpMethod {
    Get,
    Put,
}

/// The JSON body of a request.
#[derive(Clone, Debug)]
pub enum RequestBody {
    /// No body.
    Empty,
    /// `{"positions": {...}}`, with only the axes that are present.
    Positions(ShadePosition),
    /// `{"motion": "jog"}`
    Jog,
    /// `{"ids": [...]}`
    StopIds(Vec<i32>),
    /// `{}`
    EmptyObject,
}

/// A request to the hub: method, URL and JSON body.
#[derive(Clone, Debug)]
pub struct HubRequest {
    pub method: HttpMethod,
    pub url: String,
    pub body: RequestBody,
}

/// A hub, reached over HTTP at its address.
#[derive(Clone, Debug)]
pub struct Hub {
    addr: String,
}

/// `home/shades/{id}`
pub open spec fn shade_path(id: i32) -> Seq<char> {
    "home/shades/"@ + dec_int(id as int)
}

/// What the hub is asked for each motion: `(method, path, body)`.
pub open spec fn body_is_position(b: RequestBody, p: ShadePosition) -> bool {
    b matches RequestBody::Positions(q) && q == p
}

/// A position that sets one axis and leaves the others out.
pub open spec fn only_primary(p: ShadePosition, v: u8) -> bool {
    p.primary == Some(v) && p.secondary is None && p.tilt is None && p.velocity is None
        && p.eta_ms is None
}

/// A position that sets only the secondary rail.
pub open spec fn only_secondary(p: ShadePosition, v: u8) -> bool {
    p.secondary == Some(v) && p.primary is None && p.tilt is None && p.velocity is None
        && p.eta_ms is None
}

/// A position that sets only the tilt.
pub open spec fn only_tilt(p: ShadePosition, v: u8) -> bool {
    p.tilt == Some(v) && p.primary is None && p.secondary is None && p.velocity is None
        && p.eta_ms is None
}

impl Hub {
    /// The hub's address, as text.
    pub closed spec fn address(&self) -> Seq<char> {
        self.addr@
    }

    /// The full URL of a path on the hub.
    pub open spec fn url_spec(&self, extra: Seq<char>) -> Seq<char> {
        "http://"@ + self.address() + "/"@ + extra
    }

    /// The hub at this address.
    pub fn with_addr(addr: String) -> (r: Hub)
        ensures
            r.address() == addr@,
    {
        Hub { addr }
    }

    /// The hub's address.
    pub fn addr(&self) -> (r: &str)
        ensures
            r@ == self.address(),
    {
        self.addr.as_str()
    }

    /// `http://{addr}/{extra}`
    pub fn url(&self, extra: &str) -> (r: String)
        ensures
            r@ == self.url_spec(extra@),
    {
        let mut r = String::from_str("http://");
        r.append(self.addr.as_str());
        r.append("/");
        r.append(extra);
        assert(r@ =~= self.url_spec(extra@));
        r
    }

    fn shade_url(&self, id: i32, tail: &str) -> (r: String)
        ensures
            r@ == self.url_spec(shade_path(id) + tail@),
    {
        let mut r = self.url("home/shades/");
        push_dec_i32(&mut r, id);
        r.append(tail);
        assert(r@ =~= self.url_spec(shade_path(id) + tail@));
        r
    }

    fn get(&self, path: &str) -> (r: HubRequest)
        ensures
            r.method == HttpMethod::Get,
            r.url@ == self.url_spec(path@),
            r.body is Empty,
    {
        HubRequest { method: HttpMethod::Get, url: self.url(path), body: RequestBody::Empty }
    }

    /// `GET home/rooms`
    pub fn rooms_request(&self) -> (r: HubRequest)
        ensures
            r.method == HttpMethod::Get,
            r.url@ == self.url_spec("home/rooms"@),
            r.body is Empty,
    {
        self.get("home/rooms")
    }

    /// `GET home/scenes`
    pub fn scenes_request(&self) -> (r: HubRequest)
        ensures
            r.method == HttpMethod::Get,
            r.url@ == self.url_spec("home/scenes"@),
            r.body is Empty,
    {
        self.get("home/scenes")
    }

    /// `GET home/shades` (the hub filters nothing by room).
    pub fn shades_request(&self) -> (r: HubRequest)
        ensures
            r.method == HttpMethod::Get,
            r.url@ == self.url_spec("home/shades"@),
            r.body is Empty,
    {
        self.get("home/shades")
    }

    /// `GET gateway`; the answer nests the configuration under `config`.
    pub fn get_gateway_data(&self) -> (r: HubRequest)
        ensures
            r.method == HttpMethod::Get,
            r.url@ == self.url_spec("gateway"@),
            r.body is Empty,
    {
        self.get("gateway")
    }

    /// `GET home/shades/{id}`
    pub fn shade_by_id(&self, shade_id: i32) -> (r: HubRequest)
        ensures
            r.method == HttpMethod::Get,
            r.url@ == self.url_spec(shade_path(shade_id)),
            r.body is Empty,
    {
        let mut url = self.url("home/shades/");
        push_dec_i32(&mut url, shade_id);
        assert(url@ =~= self.url_spec(shade_path(shade_id)));
        HubRequest { method: HttpMethod::Get, url, body: RequestBody::Empty }
    }

    /// `PUT home/shades/{id}/positions {"positions": position}`; the hub
    /// keeps the axes that the body leaves out.
    pub fn set_shade_position(&self, shade_id: i32, position: ShadePosition) -> (r: HubRequest)
        ensures
            r.method == HttpMethod::Put,
            r.url@ == self.url_spec(shade_path(shade_id) + "/positions"@),
            body_is_position(r.body, position),
    {
        HubRequest {
            method: HttpMethod::Put,
            url: self.shade_url(shade_id, "/positions"),
            body: RequestBody::Positions(position),
        }
    }

    /// The request that moves a shade: Up and Down set the primary rail
    /// to 100 % and 0 %, LeftTilt and RightTilt set the tilt to 0 % and 100 %,
    /// Jog is `PUT home/shades/{id}/motion {"motion":"jog"}`, Stop is
    /// `PUT home/shades/stop {"ids":[id]}`.
    pub open spec fn is_move_request(&self, shade_id: i32, motion: ShadeUpdateMotion, r: HubRequest) -> bool {
        &&& r.method == HttpMethod::Put
        &&& match motion {
            ShadeUpdateMotion::Up => r.url@ == self.url_spec(shade_path(shade_id) + "/positions"@)
                && (r.body matches RequestBody::Positions(p) && only_primary(p, 100)),
            ShadeUpdateMotion::Down => r.url@ == self.url_spec(shade_path(shade_id) + "/positions"@)
                && (r.body matches RequestBody::Positions(p) && only_primary(p, 0)),
            ShadeUpdateMotion::LeftTilt => r.url@ == self.url_spec(shade_path(shade_id) + "/positions"@)
                && (r.body matches RequestBody::Positions(p) && only_tilt(p, 0)),
            ShadeUpdateMotion::RightTilt => r.url@ == self.url_spec(shade_path(shade_id) + "/positions"@)
                && (r.body matches RequestBody::Positions(p) && only_tilt(p, 100)),
            ShadeUpdateMotion::Jog => r.url@ == self.url_spec(shade_path(shade_id) + "/motion"@)
                && r.body is Jog,
            ShadeUpdateMotion::Stop => r.url@ == self.url_spec("home/shades/stop"@)
                && (r.body matches RequestBody::StopIds(ids) && ids@ == seq![shade_id]),
        }
    }

    /// The request for a motion command (see `is_move_request`).
    pub fn move_shade(&self, shade_id: i32, motion: ShadeUpdateMotion) -> (r: HubRequest)
        ensures
            self.is_move_request(shade_id, motion, r),
    {
        match motion {
            ShadeUpdateMotion::Up => {
                let mut p = ShadePosition::empty();
                p.primary = Some(100);
                self.set_shade_position(shade_id, p)
            },
            ShadeUpdateMotion::Down => {
                let mut p = ShadePosition::empty();
                p.primary = Some(0);
                self.set_shade_position(shade_id, p)
            },
            ShadeUpdateMotion::LeftTilt => {
                let mut p = ShadePosition::empty();
                p.tilt = Some(0);
                self.set_shade_position(shade_id, p)
            },
            ShadeUpdateMotion::RightTilt => {
                let mut p = ShadePosition::empty();
                p.tilt = Some(100);
                self.set_shade_position(shade_id, p)
            },
            ShadeUpdateMotion::Jog => HubRequest {
                method: HttpMethod::Put,
                url: self.shade_url(shade_id, "/motion"),
                body: RequestBody::Jog,
            },
            ShadeUpdateMotion::Stop => {
                let mut ids: Vec<i32> = Vec::new();
                ids.push(shade_id);
                assert(ids@ =~= seq![shade_id]);
                HubRequest {
                    method: HttpMethod::Put,
                    url: self.url("home/shades/stop"),
                    body: RequestBody::StopIds(ids),
                }
            },
        }
    }

    /// `PUT home/scenes/{id}/activate {}`; the hub answers with the ids of
    /// the shades the scene moves.
    pub fn activate_scene(&self, scene_id: i32) -> (r: HubRequest)
        ensures
            r.method == HttpMethod::Put,
            r.url@ == self.url_spec("home/scenes/"@ + dec_int(scene_id as int) + "/activate"@),
            r.body is EmptyObject,
    {
        let mut url = self.url("home/scenes/");
        push_dec_i32(&mut url, scene_id);
        url.append("/activate");
        assert(url@ =~= self.url_spec("home/scenes/"@ + dec_int(scene_id as int) + "/activate"@));
        HubRequest { method: HttpMethod::Put, url, body: RequestBody::EmptyObject }
    }

    /// `GET home/shades/events?sse=true`, with a decoder for what it streams.
    pub fn shade_events_stream(&self) -> (r: (HubRequest, SseDecoder))
        ensures
            r.0.method == HttpMethod::Get,
            r.0.url@ == self.url_spec("home/shades/events?sse=true"@),
            r.0.body is Empty,
            r.1.pending() == Seq::<char>::empty(),
    {
        (self.get("home/shades/events?sse=true"), SseDecoder::new())
    }

    // ── What is made of the answers ─────────────────────────────────────────

    /// The rooms as listed, sorted by name.
    pub fn list_rooms(fetched: Vec<RoomData>) -> (r: Vec<RoomData>)
        ensures
            sorted_by_name(r@),
            same_order_per_name(r@, fetched@),
    {
        sort_by_name(fetched)
    }

    /// The scenes as listed, sorted by name.
    pub fn list_scenes(fetched: Vec<Scene>) -> (r: Vec<Scene>)
        ensures
            sorted_by_name(r@),
            same_order_per_name(r@, fetched@),
    {
        sort_by_name(fetched)
    }

    /// The shades as listed, those of room `room_id` only when it is given,
    /// sorted by name.
    pub fn list_shades(fetched: Vec<ShadeData>, room_id: Option<i32>) -> (r: Vec<ShadeData>)
        ensures
            sorted_by_name(r@),
            same_order_per_name(r@, in_room(fetched@, room_id)),
    {
        let kept = retain_room(fetched, room_id);
        sort_by_name(kept)
    }

    /// The first room (in sorted order) whose name or id is `name`.
    pub fn room_by_name(rooms: Vec<RoomData>, name: &str) -> (r: Result<RoomData, LookupError>)
        ensures
            match r {
                Ok(x) => exists|i: int| is_first_match(rooms@, name@, i) && x == rooms@[i],
                Err(e) => e == LookupError::NoRoom && forall|i: int|
                    0 <= i < rooms@.len() ==> !matches_name(#[trigger] rooms@[i], name@),
            },
    {
        match find_by_name(rooms, name) {
            Some(x) => Ok(x),
            None => Err(LookupError::NoRoom),
        }
    }

    /// The first scene (in sorted order) whose name or id is `name`.
    pub fn scene_by_name(scenes: Vec<Scene>, name: &str) -> (r: Result<Scene, LookupError>)
        ensures
            match r {
                Ok(x) => exists|i: int| is_first_match(scenes@, name@, i) && x == scenes@[i],
                Err(e) => e == LookupError::NoScene && forall|i: int|
                    0 <= i < scenes@.len() ==> !matches_name(#[trigger] scenes@[i], name@),
            },
    {
        match find_by_name(scenes, name) {
            Some(x) => Ok(x),
            None => Err(LookupError::NoScene),
        }
    }

    /// The first shade (in sorted order) whose name or id is `name`.
    pub fn shade_by_name(shades: Vec<ShadeData>, name: &str) -> (r: Result<ShadeData, LookupError>)
        ensures
            match r {
                Ok(x) => exists|i: int| is_first_match(shades@, name@, i) && x == shades@[i],
                Err(e) => e == LookupError::NoShade && forall|i: int|
                    0 <= i < shades@.len() ==> !matches_name(#[trigger] shades@[i], name@),
            },
    {
        match find_by_name(shades, name) {
            Some(x) => Ok(x),
            None => Err(LookupError::NoShade),
        }
    }
}

/// The shades of room `room_id`, in order; all of them when no room is given.
pub open spec fn in_room(s: Seq<ShadeData>, room_id: Option<i32>) -> Seq<ShadeData> {
    match room_id {
        Some(id) => s.filter(|x: ShadeData| x.room_id == id),
        None => s,
    }
}

fn retain_room(shades: Vec<ShadeData>, room_id: Option<i32>) -> (r: Vec<ShadeData>)
    ensures
        r@ == in_room(shades@, room_id),
{
    match room_id {
        None => shades,
        Some(id) => {
            let ghost orig = shades@;
            let ghost pred = |x: ShadeData| x.room_id == id;
            let n = shades.len();
            let mut pool = shades;
            let mut kept: Vec<ShadeData> = Vec::new();
            let mut i: usize = 0;
            while pool.len() > 0
                invariant
                    orig == orig.take(i as int) + pool@,
                    i + pool@.len() == orig.len(),
                    n == orig.len(),
                    kept@ == orig.take(i as int).filter(pred),
                    pred == (|x: ShadeData| x.room_id == id),
                decreases pool@.len(),
            {
                let x = pool.remove(0);
                let ghost prefix = orig.take(i as int);
                assert(orig.take(i + 1) =~= prefix.push(x));
                proof {
                    prefix.lemma_filter_push(x, pred);
                    assert(pred(x) == (x.room_id == id));
                }
                if x.room_id == id {
                    kept.push(x);
                }
                i = i + 1;
                assert(orig =~= orig.take(i as int) + pool@);
            }
            assert(orig.take(i as int) =~= orig);
            kept
        },
    }
}

// ── Errors ───────────────────────────────────────────────────────────────────

/// No object of the hub matched a name or id.
#[derive(Clone, Copy, Debug, PartialEq, Eq, Structural)]
pub enum LookupError {
    NoRoom,
    NoScene,
    NoShade,
}

impl LookupError {
    /// e.g. `No room with name or id matching 'Den' was found`
    pub fn message(&self, name: &str) -> (r: String)
        ensures
            r@ == "No "@ + (match self {
                LookupError::NoRoom => "room"@,
                LookupError::NoScene => "scene"@,
                LookupError::NoShade => "shade"@,
            }) + " with name or id matching '"@ + name@ + "' was found"@,
    {
        let mut r = String::from_str("No ");
        match self {
            LookupError::NoRoom => r.append("room"),
            LookupError::NoScene => r.append("scene"),
            LookupError::NoShade => r.append("shade"),
        }
        r.append(" with name or id matching '");
        r.append(name);
        r.append("' was found");
        r
    }
}

/// The hub answered 423: it is locked for maintenance.
#[derive(Clone, Debug)]
pub struct LockedError {
    pub body: String,
}

impl LockedError {
    /// `Hub is Locked for maintenance. Response: {body}`
    pub fn message(&self) -> (r: String)
        ensures
            r@ == "Hub is Locked for maintenance. Response: "@ + self.body@,
    {
        let mut r = String::from_str("Hub is Locked for maintenance. Response: ");
        r.append(self.body.as_str());
        r
    }
}

/// How the client treats an HTTP status.
#[derive(Clone, Copy, Debug, PartialEq, Eq, Structural)]
pub enum StatusClass {
    /// 2xx: the body is parsed as JSON.
    Success,
    /// 423: the hub is locked for maintenance (reported as such for GETs).
    Locked,
    /// Any other status: the request failed.
    Failure,
}

/// Success for 200–299; Locked for 423 in answer to a GET (a PUT answered
/// 423 fails like any other status); Failure otherwise.
pub fn classify_status(method: HttpMethod, status: u16) -> (r: StatusClass)
    ensures
        r == (if 200 <= status <= 299 {
            StatusClass::Success
        } else if status == 423 && method == HttpMethod::Get {
            StatusClass::Locked
        } else {
            StatusClass::Failure
        }),
{
    if 200 <= status && status <= 299 {
        StatusClass::Success
    } else if status == 423 && method == HttpMethod::Get {
        StatusClass::Locked
    } else {
        StatusClass::Failure
    }
}

/// `request status {code}: {reason}. Response body: {body}`
pub fn status_error_message(status: u16, reason: &str, body: &str) -> (r: String)
    ensures
        r@ == "request status "@ + dec_int(status as int) + ": "@ + reason@ + ". Response body: "@
            + body@,
{
    let mut r = String::from_str("request status ");
    push_dec(&mut r, status as u64);
    r.append(": ");
    r.append(reason);
    r.append(". Response body: ");
    r.append(body);
    assert(r@ =~= "request status "@ + dec_int(status as int) + ": "@ + reason@
        + ". Response body: "@ + body@);
    r
}

} // verus!
