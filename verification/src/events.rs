//! The bridge's decisions: what it does on a shade event, on a command from
//! Home Assistant, while a shade moves, and when the hub is rediscovered.
//! Each decision is a list of actions that the caller carries out in order,
//! stopping at the first that fails.
use vstd::prelude::*;
use crate::bridge::{
    jog_config, shade_configs, shade_device,
    device_id, open_closed, rail_id, rail_id_text, secondary_suffix, sensor_topic, shade_topic,
    shade_topic_text, Pv2MqttState,
};
use crate::hass::{DiscoveryConfigView, PayloadView, RegEntryView};
use crate::hub::{only_primary, only_secondary, Hub, HttpMethod, HubRequest};
use crate::text::{
    chars_of, dec_int, dec_nat, ends_with, lemma_dec_int_ends_in_digit, law_i32_text_round_trip,
    parse_i32, parse_i32_spec, push_dec, str_eq,
};
use crate::types::{
    battery_percent_spec, has_secondary_rail, GatewayConfig, RoomData, ShadeData, ShadeEvent, ShadeEventKind, ShadePosition,
    ShadeUpdateMotion,
};

verus! {

// ── Actions ──────────────────────────────────────────────────────────────────

/// One thing for the bridge to do.
#[derive(Clone, Debug)]
pub enum BridgeAction {
    /// Publish `payload` to `topic`.
    Publish { topic: String, payload: String },
    /// Stop the position interpolation running for this shade, if any.
    CancelInterpolation(i32),
    /// Start interpolating the position of a moving shade, and remember the
    /// task for that shade.
    StartInterpolation(Interpolation),
    /// Fetch the shade from the hub, then carry out `refreshed_shade_actions`
    /// for it (a failed fetch is only logged).
    FetchShade(i32),
    /// Send a request to the hub.
    HubCall(HubRequest),
}

/// What an action is, as far as contracts speak of it.
pub enum BridgeActionView {
    Publish(Seq<char>, Seq<char>),
    CancelInterpolation(i32),
    StartInterpolation(i32, ShadePosition, ShadePosition, u64, Option<u8>, Option<u8>),
    FetchShade(i32),
    HubCall(HttpMethod, Seq<char>),
}

impl View for BridgeAction {
    type V = BridgeActionView;

    open spec fn view(&self) -> BridgeActionView {
        match self {
            BridgeAction::Publish { topic, payload } => BridgeActionView::Publish(topic@, payload@),
            BridgeAction::CancelInterpolation(id) => BridgeActionView::CancelInterpolation(*id),
            BridgeAction::StartInterpolation(i) => BridgeActionView::StartInterpolation(
                i.shade_id,
                i.start,
                i.target,
                i.eta_ms,
                i.last_primary,
                i.last_secondary,
            ),
            BridgeAction::FetchShade(id) => BridgeActionView::FetchShade(*id),
            BridgeAction::HubCall(r) => BridgeActionView::HubCall(r.method, r.url@),
        }
    }
}

/// The actions as views.
pub open spec fn actions_view(v: Seq<BridgeAction>) -> Seq<BridgeActionView> {
    v.map_values(|a: BridgeAction| a@)
}

/// Publishing `payload` to `topic`.
pub open spec fn publish(topic: Seq<char>, payload: Seq<char>) -> BridgeActionView {
    BridgeActionView::Publish(topic, payload)
}

fn publish_action(topic: String, payload: String) -> (r: BridgeAction)
    ensures
        r@ == publish(topic@, payload@),
{
    BridgeAction::Publish { topic, payload }
}

fn dec_u8_text(p: u8) -> (r: String)
    ensures
        r@ == dec_nat(p as nat),
{
    let mut r = String::new();
    push_dec(&mut r, p as u64);
    assert(r@ =~= dec_nat(p as nat));
    r
}

/// Publishing a rail's position and its open/closed state.
pub open spec fn position_and_state(serial: Seq<char>, rail: Seq<char>, p: u8) -> Seq<BridgeActionView> {
    seq![
        publish(shade_topic(serial, rail, "position"@), dec_nat(p as nat)),
        publish(shade_topic(serial, rail, "state"@), open_closed(p)),
    ]
}

fn push_position_and_state(
    state: &Pv2MqttState,
    shade_id: i32,
    secondary: bool,
    p: u8,
    out: &mut Vec<BridgeAction>,
)
    ensures
        actions_view(final(out)@) == actions_view(old(out)@) + position_and_state(
            state.serial@,
            rail_id(shade_id, secondary),
            p,
        ),
{
    let rail = rail_id_text(shade_id, secondary);
    out.push(publish_action(shade_topic_text(state.serial.as_str(), rail.as_str(), "position"), dec_u8_text(p)));
    let label = if p == 0 {
        String::from_str("closed")
    } else {
        String::from_str("open")
    };
    out.push(publish_action(shade_topic_text(state.serial.as_str(), rail.as_str(), "state"), label));
    assert(actions_view(out@) =~= actions_view(old(out)@) + position_and_state(
        state.serial@,
        rail_id(shade_id, secondary),
        p,
    ));
}

// ── Shade events ─────────────────────────────────────────────────────────────

/// How long position interpolation runs: the hub's estimate less 1.5 s,
/// but at least 0.5 s.
pub open spec fn interpolation_eta(eta_ms: u64) -> u64 {
    if eta_ms >= 2000 {
        (eta_ms - 1500) as u64
    } else {
        500
    }
}

/// The interpolation of a moving shade runs for the hub's estimate less
/// 1.5 s, but at least 0.5 s: the larger of `eta - 1500` and `500`
/// milliseconds.
pub proof fn law_interpolation_runs_until_eta(eta_ms: u64)
    ensures
        interpolation_eta(eta_ms) >= 500,
        interpolation_eta(eta_ms) + 1500 >= eta_ms,
        interpolation_eta(eta_ms) == 500 || interpolation_eta(eta_ms) + 1500 == eta_ms,
{
}

/// What the bridge does on a shade event.
pub open spec fn shade_event_actions(serial: Seq<char>, e: ShadeEvent) -> Seq<BridgeActionView> {
    match e.evt {
        ShadeEventKind::MotionStopped => seq![BridgeActionView::CancelInterpolation(e.id)]
            + match e.current_positions {
            Some(p) => (match p.primary {
                Some(v) => position_and_state(serial, rail_id(e.id, false), v),
                None => Seq::empty(),
            }) + (match p.secondary {
                Some(v) => position_and_state(serial, rail_id(e.id, true), v),
                None => Seq::empty(),
            }),
            None => Seq::empty(),
        },
        ShadeEventKind::MotionStarted => seq![
            publish(
                shade_topic(serial, rail_id(e.id, false), "state"@),
                "moving"@,
            ),
            BridgeActionView::CancelInterpolation(e.id),
        ] + match (e.current_positions, e.target_positions) {
            (Some(c), Some(t)) => match t.eta_ms {
                Some(eta) => seq![
                    BridgeActionView::StartInterpolation(e.id, c, t, interpolation_eta(eta), None, None),
                ],
                None => Seq::empty(),
            },
            _ => Seq::empty(),
        },
        ShadeEventKind::ShadeOffline => seq![
            publish(shade_topic(serial, rail_id(e.id, false), "availability"@), "offline"@),
            publish(shade_topic(serial, rail_id(e.id, true), "availability"@), "offline"@),
        ],
        ShadeEventKind::ShadeOnline => seq![BridgeActionView::FetchShade(e.id)],
        ShadeEventKind::BatteryAlert => seq![BridgeActionView::FetchShade(e.id)],
        ShadeEventKind::Unknown => Seq::empty(),
    }
}

/// When a shade starts moving towards a target with an estimated arrival,
/// the last thing the bridge does is start interpolating from its current
/// to its target position for the larger of `eta - 1500` and `500`
/// milliseconds, with nothing published yet.
pub proof fn law_motion_started_interpolates(serial: Seq<char>, e: ShadeEvent)
    requires
        e.evt == ShadeEventKind::MotionStarted,
        e.current_positions is Some,
        e.target_positions matches Some(t) && t.eta_ms is Some,
    ensures
        ({
            let cur = e.current_positions->0;
            let tgt = e.target_positions->0;
            let eta = tgt.eta_ms->0;
            shade_event_actions(serial, e).last() matches BridgeActionView::StartInterpolation(
                id,
                c,
                t,
                run,
                lp,
                ls,
            ) && id == e.id && c == cur && t == tgt && lp is None && ls is None && run >= 500 && run
                + 1500 >= eta && (run == 500 || run + 1500 == eta)
        }),
{
    law_interpolation_runs_until_eta(e.target_positions->0.eta_ms->0);
}

/// Decides what to do on a shade event of the hub.
pub fn handle_shade_event(state: &Pv2MqttState, event: ShadeEvent) -> (r: Vec<BridgeAction>)
    ensures
        actions_view(r@) == shade_event_actions(state.serial@, event),
{
    let ghost e = event;
    let serial = state.serial.as_str();
    let mut out: Vec<BridgeAction> = Vec::new();
    match event.evt {
        ShadeEventKind::MotionStopped => {
            out.push(BridgeAction::CancelInterpolation(event.id));
            if let Some(p) = event.current_positions {
                if let Some(v) = p.primary {
                    push_position_and_state(state, event.id, false, v, &mut out);
                }
                if let Some(v) = p.secondary {
                    push_position_and_state(state, event.id, true, v, &mut out);
                }
            }
        },
        ShadeEventKind::MotionStarted => {
            let label = String::from_str("moving");
            let rail = rail_id_text(event.id, false);
            out.push(publish_action(shade_topic_text(serial, rail.as_str(), "state"), label));
            out.push(BridgeAction::CancelInterpolation(event.id));
            if let (Some(c), Some(t)) = (event.current_positions, event.target_positions) {
                if let Some(eta) = t.eta_ms {
                    let run = if eta >= 2000 {
                        eta - 1500
                    } else {
                        500
                    };
                    out.push(
                        BridgeAction::StartInterpolation(Interpolation::new(event.id, c, t, run)),
                    );
                }
            }
        },
        ShadeEventKind::ShadeOffline => {
            let rail = rail_id_text(event.id, false);
            out.push(publish_action(shade_topic_text(serial, rail.as_str(), "availability"), String::from_str("offline")));
            let rail2 = rail_id_text(event.id, true);
            out.push(publish_action(shade_topic_text(serial, rail2.as_str(), "availability"), String::from_str("offline")));
        },
        ShadeEventKind::ShadeOnline => {
            out.push(BridgeAction::FetchShade(event.id));
        },
        ShadeEventKind::BatteryAlert => {
            out.push(BridgeAction::FetchShade(event.id));
        },
        ShadeEventKind::Unknown => {},
    }
    assert(actions_view(out@) =~= shade_event_actions(state.serial@, e));
    out
}

/// What the bridge publishes for a shade fetched after it came online or
/// raised a battery alert: online, the rail positions, and the battery level.
pub open spec fn refreshed_shade_actions(serial: Seq<char>, shade: ShadeData) -> Seq<BridgeActionView> {
    let dev = device_id(serial, shade.id);
    seq![publish(shade_topic(serial, rail_id(shade.id, false), "availability"@), "online"@)]
        + (match shade.positions.primary {
        Some(p) => seq![publish(shade_topic(serial, rail_id(shade.id, false), "position"@), dec_nat(p as nat))],
        None => Seq::empty(),
    }) + (match shade.positions.secondary {
        Some(p) => seq![publish(shade_topic(serial, rail_id(shade.id, true), "position"@), dec_nat(p as nat))],
        None => Seq::empty(),
    }) + match shade.battery_status {
        Some(b) => seq![
            publish("pv2mqtt/sensor/"@ + dev + "-battery/state"@, dec_nat(battery_percent_spec(b) as nat)),
            publish(sensor_topic(serial, shade.id, "battery/availability"@), "online"@),
        ],
        None => seq![publish(sensor_topic(serial, shade.id, "battery/availability"@), "offline"@)],
    }
}

/// The publications for a shade fetched from the hub.
pub fn refreshed_shade_actions_exec(state: &Pv2MqttState, shade: &ShadeData) -> (r: Vec<BridgeAction>)
    ensures
        actions_view(r@) == refreshed_shade_actions(state.serial@, *shade),
{
    let serial = state.serial.as_str();
    let mut out: Vec<BridgeAction> = Vec::new();
    let rail = rail_id_text(shade.id, false);
    out.push(publish_action(shade_topic_text(serial, rail.as_str(), "availability"), String::from_str("online")));
    if let Some(p) = shade.pos1_percent() {
        out.push(publish_action(shade_topic_text(serial, rail.as_str(), "position"), dec_u8_text(p)));
    }
    if let Some(p) = shade.pos2_percent() {
        let rail2 = rail_id_text(shade.id, true);
        out.push(publish_action(shade_topic_text(serial, rail2.as_str(), "position"), dec_u8_text(p)));
    }
    let availability = state.battery_availability_topic(shade);
    match shade.battery_percent() {
        Some(pct) => {
            out.push(publish_action(state.battery_state_topic(shade), dec_u8_text(pct)));
            out.push(publish_action(availability, String::from_str("online")));
        },
        None => {
            out.push(publish_action(availability, String::from_str("offline")));
        },
    }
    assert(actions_view(out@) =~= refreshed_shade_actions(state.serial@, *shade));
    out
}

// ── Position interpolation ───────────────────────────────────────────────────

/// The percentage of a rail that travels from `start` to `target` in
/// `eta_ms`, after `elapsed_ms`: `start + (target - start) * t` with
/// `t = elapsed / eta` clamped to 1, rounded half away from zero.
pub open spec fn interpolate_spec(start: u8, target: u8, elapsed_ms: u64, eta_ms: u64) -> int {
    if eta_ms == 0 {
        target as int
    } else {
        let e: int = if elapsed_ms < eta_ms {
            elapsed_ms as int
        } else {
            eta_ms as int
        };
        let n = start as int * (eta_ms - e) + target as int * e;
        (2 * n + eta_ms) / (2 * eta_ms as int)
    }
}

proof fn lemma_interpolate_bounds(s: int, g: int, e: int, eta: int)
    requires
        0 <= s <= 255,
        0 <= g <= 255,
        0 <= e <= eta,
        eta > 0,
    ensures
        ({
            let n = s * (eta - e) + g * e;
            let v = (2 * n + eta) / (2 * eta);
            &&& 0 <= n <= 255 * eta
            &&& (s <= g ==> s <= v <= g)
            &&& (g <= s ==> g <= v <= s)
        }),
{
    let n = s * (eta - e) + g * e;
    let lo = if s <= g {
        s
    } else {
        g
    };
    let hi = if s <= g {
        g
    } else {
        s
    };
    assert(lo * eta <= n <= hi * eta) by (nonlinear_arith)
        requires
            n == s * (eta - e) + g * e,
            lo <= s <= hi,
            lo <= g <= hi,
            0 <= e <= eta,
    ;
    assert(n <= 255 * eta) by (nonlinear_arith)
        requires
            n <= hi * eta,
            hi <= 255,
            eta > 0,
    ;
    assert(0 <= n) by (nonlinear_arith)
        requires
            lo * eta <= n,
            lo >= 0,
            eta > 0,
    ;
    let v = (2 * n + eta) / (2 * eta);
    assert(lo <= v) by (nonlinear_arith)
        requires
            lo * eta <= n,
            eta > 0,
            v == (2 * n + eta) / (2 * eta),
    ;
    assert(v <= hi) by (nonlinear_arith)
        requires
            n <= hi * eta,
            eta > 0,
            v == (2 * n + eta) / (2 * eta),
    ;
}

/// The interpolation starts at the start position and, from the estimated
/// arrival on (`t` clamped to 1), stays at the target.
pub proof fn law_interpolation_endpoints(start: u8, target: u8, elapsed_ms: u64, eta_ms: u64)
    ensures
        eta_ms > 0 ==> interpolate_spec(start, target, 0, eta_ms) == start,
        elapsed_ms >= eta_ms ==> interpolate_spec(start, target, elapsed_ms, eta_ms) == target,
{
    if eta_ms > 0 {
        let eta = eta_ms as int;
        let s = start as int;
        let g = target as int;
        assert(s * (eta - 0) + g * 0 == s * eta) by (nonlinear_arith);
        assert((2 * (s * eta) + eta) / (2 * eta) == s) by (nonlinear_arith)
            requires
                eta > 0,
                s >= 0,
        {
            assert(2 * (s * eta) + eta == s * (2 * eta) + eta) by (nonlinear_arith);
        }
        if elapsed_ms >= eta_ms {
            assert(s * (eta - eta) + g * eta == g * eta) by (nonlinear_arith);
            assert((2 * (g * eta) + eta) / (2 * eta) == g) by (nonlinear_arith)
                requires
                    eta > 0,
                    g >= 0,
            {
                assert(2 * (g * eta) + eta == g * (2 * eta) + eta) by (nonlinear_arith);
            }
        }
    }
}

/// While a shade moves, its interpolated position never goes back: it only
/// grows when the target is above the start, and only shrinks when below.
pub proof fn law_interpolation_monotonic(start: u8, target: u8, e1: u64, e2: u64, eta_ms: u64)
    requires
        e1 <= e2,
    ensures
        start <= target ==> interpolate_spec(start, target, e1, eta_ms) <= interpolate_spec(
            start,
            target,
            e2,
            eta_ms,
        ),
        target <= start ==> interpolate_spec(start, target, e2, eta_ms) <= interpolate_spec(
            start,
            target,
            e1,
            eta_ms,
        ),
{
    if eta_ms > 0 {
        let eta = eta_ms as int;
        let s = start as int;
        let g = target as int;
        let a: int = if e1 < eta_ms { e1 as int } else { eta };
        let b: int = if e2 < eta_ms { e2 as int } else { eta };
        assert(a <= b);
        let n1 = s * (eta - a) + g * a;
        let n2 = s * (eta - b) + g * b;
        if s <= g {
            assert(n1 <= n2) by (nonlinear_arith)
                requires
                    s <= g,
                    a <= b,
                    n1 == s * (eta - a) + g * a,
                    n2 == s * (eta - b) + g * b,
            ;
            assert((2 * n1 + eta) / (2 * eta) <= (2 * n2 + eta) / (2 * eta)) by (nonlinear_arith)
                requires
                    n1 <= n2,
                    eta > 0,
            ;
        }
        if g <= s {
            assert(n2 <= n1) by (nonlinear_arith)
                requires
                    g <= s,
                    a <= b,
                    n1 == s * (eta - a) + g * a,
                    n2 == s * (eta - b) + g * b,
            ;
            assert((2 * n2 + eta) / (2 * eta) <= (2 * n1 + eta) / (2 * eta)) by (nonlinear_arith)
                requires
                    n2 <= n1,
                    eta > 0,
            ;
        }
    }
}

/// The interpolated percentage (see `interpolate_spec`); it lies between
/// `start` and `target`.
pub fn interpolate_pct(start: u8, target: u8, elapsed_ms: u64, eta_ms: u64) -> (r: u8)
    ensures
        r as int == interpolate_spec(start, target, elapsed_ms, eta_ms),
        start <= target ==> start <= r <= target,
        target <= start ==> target <= r <= start,
{
    if eta_ms == 0 {
        return target;
    }
    let e: u64 = if elapsed_ms < eta_ms {
        elapsed_ms
    } else {
        eta_ms
    };
    proof {
        lemma_interpolate_bounds(start as int, target as int, e as int, eta_ms as int);
    }
    let eta = eta_ms as u128;
    let n: u128 = (start as u128) * (eta - e as u128) + (target as u128) * (e as u128);
    let v: u128 = (2 * n + eta) / (2 * eta);
    v as u8
}

/// The running interpolation of a moving shade's position.
#[derive(Clone, Debug)]
pub struct Interpolation {
    pub shade_id: i32,
    pub start: ShadePosition,
    pub target: ShadePosition,
    /// How long the interpolation runs, in milliseconds.
    pub eta_ms: u64,
    /// The primary percentage last published, if any.
    pub last_primary: Option<u8>,
    /// The secondary percentage last published, if any.
    pub last_secondary: Option<u8>,
}

/// The interval between interpolation ticks.
pub open spec fn interpolation_tick_ms() -> u64 {
    100
}

/// The tick interval, in milliseconds.
pub fn interpolation_tick() -> (r: u64)
    ensures
        r == interpolation_tick_ms(),
{
    100
}

/// The percentage of one rail at a tick, when the rail's start and target are both known.
pub open spec fn rail_tick_value(
    start: Option<u8>,
    target: Option<u8>,
    elapsed_ms: u64,
    eta_ms: u64,
) -> Option<u8> {
    match (start, target) {
        (Some(s), Some(g)) => Some(interpolate_spec(s, g, elapsed_ms, eta_ms) as u8),
        _ => None,
    }
}

/// A rail's publication at a tick: only when its value differs from the
/// last one published.
pub open spec fn rail_tick_publish(
    serial: Seq<char>,
    rail: Seq<char>,
    value: Option<u8>,
    last: Option<u8>,
) -> Seq<BridgeActionView> {
    match value {
        Some(v) => if last == Some(v) {
            Seq::empty()
        } else {
            seq![publish(shade_topic(serial, rail, "position"@), dec_nat(v as nat))]
        },
        None => Seq::empty(),
    }
}

/// The last published value after a tick.
pub open spec fn rail_tick_last(value: Option<u8>, last: Option<u8>) -> Option<u8> {
    match value {
        Some(v) => Some(v),
        None => last,
    }
}

impl Interpolation {
    /// An interpolation that has published nothing yet.
    pub fn new(shade_id: i32, start: ShadePosition, target: ShadePosition, eta_ms: u64) -> (r: Interpolation)
        ensures
            r.shade_id == shade_id,
            r.start == start,
            r.target == target,
            r.eta_ms == eta_ms,
            r.last_primary is None,
            r.last_secondary is None,
    {
        Interpolation { shade_id, start, target, eta_ms, last_primary: None, last_secondary: None }
    }

    fn rail_tick(
        &self,
        serial: &str,
        secondary: bool,
        start: Option<u8>,
        target: Option<u8>,
        last: Option<u8>,
        elapsed_ms: u64,
        out: &mut Vec<BridgeAction>,
    ) -> (r: Option<u8>)
        ensures
            r == rail_tick_last(rail_tick_value(start, target, elapsed_ms, self.eta_ms), last),
            actions_view(final(out)@) == actions_view(old(out)@) + rail_tick_publish(
                serial@,
                rail_id(self.shade_id, secondary),
                rail_tick_value(start, target, elapsed_ms, self.eta_ms),
                last,
            ),
    {
        match (start, target) {
            (Some(s), Some(g)) => {
                let v = interpolate_pct(s, g, elapsed_ms, self.eta_ms);
                let same = match last {
                    Some(l) => l == v,
                    None => false,
                };
                if !same {
                    let rail = rail_id_text(self.shade_id, secondary);
                    out.push(publish_action(shade_topic_text(serial, rail.as_str(), "position"), dec_u8_text(v)));
                }
                assert(actions_view(out@) =~= actions_view(old(out)@) + rail_tick_publish(
                    serial@,
                    rail_id(self.shade_id, secondary),
                    rail_tick_value(start, target, elapsed_ms, self.eta_ms),
                    last,
                ));
                Some(v)
            },
            _ => {
                assert(actions_view(out@) =~= actions_view(old(out)@) + rail_tick_publish(
                    serial@,
                    rail_id(self.shade_id, secondary),
                    rail_tick_value(start, target, elapsed_ms, self.eta_ms),
                    last,
                ));
                last
            },
        }
    }

    /// One tick, `elapsed_ms` after the motion started: the positions to
    /// publish (each rail only when its percentage changed), and whether the
    /// interpolation is over.
    pub fn tick(&mut self, state: &Pv2MqttState, elapsed_ms: u64) -> (r: (Vec<BridgeAction>, bool))
        ensures
            actions_view(r.0@) == rail_tick_publish(
                state.serial@,
                rail_id(old(self).shade_id, false),
                rail_tick_value(old(self).start.primary, old(self).target.primary, elapsed_ms, old(self).eta_ms),
                old(self).last_primary,
            ) + rail_tick_publish(
                state.serial@,
                rail_id(old(self).shade_id, true),
                rail_tick_value(old(self).start.secondary, old(self).target.secondary, elapsed_ms, old(self).eta_ms),
                old(self).last_secondary,
            ),
            r.1 == (elapsed_ms >= old(self).eta_ms),
            final(self).last_primary == rail_tick_last(
                rail_tick_value(old(self).start.primary, old(self).target.primary, elapsed_ms, old(self).eta_ms),
                old(self).last_primary,
            ),
            final(self).last_secondary == rail_tick_last(
                rail_tick_value(old(self).start.secondary, old(self).target.secondary, elapsed_ms, old(self).eta_ms),
                old(self).last_secondary,
            ),
            final(self).shade_id == old(self).shade_id,
            final(self).start == old(self).start,
            final(self).target == old(self).target,
            final(self).eta_ms == old(self).eta_ms,
    {
        let mut out: Vec<BridgeAction> = Vec::new();
        let serial = state.serial.as_str();
        let p = self.rail_tick(serial, false, self.start.primary, self.target.primary, self.last_primary, elapsed_ms, &mut out);
        let s = self.rail_tick(serial, true, self.start.secondary, self.target.secondary, self.last_secondary, elapsed_ms, &mut out);
        self.last_primary = p;
        self.last_secondary = s;
        assert(actions_view(out@) =~= actions_view(Seq::<BridgeAction>::empty()) + actions_view(out@));
        (out, elapsed_ms >= self.eta_ms)
    }
}

// ── Commands from Home Assistant ─────────────────────────────────────────────

/// A shade rail as addressed in a topic: `{id}` or `{id}_middle`.
#[derive(Clone, Copy, Debug, PartialEq, Eq, Structural)]
pub struct ShadeIdAddr {
    pub shade_id: i32,
    pub is_secondary: bool,
}

/// The address was not a shade id.
#[derive(Clone, Copy, Debug, PartialEq, Eq, Structural)]
pub struct ShadeIdAddrError {}

/// How a rail address is read: a trailing `_middle` selects the secondary
/// rail; what is left must parse as an `i32`.
pub open spec fn shade_addr_spec(s: Seq<char>) -> Option<(int, bool)> {
    let suffix = secondary_suffix();
    if s.len() >= suffix.len() && s.skip(s.len() - suffix.len()) == suffix {
        match parse_i32_spec(s.take(s.len() - suffix.len())) {
            Some(v) => Some((v, true)),
            None => None,
        }
    } else {
        match parse_i32_spec(s) {
            Some(v) => Some((v, false)),
            None => None,
        }
    }
}

impl ShadeIdAddr {
    /// Reads a rail address.
    pub fn from_str(s: &str) -> (r: Result<ShadeIdAddr, ShadeIdAddrError>)
        ensures
            match r {
                Ok(a) => shade_addr_spec(s@) == Some((a.shade_id as int, a.is_secondary)),
                Err(_) => shade_addr_spec(s@) is None,
            },
    {
        let v = chars_of(s);
        let suffix = ['_', 'm', 'i', 'd', 'd', 'l', 'e'];
        assert(suffix@ =~= secondary_suffix()) by {
            reveal_strlit("_middle");
        }
        if ends_with(&v, &suffix) {
            let n = v.len() - 7;
            let head = &v[0..n];
            assert(head@ == s@.take(s@.len() - 7));
            match parse_i32(head) {
                Some(id) => Ok(ShadeIdAddr { shade_id: id, is_secondary: true }),
                None => Err(ShadeIdAddrError {}),
            }
        } else {
            match parse_i32(&v) {
                Some(id) => Ok(ShadeIdAddr { shade_id: id, is_secondary: false }),
                None => Err(ShadeIdAddrError {}),
            }
        }
    }
}

/// The address of a rail reads back as that rail: the command topics that
/// the bridge registers for a shade's rails lead back to the same shade and
/// rail.
pub proof fn law_rail_address_round_trip(shade_id: i32, secondary: bool)
    ensures
        shade_addr_spec(rail_id(shade_id, secondary)) == Some((shade_id as int, secondary)),
{
    law_i32_text_round_trip(shade_id);
    lemma_dec_int_ends_in_digit(shade_id as int);
    reveal_strlit("_middle");
    let d = dec_int(shade_id as int);
    let suffix = secondary_suffix();
    if secondary {
        let s = d + suffix;
        assert(s.skip(s.len() - suffix.len()) =~= suffix);
        assert(s.take(s.len() - suffix.len()) =~= d);
    } else if d.len() >= suffix.len() {
        assert(d.skip(d.len() - suffix.len()).last() == d.last());
    }
}

/// Whether a command topic's serial number is this hub's; commands for
/// other hubs are ignored.
pub fn addressed_to_us(state: &Pv2MqttState, serial: &str) -> (r: bool)
    ensures
        r == (serial@ == state.serial@),
{
    str_eq(serial, state.serial.as_str())
}

/// Activating a scene: a request to the hub when the topic is for this hub.
pub fn mqtt_scene_activate(state: &Pv2MqttState, hub: &Hub, serial: &str, scene_id: i32) -> (r: Vec<BridgeAction>)
    ensures
        serial@ != state.serial@ ==> r@.len() == 0,
        serial@ == state.serial@ ==> actions_view(r@) == seq![
            BridgeActionView::HubCall(
                HttpMethod::Put,
                hub.url_spec("home/scenes/"@ + dec_int(scene_id as int) + "/activate"@),
            ),
        ],        serial@ == state.serial@ ==> (r@[0] matches BridgeAction::HubCall(req) && req.body is EmptyObject),
{
    let mut out: Vec<BridgeAction> = Vec::new();
    if addressed_to_us(state, serial) {
        out.push(BridgeAction::HubCall(hub.activate_scene(scene_id)));
        assert(actions_view(out@) =~= seq![
            BridgeActionView::HubCall(
                HttpMethod::Put,
                hub.url_spec("home/scenes/"@ + dec_int(scene_id as int) + "/activate"@),
            ),
        ]);
    }
    out
}

/// Whether a shade moving to `position` is opening: unless its current
/// position is known and above the target.
pub open spec fn set_position_label(current: Option<u8>, position: u8) -> Seq<char> {
    match current {
        Some(cur) => if position > cur {
            "opening"@
        } else if position < cur {
            "closing"@
        } else {
            "opening"@
        },
        None => "opening"@,
    }
}

/// Setting a rail's position (on a shade fetched from the hub): publish
/// whether it is opening or closing, then ask the hub to move that rail
/// alone.
pub fn mqtt_shade_set_position(
    state: &Pv2MqttState,
    hub: &Hub,
    addr: ShadeIdAddr,
    position: u8,
    shade: &ShadeData,
) -> (r: Vec<BridgeAction>)
    ensures
        r@.len() == 2,
        r@[0]@ == publish(
            shade_topic(state.serial@, rail_id(addr.shade_id, addr.is_secondary), "state"@),
            set_position_label(
                if addr.is_secondary {
                    shade.positions.secondary
                } else {
                    shade.positions.primary
                },
                position,
            ),
        ),
        r@[1] matches BridgeAction::HubCall(req) && req.method == HttpMethod::Put
            && req.url@ == hub.url_spec(crate::hub::shade_path(addr.shade_id) + "/positions"@)
            && (req.body matches crate::hub::RequestBody::Positions(p) && if addr.is_secondary {
            only_secondary(p, position)
        } else {
            only_primary(p, position)
        }),
{
    let mut pos = ShadePosition::empty();
    if addr.is_secondary {
        pos.secondary = Some(position);
    } else {
        pos.primary = Some(position);
    }
    let current = if addr.is_secondary {
        shade.pos2_percent()
    } else {
        shade.pos1_percent()
    };
    let opening = match current {
        Some(cur) => !(position < cur),
        None => true,
    };
    let label = if opening {
        String::from_str("opening")
    } else {
        String::from_str("closing")
    };
    let rail = rail_id_text(addr.shade_id, addr.is_secondary);
    let mut out: Vec<BridgeAction> = Vec::new();
    out.push(publish_action(shade_topic_text(state.serial.as_str(), rail.as_str(), "state"), label));
    out.push(BridgeAction::HubCall(hub.set_shade_position(addr.shade_id, pos)));
    out
}

/// The commands a shade's command topic takes.
pub open spec fn command_motion(command: Seq<char>) -> Option<ShadeUpdateMotion> {
    if command == "OPEN"@ {
        Some(ShadeUpdateMotion::Up)
    } else if command == "CLOSE"@ {
        Some(ShadeUpdateMotion::Down)
    } else if command == "STOP"@ {
        Some(ShadeUpdateMotion::Stop)
    } else if command == "JOG"@ {
        Some(ShadeUpdateMotion::Jog)
    } else {
        None
    }
}

/// The jog button that the bridge registers for a shade sends, to the
/// shade's command topic, a command that the bridge answers by jogging the
/// shade.
pub proof fn law_jog_button_jogs(prefix: Seq<char>, serial: Seq<char>, shade: ShadeData, rooms: Seq<RoomData>)
    ensures
        exists|k: int|
            0 <= k < shade_configs(prefix, serial, shade, rooms).len() && (#[trigger] shade_configs(
                prefix,
                serial,
                shade,
                rooms,
            )[k] matches RegEntryView::Msg(
                _,
                PayloadView::Config(DiscoveryConfigView::Button { command_topic, payload_press, .. }),
            ) && command_topic == shade_topic(serial, rail_id(shade.id, false), "command"@)
                && (payload_press matches Some(p) && command_motion(p) == Some(ShadeUpdateMotion::Jog))),
{
    reveal_strlit("JOG");
    reveal_strlit("OPEN");
    reveal_strlit("CLOSE");
    reveal_strlit("STOP");
    let cs = shade_configs(prefix, serial, shade, rooms);
    let k: int = if has_secondary_rail(shade.capabilities) {
        2
    } else {
        1
    };
    let device = shade_device(serial, shade, rooms);
    assert(cs[k] == crate::hass::config_msg(
        prefix + "/button/"@ + device_id(serial, shade.id) + "-jog/config"@,
        jog_config(serial, shade, device),
    ));
    assert("JOG"@.len() == 3 && "OPEN"@.len() == 4 && "CLOSE"@.len() == 5 && "STOP"@.len() == 4);
    assert(command_motion("JOG"@) == Some(ShadeUpdateMotion::Jog));
}

/// A command for a shade: OPEN and CLOSE first publish that the shade is
/// opening or closing; other commands are ignored.
pub fn mqtt_shade_command(state: &Pv2MqttState, hub: &Hub, shade_id: i32, command: &str) -> (r: Vec<BridgeAction>)
    ensures
        command_motion(command@) is None ==> r@.len() == 0,
        command_motion(command@) == Some(ShadeUpdateMotion::Up) ==> r@.len() == 2 && r@[0]@
            == publish(shade_topic(state.serial@, rail_id(shade_id, false), "state"@), "opening"@),
        command_motion(command@) == Some(ShadeUpdateMotion::Down) ==> r@.len() == 2 && r@[0]@
            == publish(shade_topic(state.serial@, rail_id(shade_id, false), "state"@), "closing"@),
        command_motion(command@) == Some(ShadeUpdateMotion::Stop) ==> r@.len() == 1,
        command_motion(command@) == Some(ShadeUpdateMotion::Jog) ==> r@.len() == 1,
        command_motion(command@) matches Some(m) ==> (r@.last() matches BridgeAction::HubCall(req)
            && hub.is_move_request(shade_id, m, req)),
{
    let mut out: Vec<BridgeAction> = Vec::new();
    let rail = rail_id_text(shade_id, false);
    if str_eq(command, "OPEN") {
        out.push(publish_action(shade_topic_text(state.serial.as_str(), rail.as_str(), "state"), String::from_str("opening")));
        out.push(BridgeAction::HubCall(hub.move_shade(shade_id, ShadeUpdateMotion::Up)));
    } else if str_eq(command, "CLOSE") {
        out.push(publish_action(shade_topic_text(state.serial.as_str(), rail.as_str(), "state"), String::from_str("closing")));
        out.push(BridgeAction::HubCall(hub.move_shade(shade_id, ShadeUpdateMotion::Down)));
    } else if str_eq(command, "STOP") {
        out.push(BridgeAction::HubCall(hub.move_shade(shade_id, ShadeUpdateMotion::Stop)));
    } else if str_eq(command, "JOG") {
        out.push(BridgeAction::HubCall(hub.move_shade(shade_id, ShadeUpdateMotion::Jog)));
    }
    out
}

// ── Rediscovery of the hub ───────────────────────────────────────────────────

/// What to do when the hub is discovered again.
#[derive(Clone, Copy, Debug, PartialEq, Eq, Structural)]
pub enum DiscoveryDecision {
    /// Another hub, or nothing changed.
    Ignore,
    /// The hub answered no gateway data: mark it unresponsive.
    MarkUnresponsive,
    /// The hub moved or came back: mark it responding, use the new address,
    /// and register with Home Assistant again.
    Rebind,
}

/// The decision on a rediscovered hub.
pub open spec fn discovery_decision_spec(
    serial: Seq<char>,
    responding: bool,
    current_ip: Seq<char>,
    found: Option<(Seq<char>, Seq<char>)>,
) -> DiscoveryDecision {
    match found {
        None => DiscoveryDecision::MarkUnresponsive,
        Some((found_serial, found_ip)) => if found_serial != serial {
            DiscoveryDecision::Ignore
        } else if responding && found_ip == current_ip {
            DiscoveryDecision::Ignore
        } else {
            DiscoveryDecision::Rebind
        },
    }
}

/// Decides what a rediscovered hub (with the gateway data it answered, if
/// any) means for the bridge.
pub fn handle_discovery(
    state: &Pv2MqttState,
    responding: bool,
    current: &GatewayConfig,
    found: &Option<GatewayConfig>,
) -> (r: DiscoveryDecision)
    ensures
        r == discovery_decision_spec(
            state.serial@,
            responding,
            current.network_status.ip_address@,
            match found {
                Some(g) => Some((g.serial_number@, g.network_status.ip_address@)),
                None => None,
            },
        ),
{
    match found {
        None => DiscoveryDecision::MarkUnresponsive,
        Some(g) => {
            if !str_eq(g.serial_number.as_str(), state.serial.as_str()) {
                DiscoveryDecision::Ignore
            } else if responding && str_eq(
                g.network_status.ip_address.as_str(),
                current.network_status.ip_address.as_str(),
            ) {
                DiscoveryDecision::Ignore
            } else {
                DiscoveryDecision::Rebind
            }
        },
    }
}

/// The message that marks the hub unresponsive.
pub fn advise_hass_of_unresponsive(state: &Pv2MqttState) -> (r: BridgeAction)
    ensures
        r@ == publish("pv2mqtt/sensor/"@ + state.serial@ + "-responding/state"@, "UNRESPONSIVE"@),
{
    let mut topic = String::from_str("pv2mqtt/sensor/");
    topic.append(state.serial.as_str());
    topic.append("-responding/state");
    publish_action(topic, String::from_str("UNRESPONSIVE"))
}

/// Whether a found hub is one the discovery task hands on: it answered
/// gateway data, and its serial number is the wanted one when one is wanted.
pub fn discovery_accepts(serial_filter: &Option<String>, found: &Option<GatewayConfig>) -> (r: bool)
    ensures
        r == (match found {
            Some(g) => match serial_filter {
                Some(s) => s@ == g.serial_number@,
                None => true,
            },
            None => false,
        }),
{
    match found {
        None => false,
        Some(g) => match serial_filter {
            Some(s) => str_eq(s.as_str(), g.serial_number.as_str()),
            None => true,
        },
    }
}

/// Why a periodic refresh failed, as far as the bridge cares.
#[derive(Clone, Copy, Debug, PartialEq, Eq, Structural)]
pub enum FailureCause {
    /// The connection to the hub could not be made.
    Connect,
    /// The hub is locked for maintenance.
    Locked,
    Other,
}

/// A failed refresh means the hub is unresponsive when any cause in the
/// error's chain is a connection failure or a locked hub.
pub fn is_unresponsive(causes: &Vec<FailureCause>) -> (r: bool)
    ensures
        r == exists|i: int| 0 <= i < causes@.len() && (causes@[i] == FailureCause::Connect || causes@[i] == FailureCause::Locked),
{
    let mut i: usize = 0;
    while i < causes.len()
        invariant
            i <= causes@.len(),
            forall|j: int| 0 <= j < i ==> !(causes@[j] == FailureCause::Connect || causes@[j] == FailureCause::Locked),
        decreases causes.len() - i,
    {
        let c = causes[i];
        if c == FailureCause::Connect || c == FailureCause::Locked {
            return true;
        }
        i = i + 1;
    }
    false
}

} // verus!
