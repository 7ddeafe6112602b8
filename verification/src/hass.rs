//! Home Assistant MQTT discovery: the entity configurations this bridge
//! announces, and the queue of messages that registers them.
use vstd::prelude::*;

verus! {

// ── Discovery configurations ─────────────────────────────────────────────────

/// Where an entity comes from; this bridge announces the same origin for all
/// of its entities.
#[derive(Clone, Copy, Debug, PartialEq, Eq, Structural)]
pub struct Origin {}

impl Origin {
    /// The origin of every entity.
    pub fn default_origin() -> (r: Origin) {
        Origin {}
    }
}

/// The device an entity belongs to.
#[derive(Clone, Debug)]
pub struct Device {
    pub identifiers: Vec<String>,
    pub connections: Vec<(String, String)>,
    pub name: String,
    pub manufacturer: String,
    pub model: String,
    pub sw_version: Option<String>,
    pub suggested_area: Option<String>,
    pub via_device: Option<String>,
}

/// A device as contracts speak of it.
pub struct DeviceView {
    pub identifiers: Seq<Seq<char>>,
    pub connections: Seq<(Seq<char>, Seq<char>)>,
    pub name: Seq<char>,
    pub manufacturer: Seq<char>,
    pub model: Seq<char>,
    pub sw_version: Option<Seq<char>>,
    pub suggested_area: Option<Seq<char>>,
    pub via_device: Option<Seq<char>>,
}

impl View for Device {
    type V = DeviceView;

    open spec fn view(&self) -> DeviceView {
        DeviceView {
            identifiers: self.identifiers.deep_view(),
            connections: self.connections.deep_view(),
            name: self.name@,
            manufacturer: self.manufacturer@,
            model: self.model@,
            sw_version: self.sw_version.deep_view(),
            suggested_area: self.suggested_area.deep_view(),
            via_device: self.via_device.deep_view(),
        }
    }
}

/// A copy of an optional string.
pub fn copy_opt_string(s: &Option<String>) -> (r: Option<String>)
    ensures
        r.deep_view() == s.deep_view(),
{
    match s {
        Some(v) => Some(v.clone()),
        None => None,
    }
}

/// A copy of a list of strings.
pub fn copy_strings(v: &Vec<String>) -> (r: Vec<String>)
    ensures
        r.deep_view() == v.deep_view(),
{
    let mut r: Vec<String> = Vec::new();
    let mut i: usize = 0;
    while i < v.len()
        invariant
            i <= v@.len(),
            r@.len() == i,
            forall|k: int| 0 <= k < i ==> (#[trigger] r@[k])@ == v@[k]@,
        decreases v.len() - i,
    {
        let c = v[i].clone();
        r.push(c);
        i = i + 1;
    }
    assert(r.deep_view() =~= v.deep_view());
    r
}

fn copy_pairs(v: &Vec<(String, String)>) -> (r: Vec<(String, String)>)
    ensures
        r.deep_view() == v.deep_view(),
{
    let mut r: Vec<(String, String)> = Vec::new();
    let mut i: usize = 0;
    while i < v.len()
        invariant
            i <= v@.len(),
            r@.len() == i,
            forall|k: int| 0 <= k < i ==> (#[trigger] r@[k]).0@ == v@[k].0@ && r@[k].1@ == v@[k].1@,
        decreases v.len() - i,
    {
        let (a, b) = &v[i];
        r.push((a.clone(), b.clone()));
        i = i + 1;
    }
    assert(r.deep_view() =~= v.deep_view());
    r
}

impl Device {
    /// A copy of the device.
    pub fn duplicate(&self) -> (r: Device)
        ensures
            r@ == self@,
    {
        Device {
            identifiers: copy_strings(&self.identifiers),
            connections: copy_pairs(&self.connections),
            name: self.name.clone(),
            manufacturer: self.manufacturer.clone(),
            model: self.model.clone(),
            sw_version: copy_opt_string(&self.sw_version),
            suggested_area: copy_opt_string(&self.suggested_area),
            via_device: copy_opt_string(&self.via_device),
        }
    }
}

/// What every discovered entity announces.
#[derive(Clone, Debug)]
pub struct EntityConfig {
    pub name: Option<String>,
    pub availability_topic: String,
    pub device: Device,
    pub device_class: Option<String>,
    pub origin: Origin,
    pub unique_id: String,
    pub entity_category: Option<String>,
    pub icon: Option<String>,
}

/// An entity configuration as contracts speak of it.
pub struct EntityConfigView {
    pub name: Option<Seq<char>>,
    pub availability_topic: Seq<char>,
    pub device: DeviceView,
    pub device_class: Option<Seq<char>>,
    pub unique_id: Seq<char>,
    pub entity_category: Option<Seq<char>>,
    pub icon: Option<Seq<char>>,
}

impl View for EntityConfig {
    type V = EntityConfigView;

    open spec fn view(&self) -> EntityConfigView {
        EntityConfigView {
            name: self.name.deep_view(),
            availability_topic: self.availability_topic@,
            device: self.device@,
            device_class: self.device_class.deep_view(),
            unique_id: self.unique_id@,
            entity_category: self.entity_category.deep_view(),
            icon: self.icon.deep_view(),
        }
    }
}

/// A read-only sensor.
#[derive(Clone, Debug)]
pub struct SensorConfig {
    pub base: EntityConfig,
    pub state_topic: String,
    pub unit_of_measurement: Option<String>,
}

/// A cover (a shade rail) with position control.
#[derive(Clone, Debug)]
pub struct CoverConfig {
    pub base: EntityConfig,
    pub command_topic: String,
    pub position_topic: String,
    pub set_position_topic: String,
    pub state_topic: String,
}

/// A push button.
#[derive(Clone, Debug)]
pub struct ButtonConfig {
    pub base: EntityConfig,
    pub command_topic: String,
    pub payload_press: Option<String>,
}

/// A scene that can be turned on.
#[derive(Clone, Debug)]
pub struct SceneConfig {
    pub base: EntityConfig,
    pub command_topic: String,
    pub payload_on: String,
}

/// One discovery configuration.
#[derive(Clone, Debug)]
pub enum DiscoveryConfig {
    Sensor(SensorConfig),
    Cover(CoverConfig),
    Button(ButtonConfig),
    Scene(SceneConfig),
}

/// A discovery configuration as contracts speak of it.
pub enum DiscoveryConfigView {
    Sensor { base: EntityConfigView, state_topic: Seq<char>, unit_of_measurement: Option<Seq<char>> },
    Cover {
        base: EntityConfigView,
        command_topic: Seq<char>,
        position_topic: Seq<char>,
        set_position_topic: Seq<char>,
        state_topic: Seq<char>,
    },
    Button { base: EntityConfigView, command_topic: Seq<char>, payload_press: Option<Seq<char>> },
    Scene { base: EntityConfigView, command_topic: Seq<char>, payload_on: Seq<char> },
}

impl View for DiscoveryConfig {
    type V = DiscoveryConfigView;

    open spec fn view(&self) -> DiscoveryConfigView {
        match self {
            DiscoveryConfig::Sensor(c) => DiscoveryConfigView::Sensor {
                base: c.base@,
                state_topic: c.state_topic@,
                unit_of_measurement: c.unit_of_measurement.deep_view(),
            },
            DiscoveryConfig::Cover(c) => DiscoveryConfigView::Cover {
                base: c.base@,
                command_topic: c.command_topic@,
                position_topic: c.position_topic@,
                set_position_topic: c.set_position_topic@,
                state_topic: c.state_topic@,
            },
            DiscoveryConfig::Button(c) => DiscoveryConfigView::Button {
                base: c.base@,
                command_topic: c.command_topic@,
                payload_press: c.payload_press.deep_view(),
            },
            DiscoveryConfig::Scene(c) => DiscoveryConfigView::Scene {
                base: c.base@,
                command_topic: c.command_topic@,
                payload_on: c.payload_on@,
            },
        }
    }
}

// ── The registration queue ───────────────────────────────────────────────────

/// What a message carries: text, or a configuration published as JSON.
#[derive(Clone, Debug)]
pub enum Payload {
    Text(String),
    Config(DiscoveryConfig),
}

/// One step of registering with Home Assistant.
#[derive(Clone, Debug)]
pub enum RegEntry {
    /// Wait this many milliseconds.
    Delay(u64),
    /// Publish a message.
    Msg { topic: String, payload: Payload },
}

/// A message payload as contracts speak of it.
pub enum PayloadView {
    Text(Seq<char>),
    Config(DiscoveryConfigView),
}

/// A registration step as contracts speak of it.
pub enum RegEntryView {
    Delay(u64),
    Msg(Seq<char>, PayloadView),
}

impl View for RegEntry {
    type V = RegEntryView;

    open spec fn view(&self) -> RegEntryView {
        match self {
            RegEntry::Delay(ms) => RegEntryView::Delay(*ms),
            RegEntry::Msg { topic, payload } => RegEntryView::Msg(
                topic@,
                match payload {
                    Payload::Text(t) => PayloadView::Text(t@),
                    Payload::Config(c) => PayloadView::Config(c@),
                },
            ),
        }
    }
}

/// The steps as views.
pub open spec fn entries_view(v: Seq<RegEntry>) -> Seq<RegEntryView> {
    v.map_values(|e: RegEntry| e@)
}

/// A text message.
pub open spec fn text_msg(topic: Seq<char>, payload: Seq<char>) -> RegEntryView {
    RegEntryView::Msg(topic, PayloadView::Text(payload))
}

/// A configuration message.
pub open spec fn config_msg(topic: Seq<char>, c: DiscoveryConfigView) -> RegEntryView {
    RegEntryView::Msg(topic, PayloadView::Config(c))
}

/// The pause before the deletions of retired entities are published.
pub open spec fn delete_pause_ms() -> u64 {
    4000
}

/// The delete queue after deleting `topics`: a pause first, then an empty
/// message for each topic.
pub open spec fn with_deletes(d: Seq<RegEntryView>, topics: Seq<Seq<char>>) -> Seq<RegEntryView> {
    if topics.len() == 0 {
        d
    } else {
        (if d.len() == 0 {
            seq![RegEntryView::Delay(delete_pause_ms())]
        } else {
            d
        }) + topics.map_values(|t: Seq<char>| text_msg(t, Seq::empty()))
    }
}

/// Deleting topics in two steps queues the same messages as deleting them
/// at once: one pause, then an empty message per topic, in order.
pub proof fn law_deletes_in_steps(d: Seq<RegEntryView>, a: Seq<Seq<char>>, b: Seq<Seq<char>>)
    ensures
        with_deletes(with_deletes(d, a), b) == with_deletes(d, a + b),
{
    let f = |t: Seq<char>| text_msg(t, Seq::empty());
    if a.len() > 0 && b.len() > 0 {
        assert((a + b).map_values(f) =~= a.map_values(f) + b.map_values(f));
    }
    if a.len() == 0 {
        assert(a + b =~= b);
    }
    if b.len() == 0 {
        assert(a + b =~= a);
    }
}

/// One call that fills a registration.
pub enum RegCall {
    /// `delete(topic)`
    Delete(Seq<char>),
    /// `config(topic, config)`
    Config(Seq<char>, DiscoveryConfigView),
    /// `update(topic, payload)`
    Update(Seq<char>, Seq<char>),
}

/// A registration after one call, as `delete`, `config` and `update` state it.
pub open spec fn reg_step(r: HassRegistrationView, call: RegCall) -> HassRegistrationView {
    match call {
        RegCall::Delete(t) => HassRegistrationView {
            deletes: with_deletes(r.deletes, seq![t]),
            configs: r.configs,
            updates: r.updates,
        },
        RegCall::Config(t, c) => HassRegistrationView {
            deletes: r.deletes,
            configs: r.configs.push(config_msg(t, c)),
            updates: r.updates,
        },
        RegCall::Update(t, p) => HassRegistrationView {
            deletes: r.deletes,
            configs: r.configs,
            updates: r.updates.push(text_msg(t, p)),
        },
    }
}

/// A registration after the calls, in order.
pub open spec fn reg_after(r: HassRegistrationView, calls: Seq<RegCall>) -> HassRegistrationView
    decreases calls.len(),
{
    if calls.len() == 0 {
        r
    } else {
        reg_step(reg_after(r, calls.drop_last()), calls.last())
    }
}

/// The topics deleted by the calls, in order.
pub open spec fn deleted_topics(calls: Seq<RegCall>) -> Seq<Seq<char>>
    decreases calls.len(),
{
    if calls.len() == 0 {
        Seq::empty()
    } else {
        deleted_topics(calls.drop_last()) + match calls.last() {
            RegCall::Delete(t) => seq![t],
            _ => Seq::empty(),
        }
    }
}

/// The configuration messages of the calls, in order.
pub open spec fn config_entries(calls: Seq<RegCall>) -> Seq<RegEntryView>
    decreases calls.len(),
{
    if calls.len() == 0 {
        Seq::empty()
    } else {
        config_entries(calls.drop_last()) + match calls.last() {
            RegCall::Config(t, c) => seq![config_msg(t, c)],
            _ => Seq::empty(),
        }
    }
}

/// The update messages of the calls, in order.
pub open spec fn update_entries(calls: Seq<RegCall>) -> Seq<RegEntryView>
    decreases calls.len(),
{
    if calls.len() == 0 {
        Seq::empty()
    } else {
        update_entries(calls.drop_last()) + match calls.last() {
            RegCall::Update(t, p) => seq![text_msg(t, p)],
            _ => Seq::empty(),
        }
    }
}

/// However `delete`, `config` and `update` are called on a new registration,
/// its deletions are empty when nothing was deleted, and otherwise one pause
/// of 4 s followed by an empty message for each deleted topic in call order;
/// its configurations and updates are the messages of those calls, in call
/// order.
pub proof fn law_registration_queues(calls: Seq<RegCall>)
    ensures
        reg_after(HassRegistration::new_view(), calls).deletes == (if deleted_topics(calls).len() == 0 {
            Seq::<RegEntryView>::empty()
        } else {
            seq![RegEntryView::Delay(delete_pause_ms())] + deleted_topics(calls).map_values(
                |t: Seq<char>| text_msg(t, Seq::empty()),
            )
        }),
        reg_after(HassRegistration::new_view(), calls).configs == config_entries(calls),
        reg_after(HassRegistration::new_view(), calls).updates == update_entries(calls),
    decreases calls.len(),
{
    let r = reg_after(HassRegistration::new_view(), calls);
    if calls.len() == 0 {
        assert(r.deletes =~= Seq::<RegEntryView>::empty());
        assert(r.configs =~= Seq::<RegEntryView>::empty());
        assert(r.updates =~= Seq::<RegEntryView>::empty());
    } else {
        let prev = calls.drop_last();
        law_registration_queues(prev);
        let d = deleted_topics(prev);
        law_deletes_in_steps(Seq::empty(), d, deleted_topics(calls).skip(d.len() as int));
        match calls.last() {
            RegCall::Delete(t) => {
                assert(deleted_topics(calls) =~= d + seq![t]);
                assert(deleted_topics(calls).skip(d.len() as int) =~= seq![t]);
                assert(config_entries(calls) =~= config_entries(prev));
                assert(update_entries(calls) =~= update_entries(prev));
            },
            RegCall::Config(t, c) => {
                assert(deleted_topics(calls) =~= d);
                assert(config_entries(calls) =~= config_entries(prev).push(config_msg(t, c)));
                assert(update_entries(calls) =~= update_entries(prev));
            },
            RegCall::Update(t, p) => {
                assert(deleted_topics(calls) =~= d);
                assert(config_entries(calls) =~= config_entries(prev));
                assert(update_entries(calls) =~= update_entries(prev).push(text_msg(t, p)));
            },
        }
    }
}

/// The messages that register entities with Home Assistant: deletions of
/// retired entities, configurations, then state updates.
pub struct HassRegistration {
    deletes: Vec<RegEntry>,
    configs: Vec<RegEntry>,
    updates: Vec<RegEntry>,
}

/// The three queues of a registration.
pub struct HassRegistrationView {
    pub deletes: Seq<RegEntryView>,
    pub configs: Seq<RegEntryView>,
    pub updates: Seq<RegEntryView>,
}

impl View for HassRegistration {
    type V = HassRegistrationView;

    closed spec fn view(&self) -> HassRegistrationView {
        HassRegistrationView {
            deletes: entries_view(self.deletes@),
            configs: entries_view(self.configs@),
            updates: entries_view(self.updates@),
        }
    }
}

/// The steps that registering carries out: on the first run the deletions,
/// the configurations, then (when there are both configurations and updates)
/// a pause of 30 ms per configuration so that Home Assistant can subscribe,
/// then the updates; on later runs only the configurations and updates.
pub open spec fn apply_plan(r: HassRegistrationView, is_first_run: bool) -> Seq<RegEntryView> {
    if is_first_run {
        r.deletes + r.configs + (if r.configs.len() > 0 && r.updates.len() > 0 {
            seq![RegEntryView::Delay((r.configs.len() * 30) as u64)]
        } else {
            Seq::empty()
        }) + r.updates
    } else {
        r.configs + r.updates
    }
}

impl HassRegistration {
    /// The view of an empty registration.
    pub open spec fn new_view() -> HassRegistrationView {
        HassRegistrationView {
            deletes: Seq::empty(),
            configs: Seq::empty(),
            updates: Seq::empty(),
        }
    }

    /// An empty registration.
    pub fn new() -> (r: HassRegistration)
        ensures
            r@ == HassRegistration::new_view(),
    {
        let r = HassRegistration { deletes: Vec::new(), configs: Vec::new(), updates: Vec::new() };
        assert(r@.deletes =~= Seq::<RegEntryView>::empty());
        assert(r@.configs =~= Seq::<RegEntryView>::empty());
        assert(r@.updates =~= Seq::<RegEntryView>::empty());
        r
    }

    /// Retires the entity configured at `topic` by publishing an empty
    /// message to it; the first deletion is preceded by a pause.
    pub fn delete(&mut self, topic: String)
        ensures
            final(self)@.deletes == with_deletes(old(self)@.deletes, seq![topic@]),
            final(self)@.configs == old(self)@.configs,
            final(self)@.updates == old(self)@.updates,
            final(self)@ == reg_step(old(self)@, RegCall::Delete(topic@)),
    {
        if self.deletes.len() == 0 {
            self.deletes.push(RegEntry::Delay(4000));
        }
        self.deletes.push(RegEntry::Msg { topic, payload: Payload::Text(String::new()) });
        proof {
            let f = |t: Seq<char>| text_msg(t, Seq::empty());
            assert(seq![topic@].map_values(f) =~= seq![text_msg(topic@, Seq::empty())]);
        }
        assert(self@.deletes =~= with_deletes(old(self)@.deletes, seq![topic@]));
    }

    /// Queues a configuration for `topic`.
    pub fn config(&mut self, topic: String, config: DiscoveryConfig)
        ensures
            final(self)@.configs == old(self)@.configs.push(config_msg(topic@, config@)),
            final(self)@.deletes == old(self)@.deletes,
            final(self)@.updates == old(self)@.updates,
            final(self)@ == reg_step(old(self)@, RegCall::Config(topic@, config@)),
    {
        self.configs.push(RegEntry::Msg { topic, payload: Payload::Config(config) });
        assert(self@.configs =~= old(self)@.configs.push(config_msg(topic@, config@)));
    }

    /// Queues a state update for `topic`.
    pub fn update(&mut self, topic: String, payload: String)
        ensures
            final(self)@.updates == old(self)@.updates.push(text_msg(topic@, payload@)),
            final(self)@.deletes == old(self)@.deletes,
            final(self)@.configs == old(self)@.configs,
            final(self)@ == reg_step(old(self)@, RegCall::Update(topic@, payload@)),
    {
        self.updates.push(RegEntry::msg(topic, payload));
        assert(self@.updates =~= old(self)@.updates.push(text_msg(topic@, payload@)));
    }

    /// How many configurations are queued.
    pub fn config_count(&self) -> (r: usize)
        ensures
            r == self@.configs.len(),
    {
        self.configs.len()
    }

    /// The steps to carry out, in order (see `apply_plan`).
    pub fn apply_updates(self, is_first_run: bool) -> (r: Vec<RegEntry>)
        requires
            self@.configs.len() * 30 <= u64::MAX,
        ensures
            entries_view(r@) == apply_plan(self@, is_first_run),
    {
        let ghost v = self@;
        let HassRegistration { mut deletes, mut configs, mut updates } = self;
        let mut out: Vec<RegEntry> = Vec::new();
        if is_first_run {
            let n_configs = configs.len();
            let n_updates = updates.len();
            out.append(&mut deletes);
            out.append(&mut configs);
            if n_configs > 0 && n_updates > 0 {
                let delay: u64 = (n_configs as u64) * 30;
                out.push(RegEntry::Delay(delay));
            }
            out.append(&mut updates);
        } else {
            out.append(&mut configs);
            out.append(&mut updates);
        }
        assert(entries_view(out@) =~= apply_plan(v, is_first_run));
        out
    }
}

impl RegEntry {
    /// A text message.
    pub fn msg(topic: String, payload: String) -> (r: RegEntry)
        ensures
            r@ == text_msg(topic@, payload@),
    {
        RegEntry::Msg { topic, payload: Payload::Text(payload) }
    }
}

} // verus!
