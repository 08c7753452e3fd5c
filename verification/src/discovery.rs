//! Derivation of Home Assistant MQTT discovery configs from metrics: the
//! naming, unit and icon rules, and the topic shapes.

use vstd::prelude::*;

use crate::metrics::{Category, Metric, MetricView};
use crate::text::{
    ascii_lowercase_seq, ends_with, has_state_at, id_char_ok, lemma_normalize_id_chars,
    lemma_normalize_id_keeps_lowercase_suffix, lemma_replace_single, lower_of, lowercase,
    no_ascii_uppercase, normalize_id, normalize_id_seq, replace_state_seq,
    replace_state_with_config,
};

verus! {

/// The error for a metric/category pairing that has no derivation rule.
#[derive(Debug, Clone, Copy, PartialEq, Eq, Structural)]
pub struct UnsupportedCombination;

/// The descriptor Home Assistant consumes to auto-register one sensor.
#[derive(Clone)]
pub struct HomeAssistantDiscoveryConfig {
    pub(crate) name: String,
    pub(crate) unique_id: String,
    pub(crate) state_topic: String,
    pub(crate) unit_of_measurement: String,
    pub(crate) value_template: String,
    pub(crate) state_class: String,
    pub(crate) icon: String,
    pub(crate) expire_after: i16,
}

/// The mathematical shape of a discovery config.
#[verifier::ext_equal]
pub ghost struct DiscoveryConfigView {
    pub name: Seq<char>,
    pub unique_id: Seq<char>,
    pub state_topic: Seq<char>,
    pub unit_of_measurement: Seq<char>,
    pub value_template: Seq<char>,
    pub state_class: Seq<char>,
    pub icon: Seq<char>,
    pub expire_after: int,
}

impl View for HomeAssistantDiscoveryConfig {
    type V = DiscoveryConfigView;

    open(crate) spec fn view(&self) -> DiscoveryConfigView {
        DiscoveryConfigView {
            name: self.name@,
            unique_id: self.unique_id@,
            state_topic: self.state_topic@,
            unit_of_measurement: self.unit_of_measurement@,
            value_template: self.value_template@,
            state_class: self.state_class@,
            icon: self.icon@,
            expire_after: self.expire_after as int,
        }
    }
}

/// The sensor name a percentage metric registers under, keyed by category.
pub open spec fn percent_sensor_name(c: Category) -> Seq<char> {
    match c {
        Category::Disk => "diskUsePercent"@,
        Category::Memory => "memoryUsePercent"@,
        Category::Cpu => "cpuUsePercent"@,
        Category::Swap => "swapUsePercent"@,
        Category::FanSpeed => "fanSpeedPercent"@,
        Category::Temperature => Seq::empty(),
    }
}

/// The human-label suffix a percentage metric's name carries.
pub open spec fn percent_name_suffix(c: Category) -> Seq<char> {
    match c {
        Category::Disk => "disk"@,
        Category::Memory => "memory"@,
        Category::Cpu => "cpu"@,
        Category::Swap => "swap"@,
        Category::FanSpeed => "fanspeed_percent"@,
        Category::Temperature => Seq::empty(),
    }
}

/// The Material Design icon for a category.
pub open spec fn category_icon(c: Category) -> Seq<char> {
    match c {
        Category::Disk => "mdi:harddisk"@,
        Category::Memory => "mdi:memory"@,
        Category::Cpu => "mdi:cpu-64-bit"@,
        Category::Swap => "mdi:swap-horizontal"@,
        Category::FanSpeed => "mdi:fan"@,
        Category::Temperature => "mdi:thermometer"@,
    }
}

/// The categories whose used/total form may be published. The CPU has no
/// "used" concept, and a fan's used form only feeds the percentage
/// computation and is never itself published.
pub open spec fn used_supported(c: Category) -> bool {
    c is Disk || c is Memory || c is Swap
}

/// The sensor name a used/total metric registers under.
pub open spec fn used_sensor_name(c: Category) -> Seq<char> {
    match c {
        Category::Disk => "diskUsed"@,
        Category::Memory => "memoryUsed"@,
        Category::Swap => "swapUsed"@,
        _ => Seq::empty(),
    }
}

/// The human-label suffix a used/total metric's name carries.
pub open spec fn used_name_suffix(c: Category) -> Seq<char> {
    match c {
        Category::Disk => "disk_used"@,
        Category::Memory => "memory_used"@,
        Category::Swap => "swap_used"@,
        _ => Seq::empty(),
    }
}

/// The unit a used/total metric is reported in.
pub open spec fn used_unit(c: Category) -> Seq<char> {
    match c {
        Category::Disk => "GB"@,
        Category::Memory => "MB"@,
        Category::Swap => "MB"@,
        _ => Seq::empty(),
    }
}

/// The state topic belonging to a sensor id.
pub open spec fn spec_state_topic(unique_id: Seq<char>) -> Seq<char> {
    "homeassistant/sensor/"@ + unique_id + "/state"@
}

/// The config derived for a percentage metric.
pub open spec fn percent_config_view(host: Seq<char>, c: Category) -> DiscoveryConfigView {
    let unique_id = lower_of(host + percent_sensor_name(c));
    DiscoveryConfigView {
        name: host + "-"@ + percent_name_suffix(c),
        unique_id: unique_id,
        state_topic: spec_state_topic(unique_id),
        unit_of_measurement: "%"@,
        value_template: "{{ value_json.value }}"@,
        state_class: "measurement"@,
        icon: category_icon(c),
        expire_after: 300,
    }
}

/// The config derived for a used/total metric.
pub open spec fn used_config_view(host: Seq<char>, c: Category) -> DiscoveryConfigView {
    let unique_id = lower_of(host + used_sensor_name(c));
    DiscoveryConfigView {
        name: host + "-"@ + used_name_suffix(c),
        unique_id: unique_id,
        state_topic: spec_state_topic(unique_id),
        unit_of_measurement: used_unit(c),
        value_template: "{{ value_json.value }}"@,
        state_class: "measurement"@,
        icon: category_icon(c),
        expire_after: 300,
    }
}

/// The config derived for a per-component value metric: the name carries the
/// component label, and the unique id is that name with "-temp" appended,
/// lowercased and normalized to identifier characters.
pub open spec fn value_config_view(host: Seq<char>, component_label: Seq<char>, unit: Seq<char>)
    -> DiscoveryConfigView {
    let name = host + "-temperature-"@ + component_label;
    let unique_id = normalize_id_seq(lower_of(name + "-temp"@));
    DiscoveryConfigView {
        name: name,
        unique_id: unique_id,
        state_topic: spec_state_topic(unique_id),
        unit_of_measurement: unit,
        value_template: "{{ value_json.value }}"@,
        state_class: "measurement"@,
        icon: category_icon(Category::Temperature),
        expire_after: 300,
    }
}

/// The discovery config a metric derives to, or nothing where the
/// metric/category pairing has no rule: a percentage of the temperature
/// category, a used/total pair outside disk, memory and swap, or a
/// component value outside the temperature category.
pub open spec fn discovery_view(m: MetricView) -> Option<DiscoveryConfigView> {
    match m {
        MetricView::Percent { host, category, .. } => if !(category is Temperature) {
            Some(percent_config_view(host, category))
        } else {
            None
        },
        MetricView::Used { host, category, .. } => if used_supported(category) {
            Some(used_config_view(host, category))
        } else {
            None
        },
        MetricView::Value { host, category, component_label, unit, .. } => if category
            is Temperature {
            Some(value_config_view(host, component_label, unit))
        } else {
            None
        },
    }
}

fn assemble(name: String, unique_id: String, unit_of_measurement: String, icon: String) -> (c:
    HomeAssistantDiscoveryConfig)
    ensures
        c@ == (DiscoveryConfigView {
            name: name@,
            unique_id: unique_id@,
            state_topic: spec_state_topic(unique_id@),
            unit_of_measurement: unit_of_measurement@,
            value_template: "{{ value_json.value }}"@,
            state_class: "measurement"@,
            icon: icon@,
            expire_after: 300,
        }),
{
    let mut state_topic = String::from_str("homeassistant/sensor/");
    state_topic.append(unique_id.as_str());
    state_topic.append("/state");
    proof {
        assert(state_topic@ =~= spec_state_topic(unique_id@));
    }
    HomeAssistantDiscoveryConfig {
        name,
        unique_id,
        state_topic,
        unit_of_measurement,
        value_template: String::from_str("{{ value_json.value }}"),
        state_class: String::from_str("measurement"),
        icon,
        expire_after: 300,
    }
}

/// Derives the discovery config for a percentage metric; the temperature
/// category has no percentage rule and is rejected.
pub fn get_discovery_config_percent(host: &String, category: &Category) -> (r: Result<
    HomeAssistantDiscoveryConfig,
    UnsupportedCombination,
>)
    ensures
        r is Ok <==> !(*category is Temperature),
        r matches Ok(c) ==> c@ == percent_config_view(host@, *category),
        r matches Ok(c) ==> no_ascii_uppercase(c@.unique_id),
{
    let (suffix, sensor_name, icon): (&str, &str, &str) = match category {
        Category::Disk => ("disk", "diskUsePercent", "mdi:harddisk"),
        Category::Memory => ("memory", "memoryUsePercent", "mdi:memory"),
        Category::Cpu => ("cpu", "cpuUsePercent", "mdi:cpu-64-bit"),
        Category::Swap => ("swap", "swapUsePercent", "mdi:swap-horizontal"),
        Category::FanSpeed => ("fanspeed_percent", "fanSpeedPercent", "mdi:fan"),
        Category::Temperature => {
            return Err(UnsupportedCombination);
        },
    };
    let mut name = host.clone();
    name.append("-");
    name.append(suffix);
    let mut base = host.clone();
    base.append(sensor_name);
    let unique_id = lowercase(base.as_str());
    proof {
        assert(name@ =~= host@ + "-"@ + percent_name_suffix(*category));
        assert(base@ =~= host@ + percent_sensor_name(*category));
    }
    Ok(assemble(name, unique_id, String::from_str("%"), String::from_str(icon)))
}

/// Derives the discovery config for a used/total metric; only the disk,
/// memory and swap categories have such a rule.
pub fn get_discovery_config_used(host: &String, category: &Category, _total_bytes: u64) -> (r:
    Result<HomeAssistantDiscoveryConfig, UnsupportedCombination>)
    ensures
        r is Ok <==> used_supported(*category),
        r matches Ok(c) ==> c@ == used_config_view(host@, *category),
        r matches Ok(c) ==> no_ascii_uppercase(c@.unique_id),
{
    let (suffix, sensor_name, icon, unit): (&str, &str, &str, &str) = match category {
        Category::Disk => ("disk_used", "diskUsed", "mdi:harddisk", "GB"),
        Category::Memory => ("memory_used", "memoryUsed", "mdi:memory", "MB"),
        Category::Swap => ("swap_used", "swapUsed", "mdi:swap-horizontal", "MB"),
        _ => {
            return Err(UnsupportedCombination);
        },
    };
    let mut name = host.clone();
    name.append("-");
    name.append(suffix);
    let mut base = host.clone();
    base.append(sensor_name);
    let unique_id = lowercase(base.as_str());
    proof {
        assert(name@ =~= host@ + "-"@ + used_name_suffix(*category));
        assert(base@ =~= host@ + used_sensor_name(*category));
    }
    Ok(assemble(name, unique_id, String::from_str(unit), String::from_str(icon)))
}

/// Derives the discovery config for a per-component value metric; only the
/// temperature category has such a rule.
pub fn get_discovery_config_value(
    host: &String,
    component_label: &String,
    unit: &String,
    category: &Category,
) -> (r: Result<HomeAssistantDiscoveryConfig, UnsupportedCombination>)
    ensures
        r is Ok <==> *category is Temperature,
        r matches Ok(c) ==> c@ == value_config_view(host@, component_label@, unit@),
        r matches Ok(c) ==> no_ascii_uppercase(c@.unique_id),
        r matches Ok(c) ==> ends_with(c@.unique_id, "temp"@),
{
    match category {
        Category::Temperature => {},
        _ => {
            return Err(UnsupportedCombination);
        },
    }
    let mut name = host.clone();
    name.append("-temperature-");
    name.append(component_label.as_str());
    let mut base = name.clone();
    base.append("-temp");
    let lowered = lowercase(base.as_str());
    let unique_id = normalize_id(lowered.as_str());
    proof {
        assert(name@ =~= host@ + "-temperature-"@ + component_label@);
        assert(base@ =~= name@ + "-temp"@);
        reveal_strlit("-temp");
        reveal_strlit("temp");
        assert(base@.subrange(base@.len() - 4, base@.len() as int) =~= "temp"@);
        assert(ascii_lowercase_seq("temp"@));
        assert(ends_with(base@, "temp"@));
        assert(ends_with(lowered@, "temp"@));
        lemma_normalize_id_keeps_lowercase_suffix(lowered@, "temp"@);
        lemma_normalize_id_chars(lowered@);
        assert(no_ascii_uppercase(unique_id@));
    }
    Ok(assemble(name, unique_id, unit.clone(), String::from_str("mdi:thermometer")))
}

impl HomeAssistantDiscoveryConfig {
    /// Builds a config from its parts, as a caller that registers a sensor
    /// by hand would.
    pub fn new(
        name: String,
        unique_id: String,
        state_topic: String,
        unit_of_measurement: String,
        value_template: String,
        state_class: String,
        icon: String,
        expire_after: i16,
    ) -> (c: Self)
        ensures
            c@ == (DiscoveryConfigView {
                name: name@,
                unique_id: unique_id@,
                state_topic: state_topic@,
                unit_of_measurement: unit_of_measurement@,
                value_template: value_template@,
                state_class: state_class@,
                icon: icon@,
                expire_after: expire_after as int,
            }),
    {
        HomeAssistantDiscoveryConfig {
            name,
            unique_id,
            state_topic,
            unit_of_measurement,
            value_template,
            state_class,
            icon,
            expire_after,
        }
    }

    /// Derives the discovery config for a metric, total and pure; fails
    /// exactly for the pairings `discovery_view` declares unsupported.
    pub fn derive(metric: &Metric) -> (r: Result<
        HomeAssistantDiscoveryConfig,
        UnsupportedCombination,
    >)
        ensures
            r is Ok <==> discovery_view(metric@) is Some,
            r matches Ok(c) ==> Some(c@) == discovery_view(metric@),
            r matches Ok(c) ==> no_ascii_uppercase(c@.unique_id),
            r matches Ok(c) ==> (metric@ is Value ==> ends_with(c@.unique_id, "temp"@)),
    {
        match metric {
            Metric::Percent(host, category, _) => get_discovery_config_percent(host, category),
            Metric::Used(host, category, _, total) => get_discovery_config_used(
                host,
                category,
                *total,
            ),
            Metric::Value { host, category, component_label, unit, .. } => {
                get_discovery_config_value(host, component_label, unit, category)
            },
        }
    }

    /// The config topic: the state topic with "/state" replaced by
    /// "/config", exactly as str::replace computes it.
    pub fn get_config_topic(self) -> (r: String)
        ensures
            r@ == replace_state_seq(self@.state_topic),
    {
        replace_state_with_config(self.state_topic.as_str())
    }

    /// The state topic.
    pub fn get_state_topic(self) -> (r: String)
        ensures
            r@ == self@.state_topic,
    {
        self.state_topic
    }

    /// The human label.
    pub fn get_name(self) -> (r: String)
        ensures
            r@ == self@.name,
    {
        self.name
    }

    /// The sensor's unique id.
    pub fn get_unique_id(&self) -> (r: String)
        ensures
            r@ == self@.unique_id,
    {
        self.unique_id.clone()
    }

    /// The unit of measurement.
    pub fn get_unit_of_measurement(&self) -> (r: String)
        ensures
            r@ == self@.unit_of_measurement,
    {
        self.unit_of_measurement.clone()
    }

    /// The icon.
    pub fn get_icon(&self) -> (r: String)
        ensures
            r@ == self@.icon,
    {
        self.icon.clone()
    }
}

/// Derivation is deterministic: equal metrics derive equal configs (and so,
/// the payloads being functions of the config, byte-identical output).
pub proof fn lemma_derive_deterministic(m1: MetricView, m2: MetricView)
    requires
        m1 == m2,
    ensures
        discovery_view(m1) == discovery_view(m2),
{
}

/// A used/total observation for the CPU category has no discovery rule and
/// derivation fails on it.
pub proof fn lemma_used_cpu_has_no_config(m: MetricView)
    requires
        m is Used,
        m.category() is Cpu,
    ensures
        discovery_view(m) is None,
{
}

/// Every character of a derived component-value unique id is a lowercase
/// ASCII letter, a digit or an underscore; in particular no space survives
/// normalization.
pub proof fn lemma_value_unique_id_charset(host: Seq<char>, component_label: Seq<char>, unit: Seq<
    char,
>)
    ensures
        forall|i: int|
            0 <= i < value_config_view(host, component_label, unit).unique_id.len()
                ==> id_char_ok(
                #[trigger] value_config_view(host, component_label, unit).unique_id[i],
            ),
{
    lemma_normalize_id_chars(lower_of(host + "-temperature-"@ + component_label + "-temp"@));
}

/// For every sensor id that holds no slash and does not begin with "state",
/// the derived config topic rewrites exactly the trailing "/state" of the
/// state topic to "/config" and touches nothing before it.
pub proof fn lemma_config_topic_single_replacement(uid: Seq<char>)
    requires
        forall|i: int| 0 <= i < uid.len() ==> uid[i] != '/',
        uid.len() >= 5 ==> uid.subrange(0, 5) != "state"@,
    ensures
        replace_state_seq(spec_state_topic(uid)) == "homeassistant/sensor/"@ + uid + "/config"@,
{
    reveal_strlit("homeassistant/sensor/");
    reveal_strlit("/state");
    reveal_strlit("state");
    let p = "homeassistant/sensor/"@ + uid;
    let t = spec_state_topic(uid);
    assert(t =~= p + "/state"@);
    assert forall|i: int| 0 <= i < p.len() implies !#[trigger] has_state_at(t, i) by {
        if has_state_at(t, i) {
            assert(t.subrange(i, i + 6)[0] == t[i]);
            assert(t[i] == '/');
            if i < 21 {
                assert(t[i] == "homeassistant/sensor/"@[i]);
                assert(i == 13 || i == 20);
                if i == 13 {
                    assert(t.subrange(i, i + 6)[2] == t[15]);
                    assert(t[15] == 'n');
                    assert("/state"@[2] == 't');
                } else {
                    assert(forall|k: int| 0 <= k < uid.len() ==> t[21 + k] == uid[k]);
                    if uid.len() >= 5 {
                        assert(t.subrange(20, 26).subrange(1, 6) =~= uid.subrange(0, 5));
                        assert("/state"@.subrange(1, 6) =~= "state"@);
                    } else {
                        let k = uid.len() as int;
                        assert(t.subrange(i, i + 6)[1 + k] == t[21 + k]);
                        assert(t[21 + k] == '/');
                        assert("/state"@[1 + k] != '/');
                    }
                }
            } else {
                assert(t[i] == uid[i - 21]);
            }
        }
    }
    lemma_replace_single(p, t);
}

} // verus!
