//! The metric model: categories, validated percentages, component
//! temperature readings, and the tagged union of observations.

use vstd::prelude::*;

use crate::text::{dec_digits, u64_to_string};

verus! {

/// The resource kinds that can be measured.
#[derive(Debug, Clone, Copy, PartialEq, Eq, Structural)]
pub enum Category {
    Disk,
    Memory,
    Cpu,
    Swap,
    FanSpeed,
    Temperature,
}

impl Category {
    /// The category's display name, as used in console output.
    pub open spec fn spec_name(self) -> Seq<char> {
        match self {
            Category::Disk => "Disk"@,
            Category::Memory => "Memory"@,
            Category::Cpu => "CPU"@,
            Category::Swap => "Swap"@,
            Category::FanSpeed => "FanSpeed"@,
            Category::Temperature => "temperature"@,
        }
    }

    /// The category's display name.
    pub fn to_text(&self) -> (r: String)
        ensures
            r@ == self.spec_name(),
    {
        match self {
            Category::Disk => String::from_str("Disk"),
            Category::Memory => String::from_str("Memory"),
            Category::Cpu => String::from_str("CPU"),
            Category::Swap => String::from_str("Swap"),
            Category::FanSpeed => String::from_str("FanSpeed"),
            Category::Temperature => String::from_str("temperature"),
        }
    }
}

/// An integer percentage; meaningful only between 0 and 100 inclusive.
#[derive(Clone, Copy, Debug, PartialEq, Eq, PartialOrd, Ord, Hash, Structural)]
pub struct Percentage(pub u8);

/// The error for a percentage outside 0..=100.
#[derive(Clone, Copy, Debug, PartialEq, Eq, Structural)]
pub struct InvalidPercentage;

impl InvalidPercentage {
    /// The error's message.
    pub fn message(&self) -> (r: String)
        ensures
            r@ == "Percent value must be between 0 and 100"@,
    {
        String::from_str("Percent value must be between 0 and 100")
    }
}

impl Percentage {
    /// The single numeric invariant enforced at the value-type boundary.
    pub open spec fn is_valid(self) -> bool {
        self.0 <= 100
    }

    /// Accepts exactly the values 0 to 100; everything above is rejected.
    pub fn new(value: u8) -> (r: Result<Percentage, InvalidPercentage>)
        ensures
            value <= 100 ==> r == Ok::<Percentage, InvalidPercentage>(Percentage(value)),
            value > 100 ==> r == Err::<Percentage, InvalidPercentage>(InvalidPercentage),
    {
        if value > 100 {
            Err(InvalidPercentage)
        } else {
            Ok(Percentage(value))
        }
    }

    /// Like `new`, but an out-of-range computed value falls back to zero
    /// instead of failing, as the collection paths require.
    pub fn new_or_zero(value: u8) -> (p: Percentage)
        ensures
            p.0 == if value <= 100 { value as int } else { 0 },
            p.is_valid(),
    {
        if value > 100 {
            Percentage(0)
        } else {
            Percentage(value)
        }
    }
}

/// One hardware component's temperature reading: its label and, where the
/// sensor could be read, its value already rendered as text.
#[derive(Debug, Clone, PartialEq)]
#[verifier::ext_equal]
pub struct ComponentReading {
    pub label: String,
    pub temperature: Option<String>,
}

/// The mathematical shape of a component reading.
#[verifier::ext_equal]
pub ghost struct ComponentReadingView {
    pub label: Seq<char>,
    pub temperature: Option<Seq<char>>,
}

impl View for ComponentReading {
    type V = ComponentReadingView;

    open spec fn view(&self) -> ComponentReadingView {
        ComponentReadingView {
            label: self.label@,
            temperature: match self.temperature {
                Some(t) => Some(t@),
                None => None,
            },
        }
    }
}

/// One observation of a host resource.
#[derive(Debug, Clone, PartialEq)]
pub enum Metric {
    /// A 0-100 reading for a category on a host.
    Percent(String, Category, Percentage),
    /// A used/total pair in the category's natural unit. For the fan-speed
    /// category, `used` carries the RPM and `total` is kept at zero as the
    /// "no percentage derivable" sentinel.
    Used(String, Category, u64, u64),
    /// A free-form single reading tied to a named component; the value is
    /// carried as already-rendered text.
    Value { host: String, category: Category, component_label: String, value: String, unit: String },
}

/// The mathematical shape of a metric.
#[verifier::ext_equal]
pub ghost enum MetricView {
    Percent { host: Seq<char>, category: Category, percentage: int },
    Used { host: Seq<char>, category: Category, used: int, total: int },
    Value {
        host: Seq<char>,
        category: Category,
        component_label: Seq<char>,
        value: Seq<char>,
        unit: Seq<char>,
    },
}

impl View for Metric {
    type V = MetricView;

    open spec fn view(&self) -> MetricView {
        match self {
            Metric::Percent(host, category, percentage) => MetricView::Percent {
                host: host@,
                category: *category,
                percentage: percentage.0 as int,
            },
            Metric::Used(host, category, used, total) => MetricView::Used {
                host: host@,
                category: *category,
                used: *used as int,
                total: *total as int,
            },
            Metric::Value { host, category, component_label, value, unit } => MetricView::Value {
                host: host@,
                category: *category,
                component_label: component_label@,
                value: value@,
                unit: unit@,
            },
        }
    }
}

impl MetricView {
    /// The category the observation belongs to.
    pub open spec fn category(self) -> Category {
        match self {
            MetricView::Percent { category, .. } => category,
            MetricView::Used { category, .. } => category,
            MetricView::Value { category, .. } => category,
        }
    }

    /// The originating host.
    pub open spec fn host(self) -> Seq<char> {
        match self {
            MetricView::Percent { host, .. } => host,
            MetricView::Used { host, .. } => host,
            MetricView::Value { host, .. } => host,
        }
    }
}

/// The console rendering of a metric.
pub open spec fn spec_metric_text(m: MetricView) -> Seq<char> {
    match m {
        MetricView::Percent { host, category, percentage } => host + "-"@ + category.spec_name()
            + ": "@ + dec_digits(percentage as nat) + "%"@,
        MetricView::Used { host, category, used, total } => host + "-"@ + category.spec_name()
            + ": "@ + dec_digits(used as nat) + "/"@ + dec_digits(total as nat),
        MetricView::Value { host, category, component_label, value, unit } => host + " - "@
            + category.spec_name() + " - "@ + component_label + ": "@ + value + unit,
    }
}

impl Metric {
    /// Renders the metric for console output.
    pub fn to_text(&self) -> (r: String)
        ensures
            r@ == spec_metric_text(self@),
    {
        match self {
            Metric::Percent(host, category, percentage) => {
                let mut s = host.clone();
                s.append("-");
                s.append(category.to_text().as_str());
                s.append(": ");
                s.append(u64_to_string(percentage.0 as u64).as_str());
                s.append("%");
                proof {
                    assert(s@ =~= spec_metric_text(self@));
                }
                s
            },
            Metric::Used(host, category, used, total) => {
                let mut s = host.clone();
                s.append("-");
                s.append(category.to_text().as_str());
                s.append(": ");
                s.append(u64_to_string(*used).as_str());
                s.append("/");
                s.append(u64_to_string(*total).as_str());
                proof {
                    assert(s@ =~= spec_metric_text(self@));
                }
                s
            },
            Metric::Value { host, category, component_label, value, unit } => {
                let mut s = host.clone();
                s.append(" - ");
                s.append(category.to_text().as_str());
                s.append(" - ");
                s.append(component_label.as_str());
                s.append(": ");
                s.append(value.as_str());
                s.append(unit.as_str());
                proof {
                    assert(s@ =~= spec_metric_text(self@));
                }
                s
            },
        }
    }
}

/// The views of a sequence of metrics, element for element.
pub open spec fn metric_views(s: Seq<Metric>) -> Seq<MetricView> {
    s.map_values(|m: Metric| m@)
}

/// The views of a sequence of component readings, element for element.
pub open spec fn component_views(s: Seq<ComponentReading>) -> Seq<ComponentReadingView> {
    s.map_values(|c: ComponentReading| c@)
}

/// The per-component temperature metrics a host and component list yield:
/// one Value observation per component with a readable temperature, in list
/// order, each in degrees Celsius; components whose sensor could not be read
/// are skipped.
pub open spec fn spec_temperature_metrics(host: Seq<char>, comps: Seq<ComponentReadingView>) -> Seq<
    MetricView,
>
    decreases comps.len(),
{
    if comps.len() == 0 {
        Seq::empty()
    } else {
        let rest = spec_temperature_metrics(host, comps.drop_last());
        match comps.last().temperature {
            Some(v) => rest.push(
                MetricView::Value {
                    host: host,
                    category: Category::Temperature,
                    component_label: comps.last().label,
                    value: v,
                    unit: "°C"@,
                },
            ),
            None => rest,
        }
    }
}

/// How many components carry a readable temperature.
pub open spec fn readable_count(comps: Seq<ComponentReadingView>) -> nat
    decreases comps.len(),
{
    if comps.len() == 0 {
        0
    } else {
        readable_count(comps.drop_last()) + (if comps.last().temperature is Some {
            1nat
        } else {
            0nat
        })
    }
}

/// The temperature pass emits exactly one metric per component with a
/// readable temperature — an unreadable component yields none — and each
/// emitted metric is a component value of the given host, of the temperature
/// category, in degrees Celsius.
pub proof fn lemma_temperature_metrics_shape(host: Seq<char>, comps: Seq<ComponentReadingView>)
    ensures
        spec_temperature_metrics(host, comps).len() == readable_count(comps),
        forall|i: int|
            0 <= i < spec_temperature_metrics(host, comps).len()
                ==> (#[trigger] spec_temperature_metrics(host, comps)[i] matches MetricView::Value {
                host: h,
                category,
                unit,
                ..
            } && h == host && category is Temperature && unit == "°C"@),
    decreases comps.len(),
{
    if comps.len() > 0 {
        lemma_temperature_metrics_shape(host, comps.drop_last());
        let pre = spec_temperature_metrics(host, comps.drop_last());
        let whole = spec_temperature_metrics(host, comps);
        assert forall|i: int|
            0 <= i < whole.len() implies (#[trigger] whole[i] matches MetricView::Value {
            host: h,
            category,
            unit,
            ..
        } && h == host && category is Temperature && unit == "°C"@) by {
            if i < pre.len() {
                assert(whole[i] == pre[i]);
            }
        }
    }
}

/// The percentage that `used` is of `total`, rounded to the nearest integer
/// (halves away from zero); zero where `total` is zero (the "not percentable"
/// sentinel) and zero where the computed value exceeds 100 (the documented
/// fallback for invalid computed percentages).
pub open spec fn spec_percent_of_used(used: int, total: int) -> int {
    if total == 0 {
        0
    } else {
        let r = (used * 200 + total) / (2 * total);
        if r > 100 {
            0
        } else {
            r
        }
    }
}

/// Computes the rounded percentage of a used/total pair, with the fallbacks
/// that `spec_percent_of_used` states.
pub fn percent_of_used(used: u64, total: u64) -> (p: Percentage)
    ensures
        p.0 == spec_percent_of_used(used as int, total as int),
        p.is_valid(),
{
    if total == 0 {
        Percentage(0)
    } else {
        let num: u128 = (used as u128) * 200 + (total as u128);
        let den: u128 = 2 * (total as u128);
        let r: u128 = num / den;
        if r > 100 {
            Percentage(0)
        } else {
            Percentage(r as u8)
        }
    }
}

} // verus!
