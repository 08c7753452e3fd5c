//! The metric sources: fixed-value readers for callers without hardware
//! access, and the live reader over the host's state.

use vstd::prelude::*;

use crate::config::Config;
use crate::metrics::{
    component_views, percent_of_used, Category, ComponentReading, ComponentReadingView, Metric,
    MetricView, Percentage,
};
use crate::ports::MetricReader;
use crate::text::{parse_u64_seq, parse_u64_trimmed, trim_seq};

verus! {

/// What a fan reading parses to: the trimmed text as a decimal RPM, or zero
/// where there is no reading or it does not parse.
pub open spec fn spec_fan_rpm(reading: Option<Seq<char>>) -> int {
    match reading {
        Some(text) => match parse_u64_seq(trim_seq(text)) {
            Some(v) => v,
            None => 0,
        },
        None => 0,
    }
}

/// Builds the fan-speed observation for a raw reading, as handed over by
/// whatever ran the configured command or read the configured file: the text
/// is trimmed and parsed as a decimal RPM; a missing or unparsable reading
/// degrades to zero RPM; `total` is always the zero sentinel, a fan speed
/// having no percentage basis.
pub fn fan_metric_from_reading(host: String, reading: Option<&str>) -> (m: Metric)
    ensures
        m@ == (MetricView::Used {
            host: host@,
            category: Category::FanSpeed,
            used: spec_fan_rpm(
                match reading {
                    Some(text) => Some(text@),
                    None => None,
                },
            ),
            total: 0,
        }),
{
    let rpm: u64 = match reading {
        Some(text) => match parse_u64_trimmed(text) {
            Some(v) => v,
            None => 0,
        },
        None => 0,
    };
    Metric::Used(host, Category::FanSpeed, rpm, 0)
}

/// What the disk observation makes of the probed pair: used space is total
/// minus available, guarded against an inconsistent probe that reports more
/// available than total; the absence of any disk degrades to a zero pair.
pub open spec fn spec_disk_usage(probe: Option<(u64, u64)>) -> (int, int) {
    match probe {
        Some((total, available)) => if available <= total {
            (total - available, total as int)
        } else {
            (0, total as int)
        },
        None => (0, 0),
    }
}

/// Turns the first disk's probed (total, available) pair, if any, into the
/// (used, total) pair the disk observation carries.
pub fn disk_usage_from_probe(probe: Option<(u64, u64)>) -> (r: (u64, u64))
    ensures
        r.0 as int == spec_disk_usage(probe).0,
        r.1 as int == spec_disk_usage(probe).1,
        r.0 <= r.1,
{
    match probe {
        Some((total, available)) => {
            if available <= total {
                (total - available, total)
            } else {
                (0, total)
            }
        },
        None => (0, 0),
    }
}

/// A source of fixed values, for callers without hardware access.
pub struct DummyMetricReader;

impl MetricReader for DummyMetricReader {
    open spec fn is_deterministic(&self) -> bool {
        true
    }

    open spec fn spec_percent(&self, category: Category) -> MetricView {
        MetricView::Percent { host: "tux"@, category: category, percentage: 25 }
    }

    open spec fn spec_used(&self, category: Category) -> MetricView {
        MetricView::Used { host: "tux"@, category: category, used: 25, total: 100 }
    }

    open spec fn spec_host(&self) -> Seq<char> {
        "tux"@
    }

    open spec fn spec_components(&self) -> Seq<ComponentReadingView> {
        Seq::empty()
    }

    fn get_percent(&self, category: &Category) -> (m: Metric) {
        Metric::Percent(String::from_str("tux"), *category, Percentage::new(25).unwrap())
    }

    fn get_used(&self, category: &Category) -> (m: Metric) {
        Metric::Used(String::from_str("tux"), *category, 25, 100)
    }

    fn get_host(&self) -> (h: String) {
        String::from_str("tux")
    }

    fn get_components(&self) -> (r: Vec<ComponentReading>) {
        let r: Vec<ComponentReading> = Vec::new();
        proof {
            assert(component_views(r@) =~= Seq::<ComponentReadingView>::empty());
        }
        r
    }
}

/// A source of caller-chosen values: it returns the given host, percentage,
/// used/total pair and component list, whatever the category asked for. Its
/// readings are a function of its fields, so the pipeline's contract pins a
/// pass over it exactly.
pub struct FixedMetricReader {
    pub host: String,
    pub percent: Percentage,
    pub used: u64,
    pub total: u64,
    pub components: Vec<ComponentReading>,
}

impl MetricReader for FixedMetricReader {
    open spec fn is_deterministic(&self) -> bool {
        true
    }

    open spec fn spec_percent(&self, category: Category) -> MetricView {
        MetricView::Percent {
            host: self.host@,
            category: category,
            percentage: if self.percent.0 <= 100 {
                self.percent.0 as int
            } else {
                0
            },
        }
    }

    open spec fn spec_used(&self, category: Category) -> MetricView {
        MetricView::Used {
            host: self.host@,
            category: category,
            used: self.used as int,
            total: self.total as int,
        }
    }

    open spec fn spec_host(&self) -> Seq<char> {
        self.host@
    }

    open spec fn spec_components(&self) -> Seq<ComponentReadingView> {
        component_views(self.components@)
    }

    fn get_percent(&self, category: &Category) -> (m: Metric) {
        Metric::Percent(self.host.clone(), *category, Percentage::new_or_zero(self.percent.0))
    }

    fn get_used(&self, category: &Category) -> (m: Metric) {
        Metric::Used(self.host.clone(), *category, self.used, self.total)
    }

    fn get_host(&self) -> (h: String) {
        self.host.clone()
    }

    fn get_components(&self) -> (r: Vec<ComponentReading>) {
        let mut out: Vec<ComponentReading> = Vec::new();
        let mut i: usize = 0;
        proof {
            assert(out@ =~= self.components@.subrange(0, 0));
        }
        while i < self.components.len()
            invariant
                i <= self.components.len(),
                out@ == self.components@.subrange(0, i as int),
            decreases self.components.len() - i,
        {
            let c = &self.components[i];
            let copy = ComponentReading {
                label: c.label.clone(),
                temperature: match &c.temperature {
                    Some(t) => Some(t.clone()),
                    None => None,
                },
            };
            proof {
                assert(copy =~= self.components@[i as int]);
            }
            out.push(copy);
            proof {
                assert(out@ =~= self.components@.subrange(0, i + 1 as int));
            }
            i = i + 1;
        }
        proof {
            assert(self.components@.subrange(0, self.components@.len() as int)
                =~= self.components@);
        }
        out
    }
}

/// sysinfo's handle on the host's state.
#[verifier::external_type_specification]
#[verifier::external_body]
pub struct ExSystem(sysinfo::System);

/// Relies on sysinfo::System::new_all: a handle refreshed with everything.
pub assume_specification[ sysinfo::System::new_all ]() -> sysinfo::System;

/// Relies on sysinfo::System::refresh_memory: refreshes RAM and swap data.
pub assume_specification[ sysinfo::System::refresh_memory ](s: &mut sysinfo::System);

/// Relies on sysinfo::System::refresh_cpu_usage: refreshes CPU usage data.
pub assume_specification[ sysinfo::System::refresh_cpu_usage ](s: &mut sysinfo::System);

/// Relies on sysinfo::System::used_memory: the used RAM in bytes.
pub assume_specification[ sysinfo::System::used_memory ](s: &sysinfo::System) -> u64;

/// Relies on sysinfo::System::total_memory: the total RAM in bytes.
pub assume_specification[ sysinfo::System::total_memory ](s: &sysinfo::System) -> u64;

/// Relies on sysinfo::System::used_swap: the used swap in bytes.
pub assume_specification[ sysinfo::System::used_swap ](s: &sysinfo::System) -> u64;

/// Relies on sysinfo::System::total_swap: the total swap in bytes.
pub assume_specification[ sysinfo::System::total_swap ](s: &sysinfo::System) -> u64;

/// Relies on sysinfo::System::host_name: the machine's host name, where the
/// system exposes one.
pub assume_specification[ sysinfo::System::host_name ]() -> Option<String>;

/// Relies on sysinfo::System::global_cpu_usage: the average CPU load as a
/// percentage, converted to an integer as the collection path consumes it.
#[verifier::external_body]
fn global_cpu_percent(sys: &sysinfo::System) -> u8 {
    sys.global_cpu_usage() as u8
}

/// Relies on sysinfo::Disks::new_with_refreshed_list, Disks::list,
/// Disk::total_space and Disk::available_space: the first disk's total and
/// available bytes, or nothing where no disk is present.
#[verifier::external_body]
fn read_first_disk() -> Option<(u64, u64)> {
    let disks = sysinfo::Disks::new_with_refreshed_list();
    match disks.list().first() {
        Some(d) => Some((d.total_space(), d.available_space())),
        None => None,
    }
}

/// Relies on sysinfo::Components::new_with_refreshed_list, Components::list,
/// Component::label and Component::temperature: every temperature-bearing
/// component's label and, where its sensor could be read, its reading
/// rendered as text.
#[verifier::external_body]
fn read_components() -> Vec<ComponentReading> {
    sysinfo::Components::new_with_refreshed_list()
        .list()
        .iter()
        .map(
            |c| ComponentReading {
                label: c.label().to_string(),
                temperature: c.temperature().map(|t| t.to_string()),
            },
        )
        .collect()
}

/// The live source: reads the host's state, so its readings are not a
/// function of the reader value and `is_deterministic` is false. Fan speeds
/// need a process or file read that the library does not perform; its fan
/// observations carry the zero-RPM fallback, and callers with such access
/// build theirs through `fan_metric_from_reading`.
pub struct SystemMetricReader {
    pub config: Config,
}

impl SystemMetricReader {
    /// Builds a live reader over the given configuration.
    pub fn new(config: Config) -> (r: Self)
        ensures
            r.config == config,
    {
        SystemMetricReader { config }
    }
}

impl MetricReader for SystemMetricReader {
    open spec fn is_deterministic(&self) -> bool {
        false
    }

    open spec fn spec_percent(&self, category: Category) -> MetricView {
        arbitrary()
    }

    open spec fn spec_used(&self, category: Category) -> MetricView {
        arbitrary()
    }

    open spec fn spec_host(&self) -> Seq<char> {
        arbitrary()
    }

    open spec fn spec_components(&self) -> Seq<ComponentReadingView> {
        arbitrary()
    }

    fn get_percent(&self, category: &Category) -> (m: Metric) {
        match category {
            Category::Cpu => {
                let mut sys = sysinfo::System::new_all();
                sys.refresh_cpu_usage();
                let raw = global_cpu_percent(&sys);
                let host = self.get_host();
                Metric::Percent(host, *category, Percentage::new_or_zero(raw))
            },
            _ => {
                let used_metric = self.get_used(category);
                let host = self.get_host();
                match used_metric {
                    Metric::Used(_, _, used, total) => Metric::Percent(
                        host,
                        *category,
                        percent_of_used(used, total),
                    ),
                    _ => Metric::Percent(host, *category, Percentage(0)),
                }
            },
        }
    }

    fn get_used(&self, category: &Category) -> (m: Metric)
        ensures
            (m@ matches MetricView::Used { category: c, used, total, .. } && {
                &&& c is Disk ==> 0 <= used <= total
                &&& (c is Cpu || c is FanSpeed || c is Temperature) ==> (used == 0 && total == 0)
            }),
    {
        let host = self.get_host();
        match category {
            Category::Disk => {
                let (used, total) = disk_usage_from_probe(read_first_disk());
                Metric::Used(host, *category, used, total)
            },
            Category::Memory => {
                let mut sys = sysinfo::System::new_all();
                sys.refresh_memory();
                Metric::Used(host, *category, sys.used_memory(), sys.total_memory())
            },
            Category::Swap => {
                let mut sys = sysinfo::System::new_all();
                sys.refresh_memory();
                Metric::Used(host, *category, sys.used_swap(), sys.total_swap())
            },
            Category::Cpu => Metric::Used(host, *category, 0, 0),
            Category::FanSpeed => Metric::Used(host, *category, 0, 0),
            Category::Temperature => Metric::Used(host, *category, 0, 0),
        }
    }

    fn get_host(&self) -> (h: String) {
        match sysinfo::System::host_name() {
            Some(h) => h,
            None => String::from_str("unknown_host"),
        }
    }

    fn get_components(&self) -> (r: Vec<ComponentReading>) {
        read_components()
    }
}

} // verus!
