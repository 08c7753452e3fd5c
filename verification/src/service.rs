//! The metric pipeline: for a requested category, pulls readings from the
//! source and pushes them through the sink, one independent write each.

use std::io::Write;

use vstd::prelude::*;

use crate::metrics::{
    component_views, metric_views, spec_temperature_metrics, Category, ComponentReading, Metric,
    MetricView,
};
use crate::ports::{process_delta_ok, MetricProcessor, MetricReader, MetricWriter};

verus! {

/// Builds the per-component temperature metrics for a host: one Value
/// observation per component with a readable temperature, in list order, in
/// degrees Celsius; unreadable components yield nothing.
pub fn temperature_metrics(host: &String, comps: &Vec<ComponentReading>) -> (r: Vec<Metric>)
    ensures
        metric_views(r@) == spec_temperature_metrics(host@, component_views(comps@)),
{
    let mut out: Vec<Metric> = Vec::new();
    let mut i: usize = 0;
    proof {
        assert(metric_views(out@) =~= spec_temperature_metrics(
            host@,
            component_views(comps@.subrange(0, 0)),
        ));
    }
    while i < comps.len()
        invariant
            i <= comps.len(),
            metric_views(out@) == spec_temperature_metrics(
                host@,
                component_views(comps@.subrange(0, i as int)),
            ),
        decreases comps.len() - i,
    {
        let c = &comps[i];
        match &c.temperature {
            Some(v) => {
                let m = Metric::Value {
                    host: host.clone(),
                    category: Category::Temperature,
                    component_label: c.label.clone(),
                    value: v.clone(),
                    unit: String::from_str("°C"),
                };
                out.push(m);
            },
            None => {},
        }
        proof {
            let pre = component_views(comps@.subrange(0, i as int));
            let cur = component_views(comps@.subrange(0, i + 1 as int));
            assert(cur.drop_last() =~= pre);
            assert(cur.last() == comps@[i as int]@);
            assert(metric_views(out@) =~= spec_temperature_metrics(host@, cur));
        }
        i = i + 1;
    }
    proof {
        assert(comps@.subrange(0, comps@.len() as int) =~= comps@);
    }
    out
}

/// Relies on std::io::Stderr and the writeln macro: prints one warning line
/// on the operator-visible diagnostic channel.
#[verifier::external_body]
fn warn_line(s: &str) {
    let mut err = std::io::stderr();
    let _ = writeln!(err, "{}", s);
}

/// The orchestrator: reads a requested category's metrics from the source
/// and writes each through the sink as a separate, independent write.
pub struct MetricService<R: MetricReader, W: MetricWriter> {
    pub reader: R,
    pub writer: W,
}

impl<R: MetricReader, W: MetricWriter> MetricService<R, W> {
    /// Builds a service over a source and a sink.
    pub fn new(reader: R, writer: W) -> (s: Self)
        ensures
            s.reader == reader,
            s.writer == writer,
    {
        MetricService { reader, writer }
    }

    /// Hands the sink back, with everything it recorded.
    pub fn into_writer(self) -> (w: W)
        ensures
            w == self.writer,
    {
        self.writer
    }
}

impl<R: MetricReader, W: MetricWriter> MetricProcessor for MetricService<R, W> {
    open spec fn written_log(&self) -> Seq<MetricView> {
        self.writer.written()
    }

    open spec fn source_deterministic(&self) -> bool {
        self.reader.is_deterministic()
    }

    open spec fn planned_delta(&self, category: Category) -> Seq<MetricView> {
        seq![self.reader.spec_percent(category)] + match category {
            Category::Temperature => spec_temperature_metrics(
                self.reader.spec_host(),
                self.reader.spec_components(),
            ),
            Category::Cpu => Seq::empty(),
            _ => seq![self.reader.spec_used(category)],
        }
    }

    fn process_metrics(&mut self, category: Category) {
        let ghost pre = self.writer.written();
        let percent = self.reader.get_percent(&category);
        let ghost percent_view = percent@;
        let _ = self.writer.write(percent);
        if category == Category::Temperature {
            let host = self.reader.get_host();
            let comps = self.reader.get_components();
            let ghost temps = spec_temperature_metrics(host@, component_views(comps@));
            let mut metrics = temperature_metrics(&host, &comps);
            if metrics.len() == 0 {
                warn_line(
                    "Warning: no temperature components were found or their sensors could not be read; no temperature metrics will be published.",
                );
            }
            while metrics.len() > 0
                invariant
                    self.writer.written() + metric_views(metrics@) == pre.push(percent_view)
                        + temps,
                    (percent_view matches MetricView::Percent {
                        category: c0,
                        percentage,
                        ..
                    } && c0 == category && 0 <= percentage <= 100),
                    category == Category::Temperature,
                    temps == spec_temperature_metrics(host@, component_views(comps@)),
                    self.reader == old(self).reader,
                    old(self).reader.is_deterministic() ==> (percent_view == old(
                        self,
                    ).reader.spec_percent(category) && host@ == old(self).reader.spec_host()
                        && component_views(comps@) == old(self).reader.spec_components()),
                decreases metrics.len(),
            {
                let ghost before = metrics@;
                let m = metrics.remove(0);
                let _ = self.writer.write(m);
                proof {
                    assert(metrics@ =~= before.skip(1));
                    assert(metric_views(before) =~= seq![m@] + metric_views(metrics@));
                    assert(self.writer.written() + metric_views(metrics@) =~= pre.push(
                        percent_view,
                    ) + temps);
                }
            }
            proof {
                assert(metric_views(metrics@) =~= Seq::<MetricView>::empty());
                let delta = self.writer.written().skip(pre.len() as int);
                assert(self.writer.written() =~= pre + (seq![percent_view] + temps));
                assert(delta =~= seq![percent_view] + temps);
                assert(delta.skip(1) =~= temps);
                assert(delta.skip(1) == spec_temperature_metrics(host@, component_views(comps@)));
                assert(pre.is_prefix_of(self.writer.written()));
                assert(process_delta_ok(delta, category));
                if old(self).reader.is_deterministic() {
                    assert(delta =~= old(self).planned_delta(category));
                }
            }
        } else if category != Category::Cpu {
            let used = self.reader.get_used(&category);
            let ghost used_view = used@;
            let _ = self.writer.write(used);
            proof {
                let delta = self.writer.written().skip(pre.len() as int);
                assert(self.writer.written() =~= pre + seq![percent_view, used_view]);
                assert(delta =~= seq![percent_view, used_view]);
                assert(pre.is_prefix_of(self.writer.written()));
                assert(process_delta_ok(delta, category));
                if old(self).reader.is_deterministic() {
                    assert(delta =~= old(self).planned_delta(category));
                }
            }
        } else {
            proof {
                let delta = self.writer.written().skip(pre.len() as int);
                assert(self.writer.written() =~= pre + seq![percent_view]);
                assert(delta =~= seq![percent_view]);
                assert(pre.is_prefix_of(self.writer.written()));
                assert(process_delta_ok(delta, category));
                if old(self).reader.is_deterministic() {
                    assert(delta =~= old(self).planned_delta(category));
                }
            }
        }
    }
}

} // verus!
