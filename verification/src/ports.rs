//! The ports the pipeline depends on: a metric source, a metric sink, and
//! the orchestrator capability itself.

use vstd::prelude::*;

use crate::discovery::UnsupportedCombination;
use crate::metrics::{
    component_views, spec_temperature_metrics, Category, ComponentReading, ComponentReadingView,
    Metric, MetricView,
};

verus! {

/// The capability a caller supplies to obtain readings for a category, the
/// temperature-bearing components, and the host identifier.
///
/// A source whose readings are a function of the source value itself — a
/// fixed-value stub, as opposed to live hardware — says so through
/// `is_deterministic`, and then the `spec_*` views pin exactly what each
/// method returns. A live source reads machine state, leaves
/// `is_deterministic` false, and promises only the shapes.
pub trait MetricReader {
    /// Whether this source's readings are a function of the source value
    /// itself, so that the `spec_*` views below describe them.
    spec fn is_deterministic(&self) -> bool;

    /// The percentage observation a deterministic source returns for a
    /// category.
    spec fn spec_percent(&self, category: Category) -> MetricView;

    /// The used/total observation a deterministic source returns for a
    /// category.
    spec fn spec_used(&self, category: Category) -> MetricView;

    /// The host identifier a deterministic source returns.
    spec fn spec_host(&self) -> Seq<char>;

    /// The component readings a deterministic source returns.
    spec fn spec_components(&self) -> Seq<ComponentReadingView>;

    /// A percentage-form reading: a Percent observation of the requested
    /// category, its percentage within range; for a deterministic source,
    /// exactly its `spec_percent` view.
    fn get_percent(&self, category: &Category) -> (m: Metric)
        ensures
            (m@ matches MetricView::Percent { category: c, percentage, .. } && c == *category && 0
                <= percentage <= 100),
            self.is_deterministic() ==> m@ == self.spec_percent(*category),
    ;

    /// A used/total-form reading: a Used observation of the requested
    /// category; for a deterministic source, exactly its `spec_used` view.
    fn get_used(&self, category: &Category) -> (m: Metric)
        ensures
            (m@ matches MetricView::Used { category: c, .. } && c == *category),
            self.is_deterministic() ==> m@ == self.spec_used(*category),
    ;

    /// The originating host's identifier; for a deterministic source,
    /// exactly its `spec_host` view.
    fn get_host(&self) -> (h: String)
        ensures
            self.is_deterministic() ==> h@ == self.spec_host(),
    ;

    /// The temperature-bearing hardware components, each with its reading
    /// where the sensor could be read; for a deterministic source, exactly
    /// its `spec_components` view.
    fn get_components(&self) -> (r: Vec<ComponentReading>)
        ensures
            self.is_deterministic() ==> component_views(r@) == self.spec_components(),
    ;
}

/// The capability a caller supplies to persist or publish one metric. The
/// sequence of metrics handed to it is its observable log.
pub trait MetricWriter {
    /// The metrics handed to `write` so far, in order.
    spec fn written(&self) -> Seq<MetricView>;

    /// Writes one metric. The log grows by exactly that metric, whether or
    /// not the write itself succeeded.
    fn write(&mut self, metric: Metric) -> (r: Result<(), UnsupportedCombination>)
        ensures
            final(self).written() == old(self).written().push(metric@),
    ;
}

/// What one orchestrator pass appends to the sink's log for a category: the
/// category's percentage observation first; then, for the temperature
/// category, exactly the per-component value metrics of the host and
/// component list that were read; for the CPU, nothing more (it has no
/// "used" concept); for every other category, its used/total observation.
pub open spec fn process_delta_ok(delta: Seq<MetricView>, category: Category) -> bool {
    &&& delta.len() >= 1
    &&& (delta[0] matches MetricView::Percent { category: c0, percentage, .. } && c0 == category
        && 0 <= percentage <= 100)
    &&& match category {
        Category::Temperature => exists|host: Seq<char>, comps: Seq<ComponentReadingView>|
            delta.skip(1) == spec_temperature_metrics(host, comps),
        Category::Cpu => delta.len() == 1,
        _ => delta.len() == 2 && (delta[1] matches MetricView::Used { category: c1, .. } && c1
            == category),
    }
}

/// The orchestrator capability: read and write one category's metrics.
pub trait MetricProcessor {
    /// The log of the sink this processor drives.
    spec fn written_log(&self) -> Seq<MetricView>;

    /// Whether the source this processor reads is deterministic, so that
    /// `planned_delta` describes a pass exactly.
    spec fn source_deterministic(&self) -> bool;

    /// The exact metrics one pass over a category appends where the source
    /// is deterministic.
    spec fn planned_delta(&self, category: Category) -> Seq<MetricView>;

    /// Processes one category: the sink's log grows by exactly what
    /// `process_delta_ok` states for it — and, where the source is
    /// deterministic, by exactly the planned metrics, the source's own
    /// values in order.
    fn process_metrics(&mut self, category: Category)
        ensures
            old(self).written_log().is_prefix_of(final(self).written_log()),
            process_delta_ok(
                final(self).written_log().skip(old(self).written_log().len() as int),
                category,
            ),
            old(self).source_deterministic() ==> final(self).written_log().skip(
                old(self).written_log().len() as int,
            ) == old(self).planned_delta(category),
    ;
}

} // verus!
