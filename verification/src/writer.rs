//! The publish side: the exact wire payloads, the per-metric publish plan
//! that an MQTT adapter sends, and the console and recording sinks.

use std::io::Write;

use vstd::prelude::*;

use crate::discovery::{
    discovery_view, DiscoveryConfigView, HomeAssistantDiscoveryConfig, UnsupportedCombination,
};
use crate::metrics::{Metric, MetricView};
use crate::ports::MetricWriter;
use crate::text::{
    append_json_escaped, dec_digits, i16_to_string, int_text, json_escape_seq, replace_state_seq,
    replace_state_with_config, u64_to_string,
};

verus! {

/// The discovery payload: the config as one JSON object, fields in
/// declaration order, strings JSON-escaped — the exact bytes Home Assistant
/// receives.
pub open spec fn spec_discovery_payload(c: DiscoveryConfigView) -> Seq<char> {
    "{\"name\":\""@ + json_escape_seq(c.name) + "\",\"unique_id\":\""@ + json_escape_seq(
        c.unique_id,
    ) + "\",\"state_topic\":\""@ + json_escape_seq(c.state_topic)
        + "\",\"unit_of_measurement\":\""@ + json_escape_seq(c.unit_of_measurement)
        + "\",\"value_template\":\""@ + json_escape_seq(c.value_template)
        + "\",\"state_class\":\""@ + json_escape_seq(c.state_class) + "\",\"icon\":\""@
        + json_escape_seq(c.icon) + "\",\"expire_after\":"@ + int_text(c.expire_after) + "}"@
}

/// Serializes a discovery config into its JSON wire payload.
pub fn discovery_payload(config: &HomeAssistantDiscoveryConfig) -> (r: String)
    ensures
        r@ == spec_discovery_payload(config@),
{
    let mut out = String::from_str("{\"name\":\"");
    append_json_escaped(&mut out, config.name.as_str());
    out.append("\",\"unique_id\":\"");
    append_json_escaped(&mut out, config.unique_id.as_str());
    out.append("\",\"state_topic\":\"");
    append_json_escaped(&mut out, config.state_topic.as_str());
    out.append("\",\"unit_of_measurement\":\"");
    append_json_escaped(&mut out, config.unit_of_measurement.as_str());
    out.append("\",\"value_template\":\"");
    append_json_escaped(&mut out, config.value_template.as_str());
    out.append("\",\"state_class\":\"");
    append_json_escaped(&mut out, config.state_class.as_str());
    out.append("\",\"icon\":\"");
    append_json_escaped(&mut out, config.icon.as_str());
    out.append("\",\"expire_after\":");
    out.append(i16_to_string(config.expire_after).as_str());
    out.append("}");
    proof {
        assert(out@ =~= spec_discovery_payload(config@));
    }
    out
}

/// The state payload: a JSON object with the single key "value" holding the
/// stringified reading.
pub open spec fn spec_state_payload(value: Seq<char>) -> Seq<char> {
    "{\"value\":\""@ + json_escape_seq(value) + "\"}"@
}

/// Serializes a stringified reading into its state wire payload.
pub fn state_payload(value: &str) -> (r: String)
    ensures
        r@ == spec_state_payload(value@),
{
    let mut out = String::from_str("{\"value\":\"");
    append_json_escaped(&mut out, value);
    out.append("\"}");
    proof {
        assert(out@ =~= spec_state_payload(value@));
    }
    out
}

/// What the state message carries for each observation: the percentage as a
/// decimal integer; nothing for a used/total pair, which the current
/// value-template scheme does not state-publish; the rendered value for a
/// component reading.
pub open spec fn spec_metric_state_value(m: MetricView) -> Seq<char> {
    match m {
        MetricView::Percent { percentage, .. } => dec_digits(percentage as nat),
        MetricView::Used { .. } => Seq::empty(),
        MetricView::Value { value, .. } => value,
    }
}

/// Stringifies the value a metric's state message carries.
pub fn metric_state_value(metric: &Metric) -> (r: String)
    ensures
        r@ == spec_metric_state_value(metric@),
{
    match metric {
        Metric::Percent(_, _, p) => u64_to_string(p.0 as u64),
        Metric::Used(_, _, _, _) => String::new(),
        Metric::Value { value, .. } => value.clone(),
    }
}

/// The two MQTT messages one metric publishes: the discovery message on the
/// config topic, then the state message on the state topic.
pub struct PublishPlan {
    pub config_topic: String,
    pub config_payload: String,
    pub state_topic: String,
    pub state_payload: String,
}

/// Derives a metric's discovery config and lays out both messages; fails
/// exactly where derivation fails, since without a valid descriptor the
/// metric cannot be safely published.
pub fn prepare_publish(metric: &Metric) -> (r: Result<PublishPlan, UnsupportedCombination>)
    ensures
        r is Ok <==> discovery_view(metric@) is Some,
        (r matches Ok(p) ==> {
            let cv = discovery_view(metric@)->Some_0;
            &&& p.config_topic@ == replace_state_seq(cv.state_topic)
            &&& p.config_payload@ == spec_discovery_payload(cv)
            &&& p.state_topic@ == cv.state_topic
            &&& p.state_payload@ == spec_state_payload(spec_metric_state_value(metric@))
        }),
{
    let config = match HomeAssistantDiscoveryConfig::derive(metric) {
        Ok(c) => c,
        Err(e) => {
            return Err(e);
        },
    };
    let config_payload = discovery_payload(&config);
    let value = metric_state_value(metric);
    let state = state_payload(value.as_str());
    let config_topic = replace_state_with_config(config.state_topic.as_str());
    Ok(
        PublishPlan {
            config_topic,
            config_payload,
            state_topic: config.state_topic,
            state_payload: state,
        },
    )
}

/// Relies on std::io::Stdout and the writeln macro: prints one line to
/// standard output.
#[verifier::external_body]
fn print_line(s: &str) {
    let mut out = std::io::stdout();
    let _ = writeln!(out, "{}", s);
}

/// The console sink: writes each metric's text rendering to standard output
/// and never fails.
pub struct DummyMetricWriter {
    pub(crate) history: Ghost<Seq<MetricView>>,
}

impl DummyMetricWriter {
    /// A fresh console sink with an empty log.
    pub fn new() -> (w: DummyMetricWriter)
        ensures
            w.written() == Seq::<MetricView>::empty(),
    {
        DummyMetricWriter { history: Ghost(Seq::empty()) }
    }
}

impl MetricWriter for DummyMetricWriter {
    open(crate) spec fn written(&self) -> Seq<MetricView> {
        self.history@
    }

    fn write(&mut self, metric: Metric) -> (r: Result<(), UnsupportedCombination>)
        ensures
            r is Ok,
    {
        let text = metric.to_text();
        print_line(text.as_str());
        self.history = Ghost(self.history@.push(metric@));
        Ok(())
    }
}

/// A sink that keeps every metric it is handed, for callers that inspect
/// what a pipeline produced.
pub struct RecordingMetricWriter {
    pub(crate) log: Vec<Metric>,
}

impl RecordingMetricWriter {
    /// A fresh recording sink with an empty log.
    pub fn new() -> (w: RecordingMetricWriter)
        ensures
            w.written() == Seq::<MetricView>::empty(),
    {
        let w = RecordingMetricWriter { log: Vec::new() };
        proof {
            assert(w.written() =~= Seq::<MetricView>::empty());
        }
        w
    }

    /// The metrics written so far, oldest first.
    pub fn log(&self) -> (r: &Vec<Metric>)
        ensures
            r@.map_values(|m: Metric| m@) == self.written(),
    {
        &self.log
    }
}

impl MetricWriter for RecordingMetricWriter {
    open(crate) spec fn written(&self) -> Seq<MetricView> {
        self.log@.map_values(|m: Metric| m@)
    }

    fn write(&mut self, metric: Metric) -> (r: Result<(), UnsupportedCombination>)
        ensures
            r is Ok,
    {
        self.log.push(metric);
        proof {
            assert(self.written() =~= old(self).written().push(metric@));
        }
        Ok(())
    }
}

} // verus!
