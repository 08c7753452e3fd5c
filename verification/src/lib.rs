//! Host-metric publishing core for the Home Assistant MQTT discovery
//! convention: a typed metric model, the discovery-config derivation rules
//! (topic, unique-id, unit and icon naming), the wire payloads, and the
//! per-category collection pipeline.

pub mod config;
pub mod discovery;
pub mod metrics;
pub mod ports;
pub mod reader;
pub mod service;
pub mod text;
pub mod writer;
