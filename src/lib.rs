//! Grid telemetry analysis: numeric field parsing, schema resolution of the
//! utility's JSON bodies, aggregation of generation-unit records, load
//! summaries, endpoint fallback and report rendering.
pub mod numeric;
pub mod text;
pub mod rules;
pub mod entries;
pub mod analysis;
pub mod json;
pub mod schema;
pub mod load;
pub mod pipeline;
pub mod format;
pub mod report;
