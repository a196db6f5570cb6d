//! Decodes METAR aviation weather reports and selects active runways.
//!
//! The crate is split into a byte-level METAR grammar decoder, an
//! integer-arithmetic wind projection (head/tail/crosswind per runway
//! heading), per-airport runway decision policies, and a precedence-based
//! merge of runway selections from several sources.

pub mod airport;
pub mod airports;
pub mod angles;
pub mod atis;
pub mod config;
pub mod metar;
pub mod nato_mil_code;
pub mod obscuration;
pub mod optional_data;
pub mod output;
pub mod pressure;
pub mod projection;
pub mod projection_laws;
pub mod runway;
pub mod scan;
pub mod sea_surface_indicator;
pub mod temperature;
pub mod trend;
pub mod trig;
pub mod units;
pub mod usage_map;
pub mod wind;

pub use angles::diff_angle;
pub use angles::diff_rotation;
