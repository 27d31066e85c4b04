//! Verified core of a Purple Air sensor exporter.
//!
//! The library turns a raw JSON sensor response into a fixed-shape reading,
//! optionally recalibrates two atmospheric fields, and keeps the current
//! reading in a store that renders it as a metrics text body.  Values are
//! held in thousandths (milli-units) so that the whole pipeline is exact
//! integer arithmetic; a slot whose source field is missing, non-numeric or
//! out of range carries the sentinel `-1.0` (that is, `-1000` milli-units).

pub mod config;
pub mod milli;
pub mod purple_exporter;
pub mod purple_reading;
