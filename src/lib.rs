//! Severity scores for security vulnerabilities (CVSS v3.x, with a start on
//! v4.0): the metric model, the vector-string codec and the score engine.
//!
//! Numbers are kept exact. A metric weight is an integer count of hundredths
//! (0.85 is 85), a sub-score an integer count of 10^-12, and a final score an
//! integer count of tenths in `0..=100`.

pub mod advisory;
pub mod error;
pub mod metric;
pub mod score;
pub mod text;
pub mod v3;
pub mod v4;

pub use crate::error::{Error, ErrorModel};
pub use crate::metric::MetricType;
pub use crate::score::{Score, Severity};
