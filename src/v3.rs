//! Common Vulnerability Scoring System, version 3.x.

pub mod base;
pub mod environmental;
pub mod temporal;
pub mod vector;

pub use self::base::Base;
pub use self::environmental::Environmental;
pub use self::temporal::Temporal;
