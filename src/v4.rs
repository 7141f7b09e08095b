//! Common Vulnerability Scoring System, version 4.0: the Base group's
//! Attack Vector and Attack Complexity so far. Its scoring is not defined
//! here.

pub mod base;

pub use self::base::Base;
