//! Privacy auditing of live web traffic: classification of single requests,
//! location fallback rules and the supervision of one capture session.

pub mod analyzer;
pub mod geo;
pub mod session;
pub mod text;
pub mod types;
