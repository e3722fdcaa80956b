//! Runtime settings of the push endpoint service: defaults layered under an
//! optional configuration file and prefixed environment variables, validated
//! into one typed value, plus a short startup banner.

pub mod banner;
pub mod laws;
pub mod resolve;
pub mod settings;
pub mod text;
