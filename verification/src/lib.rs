//! The verified core of a robot head's social-perception pipeline and of
//! its local LLM benchmark: hysteresis filtering, behaviour selection,
//! configuration precedence, run tallies and report helpers.
pub mod behavior;
pub mod config;
pub mod generation;
pub mod hysteresis;
pub mod paths;
pub mod perception;
pub mod reporting;
pub mod schedule;
pub mod summary;
pub mod text;
pub mod thermal;
pub mod types;
pub mod voice;
