//! Translation-request orchestration library.
//!
//! The crate models the core of a translation service: resolving a
//! (source, target) language pair for a request, holding a mutable runtime
//! configuration, building the instruction sent to an external large-language
//! model, post-processing the translated text (paragraph realignment and
//! mixed-script spacing), aggregating request metrics, and sequencing all of
//! these per incoming request. Network transport, HTTP routing and file
//! persistence are left to an unverified shell around this crate.

pub mod admin;
pub mod config;
pub mod error;
pub mod health;
pub mod language;
pub mod metrics;
pub mod models;
pub mod normalize;
pub mod orchestrator;
pub mod strutil;
pub mod translator;
