//! Core logic of a clamp-meter firmware: analog peak sampling, credential
//! handling, the dual-mode (setup / normal) operating supervisor, the
//! configuration web form, and the webhook payload builder.
//!
//! Amperage values are carried as integers in units of 1e-5 ampere, so that
//! the arithmetic and the decimal rendering can be verified exactly.

pub mod amps;
pub mod config;
pub mod credentials;
pub mod display;
pub mod form;
pub mod http;
pub mod numfmt;
pub mod shared;
pub mod strutil;
pub mod supervisor;
pub mod webhook;
pub mod wifi_config;
