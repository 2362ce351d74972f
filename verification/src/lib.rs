//! Verified core of the EPGStation–Amatsukaze encode bridge.
pub mod text;
pub mod request;
pub mod clock;
pub mod ids;
pub mod status;
pub mod registry;
pub mod workflow;
pub mod files;
pub mod urls;
pub mod config;
pub mod options;
pub mod http;
pub mod amatsukaze;
pub mod epgstation;
pub mod log_view;
pub mod api;
