//! The decision core of a microphone bridge: a phone browser captures audio
//! and a desktop plays it into a virtual microphone.

pub mod api;
pub mod cert;
pub mod config;
pub mod control;
pub mod cookie;
pub mod dashboard;
pub mod devices;
pub mod dsp_patch;
pub mod headers;
pub mod json;
pub mod lan;
pub mod listing;
pub mod output;
pub mod pairing;
pub mod pcm;
pub mod settings;
pub mod telemetry;
pub mod text;
pub mod tls;
pub mod web_server;
