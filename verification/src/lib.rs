//! The decisions of a service that watches a 3D printer for failed prints.
//!
//! Every few seconds the service asks the printer what it is doing, takes a frame from a camera,
//! has a detection service look at it, and reports a print that goes wrong, or pauses it. It also
//! keeps the printer quiet at night, and takes commands in a chat.
//!
//! This crate holds what is decided and computed on the way, as functions on plain values. Talking
//! to the printer, the camera, the detection service and the chat is left to its caller, and so
//! is floating-point arithmetic: the crate carries such numbers as their bits ([`scalar`]).

pub mod bot;
pub mod config;
pub mod detection;
pub mod messages;
pub mod monitor;
pub mod obico;
pub mod prusalink;
pub mod rtsp_capture;
pub mod scalar;
pub mod schedule;
pub mod server;
pub mod settings;
pub mod snapshot;
pub mod text;
