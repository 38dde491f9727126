//! A multi-channel notification dispatcher.
//!
//! A producer submits an event: what happened, in which project, to whom,
//! with what data. Every pipeline that is configured for the event runs its
//! steps in order against a context of its own. Steps are routed by their
//! identifier to the plugin that owns it; the templater renders templates
//! into messages, and the channel transports deliver them and record how
//! each attempt went.
//!
//! The library decides and computes; it does not wait, send or store. What
//! lies outside it comes in through traits (`PipelineStorage`,
//! `TemplateSource`, `CredentialStorage`, `Recorder`, `EnginePlugin`), and a
//! delivery hands its messages to the caller to send.
//!
//! Contracts speak of values by content: each type has a view, and JSON
//! values are seen through [`json::Json`].

pub mod json;
pub mod ids;
pub mod text;
pub mod textmap;
pub mod multipart;
pub mod render;
pub mod error;
pub mod step;
pub mod recipient;
pub mod pipeline;
pub mod context;
pub mod recorder;
pub mod credentials;
pub mod engine;
pub mod runner;
pub mod templater;
pub mod transport;
pub mod telegram;
pub mod smtp;
pub mod smpp;
pub mod whatsapp;
