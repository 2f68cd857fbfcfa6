//! Emulates the HTTP face of a Zebra label printer: a request-to-preview
//! pipeline that sizes a pixel canvas from the configured physical label,
//! decodes an inbound markup payload, sequences the render and preview
//! steps, and maps every outcome to exactly one terminal HTTP status.

pub mod config;
pub mod decode;
pub mod host;
pub mod pipeline;
