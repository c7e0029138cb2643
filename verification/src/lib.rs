//! Core logic of a command-line client for a generative "interactions" service:
//! request construction, call planning, redirect-resolution decisions and
//! response rendering, with machine-checked contracts.

pub mod dispatch;
pub mod header;
pub mod model;
pub mod render;
pub mod request;
pub mod resolver;
pub mod sources;
pub mod text;
