//! What the endpoint answers to requests.

pub mod capabilities;
pub mod command_laws;
pub mod commands;
pub mod create;
pub mod errors;
pub mod events;
pub mod flow;
pub mod flow_laws;
pub mod frames;
pub mod headers;
pub mod owner;
pub mod request_laws;
pub mod requests;
pub mod stream;
pub mod told;
pub mod told_events;
pub mod views;
