//! The logic of an endpoint that runs agent sessions: the session domain with its events and its
//! reducer, credential replicas, the rotation of controller secrets, the configuration, the calls
//! of models, and what the HTTP interface answers.
//!
//! Nothing here reads a file, a socket or a clock: what comes from outside is an argument, and
//! what is to be done outside is a result.

pub mod checks;
pub mod cli;
pub mod config;
pub mod config_laws;
pub mod control;
pub mod datum;
pub mod digest;
pub mod domain;
pub mod http;
pub mod json;
pub mod number;
pub mod paths;
pub mod provider;
pub mod provider_laws;
pub mod replica_flow;
pub mod replica_history;
pub mod replica_laws;
pub mod replicas;
pub mod sorting;
pub mod startup_laws;
pub mod text;
pub mod text_laws;
pub mod text_map;
pub mod web;
pub mod wiring;
