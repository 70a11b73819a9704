//! Orchestration core of an end-to-end testing framework for a multi-node
//! network: topology model, node control, readiness polling, chaos scheduling
//! and scenario planning. Everything here is verified; its only outside calls
//! draw random numbers. Process, network and file-system work is left to the
//! embedding program, which reports outcomes back as plain values.

pub mod address;
pub mod chaos;
pub mod cluster;
pub mod configs;
pub mod node_control;
pub mod readiness;
pub mod resolve;
pub mod scenario;
pub mod text;
pub mod topology;
pub mod workflows;
