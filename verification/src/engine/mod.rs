//! Driving the chain forward: live processing, backfill, and the
//! orchestrator that runs one of the two at a time.
pub mod event;
pub mod pipeline;
pub mod handler;
pub mod orchestrator;
pub mod laws;
pub mod service;
