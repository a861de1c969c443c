//! Rendezvous, handshake and frame-pipeline logic for streaming a camera
//! device's video to a remote operator.
pub mod protocol;
pub mod wire;
pub mod registry;
pub mod router;
pub mod session;
pub mod device;
pub mod pipeline;
pub mod operator;
