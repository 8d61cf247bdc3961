//! Verified core of a pub/sub-to-e-paper bridge: certificate preparation for
//! the TLS session, UTF-8 decoding decisions of the message listener, the
//! FIFO relay between the listener and the rendering loop, the panel
//! lifecycle state machine with its framebuffer, and the idle-poll control
//! loop that drives a render cycle per inbound message.

pub mod certs;
pub mod config;
pub mod control;
pub mod listener;
pub mod panel;
pub mod relay;
