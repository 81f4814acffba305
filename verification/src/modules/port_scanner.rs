//! What is known of TCP ports.
pub mod port_service;
