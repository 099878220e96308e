//! Netlink route requests for Linux bridges and traffic-control chains.
//!
//! The library builds the messages that are sent to the kernel: a bridge
//! link message, assembled option by option, and the requests that create
//! or delete a traffic-control filter chain. Every builder step states
//! exactly what it adds to or changes in the message.

pub mod link;
pub mod traffic_control;

pub use crate::link::bridge::LinkBridge;
pub use crate::link::builder::LinkMessageBuilder;
pub use crate::traffic_control::add_chain::TrafficChainNewRequest;
pub use crate::traffic_control::del_chain::TrafficChainDelRequest;
