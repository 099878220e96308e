//! Link messages, and the bridge options they carry.

pub mod bool_opt;
pub mod info;
pub mod builder;
pub mod bridge;
