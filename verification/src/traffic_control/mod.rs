//! Traffic-control manipulation: the requests that create and delete
//! filter chains (see `tc-chain`).

pub mod message;
pub mod add_chain;
pub mod del_chain;
