//! Deployment and provenance of Beacon DAO contracts: the decisions behind
//! publishing metadata, creating the contract and finding earlier instances.
//!
//! Nothing here reads a file or talks to a node. [`net::contract::deploy`]
//! and [`net::contract::list`] each take what came back from the last
//! request and say what to ask for next; [`net::payload`] writes the
//! documents that the content store is to hold; [`cli`] reads the command
//! line. The caller performs the requests and hands back the replies.

pub mod cli;
pub mod net;
pub mod text;
