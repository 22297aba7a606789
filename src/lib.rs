//! A small user-record service and a flow that fetches a remote file and
//! republishes it to object storage.
//!
//! The library holds the decisions; the caller performs the network and
//! database work and reports back what happened.

pub mod keys;
pub mod load;
pub mod models;
pub mod republish;
