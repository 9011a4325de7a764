//! An exact-match IPv4 route table: each entry is keyed by the network
//! address (address AND mask) and carries an outbound route label.
pub mod address;
pub mod table;

pub use address::Ipv4Addr;
pub use table::{HashRoutingTable, InsertError, LookupError};
