//! Discovery of a stable global IPv6 address from the kernel's
//! interface-address dump (request encoding, reply classification,
//! attribute scanning and the selection policy), and the decisions of the
//! DNS updater that publishes the host's addresses.

pub mod record;
pub mod request;
pub mod stream;
pub mod dns;
