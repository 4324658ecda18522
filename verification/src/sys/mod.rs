//! What the library asks of the system, as far as it can be decided without asking.

pub mod memfd;
pub mod socket;
pub mod stdio;
