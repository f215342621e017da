//! What the operations of the stack are for: laws on what a call may give back, in
//! terms of what it was given.
pub mod accepting;
pub mod connections;
pub mod copying;
pub mod filtering;
pub mod interfaces;
pub mod messages;
pub mod octets;
pub mod polling;
pub mod routing;
pub mod servicing;
