//! A verified ticketing engine: Events with fixed capacity and Tickets that
//! are minted against them, transferred between holders, and checked in, all
//! inside one state value whose invariants every operation preserves.
//!
//! The engine is a pure state-transition core. The host that embeds it is
//! expected to supply persistence for the state value, an authenticated
//! caller identity for each call, and a wall-clock reading where one is
//! needed; the core itself performs no I/O.

pub mod contract;
pub mod laws;
pub mod model;
pub mod types;

pub use contract::EventXContract;
pub use types::BuyTicketParams;
pub use types::CreateEventParams;
pub use types::Error;
pub use types::Event;
pub use types::Ticket;
pub use types::TransferTicketParams;
