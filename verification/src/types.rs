//! The record types of the engine: events, tickets, the parameter bundles of
//! the operations that create them, and the error taxonomy.
//!
//! Identities (organizers, buyers, ticket holders, the admin) are opaque
//! account numbers handed in by the host after authentication; the engine
//! only ever compares them for equality. Timestamps are plain seconds-like
//! readings supplied by the host's clock.

use vstd::prelude::*;

verus! {

/// Why an operation was refused. Every failure is terminal for that one
/// operation and leaves the state exactly as it was.
#[derive(Clone, Copy, Debug, PartialEq, Eq)]
pub enum Error {
    /// No `initialize` call has happened yet.
    NotInitialized,
    /// The caller is not the current admin.
    Unauthorized,
    /// The named event or ticket does not exist.
    NotFound,
    /// The event is inactive or cancelled, so no ticket can be sold.
    EventNotActive,
    /// Every ticket of the event has been sold.
    SoldOut,
    /// The event was already cancelled by an earlier call.
    AlreadyCancelled,
    /// The `from` party of a transfer does not hold the ticket.
    NotOwner,
    /// The ticket was already checked in.
    TicketUsed,
    /// The ticket was refunded.
    TicketRefunded,
    /// The ticket's event was cancelled.
    EventCancelled,
}

/// A ticketed occasion with a fixed capacity and an active/cancelled
/// lifecycle. Created once, mutated only by `tickets_sold` increments and the
/// single cancel transition, never deleted.
#[derive(Debug, PartialEq, Eq)]
pub struct Event {
    /// Unique identifier, assigned at creation from a per-kind counter.
    pub id: u64,
    pub title: String,
    pub description: String,
    /// The admin that created the event.
    pub organizer: u64,
    /// Capacity, fixed at creation.
    pub total_tickets: u32,
    /// Running sales count; starts at 0, never exceeds `total_tickets`.
    pub tickets_sold: u32,
    /// Unit price, recorded only; no settlement happens here.
    pub ticket_price: i128,
    /// When the occasion takes place; informational.
    pub event_date: u64,
    /// True from creation until cancellation.
    pub is_active: bool,
    /// False until cancellation; once true, permanent.
    pub is_cancelled: bool,
}

impl Clone for Event {
    fn clone(&self) -> (res: Self)
        ensures
            res == *self,
    {
        Event {
            id: self.id,
            title: self.title.clone(),
            description: self.description.clone(),
            organizer: self.organizer,
            total_tickets: self.total_tickets,
            tickets_sold: self.tickets_sold,
            ticket_price: self.ticket_price,
            event_date: self.event_date,
            is_active: self.is_active,
            is_cancelled: self.is_cancelled,
        }
    }
}

/// A transferable claim of attendance against one event. Created once per
/// successful mint, mutated by transfer (`owner`) and check-in (`is_used`),
/// never deleted.
#[derive(Clone, Copy, Debug, PartialEq, Eq)]
pub struct Ticket {
    /// Unique identifier, assigned at mint time from a per-kind counter.
    pub id: u64,
    /// The event this ticket admits to.
    pub event_id: u64,
    /// Current holder; changes on transfer.
    pub owner: u64,
    /// False until check-in; once true, permanent.
    pub is_used: bool,
    /// Reserved for a future refund flow; no operation sets it.
    pub is_refunded: bool,
    /// The clock reading captured at mint time; immutable thereafter.
    pub purchase_date: u64,
}

/// What `create_event` needs beyond the caller identity.
#[derive(Debug, PartialEq, Eq)]
pub struct CreateEventParams {
    pub title: String,
    pub description: String,
    pub total_tickets: u32,
    pub ticket_price: i128,
    pub event_date: u64,
}

impl Clone for CreateEventParams {
    fn clone(&self) -> (res: Self)
        ensures
            res == *self,
    {
        CreateEventParams {
            title: self.title.clone(),
            description: self.description.clone(),
            total_tickets: self.total_tickets,
            ticket_price: self.ticket_price,
            event_date: self.event_date,
        }
    }
}

/// What `buy_ticket` needs beyond the caller identity and the clock reading.
#[derive(Clone, Copy, Debug, PartialEq, Eq)]
pub struct BuyTicketParams {
    pub event_id: u64,
    /// The account that will hold the minted ticket.
    pub buyer: u64,
}

/// What `transfer_ticket` needs beyond the caller identity.
#[derive(Clone, Copy, Debug, PartialEq, Eq)]
pub struct TransferTicketParams {
    pub ticket_id: u64,
    /// The party giving the ticket up; must match the stored owner.
    pub from: u64,
    /// The party receiving the ticket.
    pub to: u64,
}

} // verus!
