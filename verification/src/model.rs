//! The mathematical model of the engine: an abstract state, its
//! well-formedness invariant, and one transition function per operation.
//!
//! Every executable method of [`crate::contract::EventXContract`] promises in
//! its contract that it computes exactly what the corresponding function here
//! says, so all reasoning about the engine's behaviour can be done against
//! these definitions alone.

use vstd::prelude::*;

use crate::types::BuyTicketParams;
use crate::types::CreateEventParams;
use crate::types::Error;
use crate::types::Event;
use crate::types::Ticket;
use crate::types::TransferTicketParams;

verus! {

/// The abstract state: the admin identity (absent before bootstrap), the
/// event and ticket stores keyed by identifier, and the append-only roster
/// of event identifiers in creation order.
#[verifier::ext_equal]
pub struct StateModel {
    pub admin: Option<u64>,
    pub events: Seq<Event>,
    pub tickets: Seq<Ticket>,
    pub roster: Seq<u64>,
}

/// The state immediately after `initialize(admin)`: the given admin and
/// nothing else. Re-initialization is unguarded and resets everything.
pub open spec fn init_model(admin: u64) -> StateModel {
    StateModel {
        admin: Some(admin),
        events: Seq::empty(),
        tickets: Seq::empty(),
        roster: Seq::empty(),
    }
}

/// The state of a freshly constructed engine, before any bootstrap.
pub open spec fn empty_model() -> StateModel {
    StateModel { admin: None, events: Seq::empty(), tickets: Seq::empty(), roster: Seq::empty() }
}

/// What must hold of the event stored at index `i`: its identifier is its
/// index, sales never exceed capacity, and a cancelled event is inactive.
pub open spec fn event_ok(e: Event, i: int) -> bool {
    &&& e.id == i as u64
    &&& e.tickets_sold <= e.total_tickets
    &&& (e.is_cancelled ==> !e.is_active)
}

/// What must hold of the ticket stored at index `j`: its identifier is its
/// index and it points at an event that exists.
pub open spec fn ticket_ok(s: StateModel, t: Ticket, j: int) -> bool {
    &&& t.id == j as u64
    &&& (t.event_id as int) < s.events.len()
}

impl StateModel {
    /// Well-formedness: every stored record satisfies its invariant and the
    /// roster lists exactly the identifiers of the events ever created, in
    /// creation order.
    pub open spec fn wf(self) -> bool {
        &&& (forall|i: int|
            0 <= i < self.events.len() ==> event_ok(#[trigger] self.events[i], i))
        &&& (forall|j: int|
            0 <= j < self.tickets.len() ==> ticket_ok(self, #[trigger] self.tickets[j], j))
        &&& self.roster.len() == self.events.len()
        &&& (forall|k: int| 0 <= k < self.roster.len() ==> #[trigger] self.roster[k] == k as u64)
    }
}

/// The authorization gate: fails before bootstrap, and for any caller other
/// than the stored admin.
pub open spec fn admin_gate(s: StateModel, caller: u64) -> Result<(), Error> {
    match s.admin {
        Option::None => Err(Error::NotInitialized),
        Option::Some(a) => if caller == a {
            Ok(())
        } else {
            Err(Error::Unauthorized)
        },
    }
}

/// Plain lookup of an event; absence is a valid result, not an error.
pub open spec fn event_lookup(s: StateModel, event_id: u64) -> Option<Event> {
    if (event_id as int) < s.events.len() {
        Some(s.events[event_id as int])
    } else {
        None
    }
}

/// Plain lookup of a ticket; absence is a valid result, not an error.
pub open spec fn ticket_lookup(s: StateModel, ticket_id: u64) -> Option<Ticket> {
    if (ticket_id as int) < s.tickets.len() {
        Some(s.tickets[ticket_id as int])
    } else {
        None
    }
}

/// `create_event`: admin-gated; allocates the next event identifier,
/// stores the new event with zero sales, and appends its id to the roster.
pub open spec fn create_event_step(s: StateModel, caller: u64, params: CreateEventParams) -> (
    StateModel,
    Result<u64, Error>,
) {
    match admin_gate(s, caller) {
        Err(e) => (s, Err(e)),
        Ok(_) => {
            let event_id = s.events.len() as u64;
            let event = Event {
                id: event_id,
                title: params.title,
                description: params.description,
                organizer: caller,
                total_tickets: params.total_tickets,
                tickets_sold: 0,
                ticket_price: params.ticket_price,
                event_date: params.event_date,
                is_active: true,
                is_cancelled: false,
            };
            (
                StateModel { events: s.events.push(event), roster: s.roster.push(event_id), ..s },
                Ok(event_id),
            )
        },
    }
}

/// `buy_ticket`: open to any caller; mints a ticket for `params.buyer`
/// against an existing, active, not sold out event, stamping it with the
/// clock reading `now`, and increments that event's sales count. The event
/// and the ticket store change together or not at all.
pub open spec fn buy_ticket_step(
    s: StateModel,
    caller: u64,
    params: BuyTicketParams,
    now: u64,
) -> (StateModel, Result<u64, Error>) {
    if s.admin is None {
        (s, Err(Error::NotInitialized))
    } else if s.events.len() <= params.event_id as int {
        (s, Err(Error::NotFound))
    } else {
        let event = s.events[params.event_id as int];
        if !event.is_active || event.is_cancelled {
            (s, Err(Error::EventNotActive))
        } else if event.tickets_sold >= event.total_tickets {
            (s, Err(Error::SoldOut))
        } else {
            let ticket_id = s.tickets.len() as u64;
            let ticket = Ticket {
                id: ticket_id,
                event_id: params.event_id,
                owner: params.buyer,
                is_used: false,
                is_refunded: false,
                purchase_date: now,
            };
            let updated = Event { tickets_sold: (event.tickets_sold + 1) as u32, ..event };
            (
                StateModel {
                    events: s.events.update(params.event_id as int, updated),
                    tickets: s.tickets.push(ticket),
                    ..s
                },
                Ok(ticket_id),
            )
        }
    }
}

/// `transfer_ticket`: moves ownership to `params.to` when `params.from`
/// holds the ticket, the ticket is neither used nor refunded, and its event
/// is not cancelled. The invoking caller is not consulted: presenting the
/// correct `from` party suffices, as the interface deliberately encodes.
pub open spec fn transfer_ticket_step(
    s: StateModel,
    caller: u64,
    params: TransferTicketParams,
) -> (StateModel, Result<bool, Error>) {
    if s.admin is None {
        (s, Err(Error::NotInitialized))
    } else if s.tickets.len() <= params.ticket_id as int {
        (s, Err(Error::NotFound))
    } else {
        let ticket = s.tickets[params.ticket_id as int];
        if ticket.owner != params.from {
            (s, Err(Error::NotOwner))
        } else if ticket.is_used {
            (s, Err(Error::TicketUsed))
        } else if ticket.is_refunded {
            (s, Err(Error::TicketRefunded))
        } else if s.events.len() <= ticket.event_id as int {
            (s, Err(Error::NotFound))
        } else if s.events[ticket.event_id as int].is_cancelled {
            (s, Err(Error::EventCancelled))
        } else {
            let updated = Ticket { owner: params.to, ..ticket };
            (
                StateModel { tickets: s.tickets.update(params.ticket_id as int, updated), ..s },
                Ok(true),
            )
        }
    }
}

/// `use_ticket` (check-in): admin-gated; marks an unused, unrefunded ticket
/// of a not-cancelled event as used, permanently.
pub open spec fn use_ticket_step(s: StateModel, caller: u64, ticket_id: u64) -> (
    StateModel,
    Result<bool, Error>,
) {
    match admin_gate(s, caller) {
        Err(e) => (s, Err(e)),
        Ok(_) => {
            if s.tickets.len() <= ticket_id as int {
                (s, Err(Error::NotFound))
            } else {
                let ticket = s.tickets[ticket_id as int];
                if ticket.is_used {
                    (s, Err(Error::TicketUsed))
                } else if ticket.is_refunded {
                    (s, Err(Error::TicketRefunded))
                } else if s.events.len() <= ticket.event_id as int {
                    (s, Err(Error::NotFound))
                } else if s.events[ticket.event_id as int].is_cancelled {
                    (s, Err(Error::EventCancelled))
                } else {
                    let updated = Ticket { is_used: true, ..ticket };
                    (
                        StateModel {
                            tickets: s.tickets.update(ticket_id as int, updated),
                            ..s
                        },
                        Ok(true),
                    )
                }
            }
        },
    }
}

/// `cancel_event`: admin-gated; flips an existing, not yet cancelled event
/// to cancelled and inactive. Tickets are untouched: refund side-effects are
/// deliberately left to an external observer of the state change.
pub open spec fn cancel_event_step(s: StateModel, caller: u64, event_id: u64) -> (
    StateModel,
    Result<bool, Error>,
) {
    match admin_gate(s, caller) {
        Err(e) => (s, Err(e)),
        Ok(_) => {
            if s.events.len() <= event_id as int {
                (s, Err(Error::NotFound))
            } else {
                let event = s.events[event_id as int];
                if event.is_cancelled {
                    (s, Err(Error::AlreadyCancelled))
                } else {
                    let updated = Event { is_active: false, is_cancelled: true, ..event };
                    (
                        StateModel { events: s.events.update(event_id as int, updated), ..s },
                        Ok(true),
                    )
                }
            }
        },
    }
}

/// `set_admin`: only the current admin may hand the role to `new_admin`.
pub open spec fn set_admin_step(s: StateModel, caller: u64, new_admin: u64) -> (
    StateModel,
    Result<bool, Error>,
) {
    match admin_gate(s, caller) {
        Err(e) => (s, Err(e)),
        Ok(_) => (StateModel { admin: Some(new_admin), ..s }, Ok(true)),
    }
}

/// `get_admin`: the stored admin identity, or `NotInitialized`.
pub open spec fn admin_query(s: StateModel) -> Result<u64, Error> {
    match s.admin {
        Option::None => Err(Error::NotInitialized),
        Option::Some(a) => Ok(a),
    }
}

/// `get_event`: before bootstrap the store is missing; afterwards absence
/// is a valid result.
pub open spec fn get_event_query(s: StateModel, event_id: u64) -> Result<Option<Event>, Error> {
    if s.admin is None {
        Err(Error::NotInitialized)
    } else {
        Ok(event_lookup(s, event_id))
    }
}

/// `get_ticket`: before bootstrap the store is missing; afterwards absence
/// is a valid result.
pub open spec fn get_ticket_query(s: StateModel, ticket_id: u64) -> Result<Option<Ticket>, Error> {
    if s.admin is None {
        Err(Error::NotInitialized)
    } else {
        Ok(ticket_lookup(s, ticket_id))
    }
}

/// The events named by the first `n` roster entries, in roster order,
/// skipping any identifier that resolves to nothing (which cannot happen in
/// a well-formed state, but the query is defensive).
pub open spec fn roster_events(s: StateModel, n: int) -> Seq<Event>
    decreases n,
{
    if n <= 0 {
        Seq::empty()
    } else {
        let prefix = roster_events(s, n - 1);
        let id = s.roster[n - 1];
        if (id as int) < s.events.len() {
            prefix.push(s.events[id as int])
        } else {
            prefix
        }
    }
}

/// `get_all_events`: every event the roster names, in creation order.
pub open spec fn all_events_query(s: StateModel) -> Result<Seq<Event>, Error> {
    if s.admin is None {
        Err(Error::NotInitialized)
    } else {
        Ok(roster_events(s, s.roster.len() as int))
    }
}

/// `get_user_tickets`: deliberately unimplemented enumeration — the answer
/// is empty for every holder. Extending it would be a new feature, not a
/// repair, so the limitation is preserved and documented.
pub open spec fn user_tickets_query(s: StateModel, user: u64) -> Result<Seq<u64>, Error> {
    if s.admin is None {
        Err(Error::NotInitialized)
    } else {
        Ok(Seq::empty())
    }
}

/// `get_event_ticket_count`: the sales count of an existing event.
pub open spec fn ticket_count_query(s: StateModel, event_id: u64) -> Result<u32, Error> {
    if s.admin is None {
        Err(Error::NotInitialized)
    } else if s.events.len() <= event_id as int {
        Err(Error::NotFound)
    } else {
        Ok(s.events[event_id as int].tickets_sold)
    }
}

/// `is_ticket_valid`: an existing ticket is valid when it is neither used
/// nor refunded and its event is still active and not cancelled. A missing
/// ticket, or a missing event behind it, is a hard `NotFound`.
pub open spec fn ticket_valid_query(s: StateModel, ticket_id: u64) -> Result<bool, Error> {
    if s.admin is None {
        Err(Error::NotInitialized)
    } else if s.tickets.len() <= ticket_id as int {
        Err(Error::NotFound)
    } else {
        let ticket = s.tickets[ticket_id as int];
        if s.events.len() <= ticket.event_id as int {
            Err(Error::NotFound)
        } else {
            let event = s.events[ticket.event_id as int];
            Ok(!ticket.is_used && !ticket.is_refunded && !event.is_cancelled && event.is_active)
        }
    }
}

/// One operation of the engine, as data, so that laws can quantify over
/// every mutation at once.
pub enum Op {
    Initialize { admin: u64 },
    CreateEvent { caller: u64, creation: CreateEventParams },
    BuyTicket { caller: u64, purchase: BuyTicketParams, now: u64 },
    TransferTicket { caller: u64, transfer: TransferTicketParams },
    UseTicket { caller: u64, ticket_id: u64 },
    CancelEvent { caller: u64, event_id: u64 },
    SetAdmin { caller: u64, new_admin: u64 },
}

/// The state an operation leaves behind, whether it succeeded or failed.
pub open spec fn apply_op(s: StateModel, op: Op) -> StateModel {
    match op {
        Op::Initialize { admin } => init_model(admin),
        Op::CreateEvent { caller, creation } => create_event_step(s, caller, creation).0,
        Op::BuyTicket { caller, purchase, now } => buy_ticket_step(s, caller, purchase, now).0,
        Op::TransferTicket { caller, transfer } => transfer_ticket_step(s, caller, transfer).0,
        Op::UseTicket { caller, ticket_id } => use_ticket_step(s, caller, ticket_id).0,
        Op::CancelEvent { caller, event_id } => cancel_event_step(s, caller, event_id).0,
        Op::SetAdmin { caller, new_admin } => set_admin_step(s, caller, new_admin).0,
    }
}

} // verus!
