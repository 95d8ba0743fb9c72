//! The executable engine. Every method's contract says that it computes
//! exactly what the corresponding transition or query function of
//! [`crate::model`] says, and that it keeps the state well-formed.
//!
//! No method panics: every failure condition is a typed [`Error`], and a
//! failing operation leaves the state exactly as it found it.

use vstd::prelude::*;

use crate::model::admin_gate;
use crate::model::admin_query;
use crate::model::all_events_query;
use crate::model::buy_ticket_step;
use crate::model::cancel_event_step;
use crate::model::create_event_step;
use crate::model::empty_model;
use crate::model::get_event_query;
use crate::model::get_ticket_query;
use crate::model::init_model;
use crate::model::roster_events;
use crate::model::set_admin_step;
use crate::model::ticket_count_query;
use crate::model::ticket_valid_query;
use crate::model::transfer_ticket_step;
use crate::model::use_ticket_step;
use crate::model::user_tickets_query;
use crate::model::StateModel;
use crate::types::BuyTicketParams;
use crate::types::CreateEventParams;
use crate::types::Error;
use crate::types::Event;
use crate::types::Ticket;
use crate::types::TransferTicketParams;

verus! {

/// The engine's whole state: the admin identity, the event and ticket
/// stores (a record's identifier is its position in its store), and the
/// append-only roster of event identifiers.
///
/// The host owns one value of this type, passes each operation to it, and
/// persists it between calls; the engine itself performs no I/O. Identifier
/// allocation is collision-free by construction: each kind of record draws
/// its next identifier from the number of records of that kind ever created.
pub struct EventXContract {
    pub admin: Option<u64>,
    pub events: Vec<Event>,
    pub tickets: Vec<Ticket>,
    pub roster: Vec<u64>,
}

impl View for EventXContract {
    type V = StateModel;

    open spec fn view(&self) -> StateModel {
        StateModel {
            admin: self.admin,
            events: self.events@,
            tickets: self.tickets@,
            roster: self.roster@,
        }
    }
}

impl EventXContract {
    /// A fresh engine with no admin and empty stores. Until `initialize`
    /// runs, every other operation fails with `NotInitialized`.
    pub fn new() -> (r: Self)
        ensures
            r@ == empty_model(),
            r@.wf(),
    {
        let r = EventXContract {
            admin: None,
            events: Vec::new(),
            tickets: Vec::new(),
            roster: Vec::new(),
        };
        proof {
            assert(r@ =~= empty_model());
        }
        r
    }

    /// One-time bootstrap: installs `admin` and creates the empty stores.
    /// Deliberately unguarded, as in the interface this engine implements:
    /// calling it a second time resets all state.
    pub fn initialize(&mut self, admin: u64)
        ensures
            final(self)@ == init_model(admin),
            final(self)@.wf(),
    {
        self.admin = Some(admin);
        self.events = Vec::new();
        self.tickets = Vec::new();
        self.roster = Vec::new();
        proof {
            assert(final(self)@ =~= init_model(admin));
        }
    }

    /// The authorization gate shared by the privileged operations.
    fn require_admin(&self, caller: u64) -> (r: Result<(), Error>)
        ensures
            r == admin_gate(self@, caller),
    {
        match self.admin {
            None => Err(Error::NotInitialized),
            Some(a) => if caller == a {
                Ok(())
            } else {
                Err(Error::Unauthorized)
            },
        }
    }

    /// The current admin identity, or `NotInitialized` before bootstrap.
    pub fn get_admin(&self) -> (r: Result<u64, Error>)
        ensures
            r == admin_query(self@),
    {
        match self.admin {
            None => Err(Error::NotInitialized),
            Some(a) => Ok(a),
        }
    }

    /// Hands the admin role to `new_admin`; only the current admin may.
    pub fn set_admin(&mut self, caller: u64, new_admin: u64) -> (r: Result<bool, Error>)
        ensures
            ({
                let (s2, r2) = set_admin_step(old(self)@, caller, new_admin);
                final(self)@ == s2 && r == r2
            }),
            old(self)@.wf() ==> final(self)@.wf(),
    {
        match self.require_admin(caller) {
            Err(e) => Err(e),
            Ok(()) => {
                self.admin = Some(new_admin);
                Ok(true)
            },
        }
    }

    /// Creates an event with the next free identifier, zero sales, and the
    /// caller as organizer, and appends it to the roster. Only the admin
    /// may; authorization is the sole failure mode, and the parameters are
    /// taken as given (a zero capacity or a negative price is recorded).
    pub fn create_event(&mut self, caller: u64, params: CreateEventParams) -> (r: Result<
        u64,
        Error,
    >)
        ensures
            ({
                let (s2, r2) = create_event_step(old(self)@, caller, params);
                final(self)@ == s2 && r == r2
            }),
            old(self)@.wf() ==> final(self)@.wf(),
    {
        match self.require_admin(caller) {
            Err(e) => Err(e),
            Ok(()) => {
                let event_id: u64 = self.events.len() as u64;
                let event = Event {
                    id: event_id,
                    title: params.title,
                    description: params.description,
                    organizer: caller,
                    total_tickets: params.total_tickets,
                    tickets_sold: 0,
                    ticket_price: params.ticket_price,
                    event_date: params.event_date,
                    is_active: true,
                    is_cancelled: false,
                };
                self.events.push(event);
                self.roster.push(event_id);
                Ok(event_id)
            },
        }
    }

    /// Mints a ticket for `params.buyer` against an existing, active, not
    /// sold out event, stamped with the host-supplied clock reading `now`,
    /// and increments the event's sales count. The two records change
    /// together or not at all. Open to any caller; by convention the caller
    /// is the buyer, but this is not checked.
    pub fn buy_ticket(&mut self, _caller: u64, params: BuyTicketParams, now: u64) -> (r: Result<
        u64,
        Error,
    >)
        ensures
            ({
                let (s2, r2) = buy_ticket_step(old(self)@, _caller, params, now);
                final(self)@ == s2 && r == r2
            }),
            old(self)@.wf() ==> final(self)@.wf(),
    {
        if self.admin.is_none() {
            return Err(Error::NotInitialized);
        }
        if !(params.event_id < self.events.len() as u64) {
            return Err(Error::NotFound);
        }
        let idx = params.event_id as usize;
        let event = &self.events[idx];
        if !event.is_active || event.is_cancelled {
            return Err(Error::EventNotActive);
        }
        if event.tickets_sold >= event.total_tickets {
            return Err(Error::SoldOut);
        }
        let ticket_id: u64 = self.tickets.len() as u64;
        let ticket = Ticket {
            id: ticket_id,
            event_id: params.event_id,
            owner: params.buyer,
            is_used: false,
            is_refunded: false,
            purchase_date: now,
        };
        self.tickets.push(ticket);
        let eref = &mut self.events[idx];
        eref.tickets_sold = eref.tickets_sold + 1;
        Ok(ticket_id)
    }

    /// Moves ownership of a ticket to `params.to`, provided `params.from`
    /// holds it, it is neither used nor refunded, and its event is not
    /// cancelled. As in the interface this engine implements, the invoking
    /// caller is not consulted: a correct `from` party suffices.
    pub fn transfer_ticket(&mut self, _caller: u64, params: TransferTicketParams) -> (r: Result<
        bool,
        Error,
    >)
        ensures
            ({
                let (s2, r2) = transfer_ticket_step(old(self)@, _caller, params);
                final(self)@ == s2 && r == r2
            }),
            old(self)@.wf() ==> final(self)@.wf(),
    {
        if self.admin.is_none() {
            return Err(Error::NotInitialized);
        }
        if !(params.ticket_id < self.tickets.len() as u64) {
            return Err(Error::NotFound);
        }
        let tidx = params.ticket_id as usize;
        let ticket = self.tickets[tidx];
        if ticket.owner != params.from {
            return Err(Error::NotOwner);
        }
        if ticket.is_used {
            return Err(Error::TicketUsed);
        }
        if ticket.is_refunded {
            return Err(Error::TicketRefunded);
        }
        if !(ticket.event_id < self.events.len() as u64) {
            return Err(Error::NotFound);
        }
        let eidx = ticket.event_id as usize;
        if self.events[eidx].is_cancelled {
            return Err(Error::EventCancelled);
        }
        let tref = &mut self.tickets[tidx];
        tref.owner = params.to;
        Ok(true)
    }

    /// Check-in: marks a ticket as used, permanently. Admin-gated; refused
    /// for a used or refunded ticket and for a ticket of a cancelled event.
    pub fn use_ticket(&mut self, caller: u64, ticket_id: u64) -> (r: Result<bool, Error>)
        ensures
            ({
                let (s2, r2) = use_ticket_step(old(self)@, caller, ticket_id);
                final(self)@ == s2 && r == r2
            }),
            old(self)@.wf() ==> final(self)@.wf(),
    {
        match self.require_admin(caller) {
            Err(e) => return Err(e),
            Ok(()) => {},
        }
        if !(ticket_id < self.tickets.len() as u64) {
            return Err(Error::NotFound);
        }
        let tidx = ticket_id as usize;
        let ticket = self.tickets[tidx];
        if ticket.is_used {
            return Err(Error::TicketUsed);
        }
        if ticket.is_refunded {
            return Err(Error::TicketRefunded);
        }
        if !(ticket.event_id < self.events.len() as u64) {
            return Err(Error::NotFound);
        }
        let eidx = ticket.event_id as usize;
        if self.events[eidx].is_cancelled {
            return Err(Error::EventCancelled);
        }
        let tref = &mut self.tickets[tidx];
        tref.is_used = true;
        Ok(true)
    }

    /// Cancels an event: permanently flips it to cancelled and inactive.
    /// Admin-gated; refused when already cancelled. No ticket is touched:
    /// refunds are deliberately left to an external observer of the state.
    pub fn cancel_event(&mut self, caller: u64, event_id: u64) -> (r: Result<bool, Error>)
        ensures
            ({
                let (s2, r2) = cancel_event_step(old(self)@, caller, event_id);
                final(self)@ == s2 && r == r2
            }),
            old(self)@.wf() ==> final(self)@.wf(),
    {
        match self.require_admin(caller) {
            Err(e) => return Err(e),
            Ok(()) => {},
        }
        if !(event_id < self.events.len() as u64) {
            return Err(Error::NotFound);
        }
        let eidx = event_id as usize;
        if self.events[eidx].is_cancelled {
            return Err(Error::AlreadyCancelled);
        }
        let eref = &mut self.events[eidx];
        eref.is_cancelled = true;
        eref.is_active = false;
        Ok(true)
    }

    /// Plain lookup of an event; absence is a valid result.
    pub fn get_event(&self, event_id: u64) -> (r: Result<Option<Event>, Error>)
        ensures
            r == get_event_query(self@, event_id),
    {
        if self.admin.is_none() {
            return Err(Error::NotInitialized);
        }
        if event_id < self.events.len() as u64 {
            let idx = event_id as usize;
            Ok(Some(self.events[idx].clone()))
        } else {
            Ok(None)
        }
    }

    /// Plain lookup of a ticket; absence is a valid result.
    pub fn get_ticket(&self, ticket_id: u64) -> (r: Result<Option<Ticket>, Error>)
        ensures
            r == get_ticket_query(self@, ticket_id),
    {
        if self.admin.is_none() {
            return Err(Error::NotInitialized);
        }
        if ticket_id < self.tickets.len() as u64 {
            let idx = ticket_id as usize;
            Ok(Some(self.tickets[idx]))
        } else {
            Ok(None)
        }
    }

    /// Every event the roster names, in creation order. The roster is
    /// append-only and in a well-formed state resolves completely, but the
    /// walk skips an unresolvable identifier rather than fail.
    pub fn get_all_events(&self) -> (r: Result<Vec<Event>, Error>)
        ensures
            r is Ok <==> all_events_query(self@) is Ok,
            r is Ok ==> r->Ok_0@ == all_events_query(self@)->Ok_0,
            r is Err ==> r->Err_0 == all_events_query(self@)->Err_0,
    {
        if self.admin.is_none() {
            return Err(Error::NotInitialized);
        }
        let mut out: Vec<Event> = Vec::new();
        let n = self.roster.len();
        let mut k: usize = 0;
        while k < n
            invariant
                n == self.roster.len(),
                k <= n,
                out@ == roster_events(self@, k as int),
            decreases n - k,
        {
            let id = self.roster[k];
            if id < self.events.len() as u64 {
                let idx = id as usize;
                out.push(self.events[idx].clone());
            }
            k = k + 1;
        }
        Ok(out)
    }

    /// The tickets held by `_user`: deliberately unimplemented enumeration,
    /// carried over as a documented limitation — the answer is empty for
    /// every holder. Extending it would be a new feature, not a repair.
    pub fn get_user_tickets(&self, _user: u64) -> (r: Result<Vec<u64>, Error>)
        ensures
            r is Ok <==> user_tickets_query(self@, _user) is Ok,
            r is Ok ==> r->Ok_0@ == user_tickets_query(self@, _user)->Ok_0,
            r is Err ==> r->Err_0 == user_tickets_query(self@, _user)->Err_0,
    {
        if self.admin.is_none() {
            return Err(Error::NotInitialized);
        }
        Ok(Vec::new())
    }

    /// The sales count of an existing event; `NotFound` otherwise.
    pub fn get_event_ticket_count(&self, event_id: u64) -> (r: Result<u32, Error>)
        ensures
            r == ticket_count_query(self@, event_id),
    {
        if self.admin.is_none() {
            return Err(Error::NotInitialized);
        }
        if !(event_id < self.events.len() as u64) {
            return Err(Error::NotFound);
        }
        let idx = event_id as usize;
        Ok(self.events[idx].tickets_sold)
    }

    /// Whether an existing ticket still admits: neither used nor refunded,
    /// and its event is active and not cancelled. A missing ticket, or a
    /// missing event behind it, is a hard `NotFound`.
    pub fn is_ticket_valid(&self, ticket_id: u64) -> (r: Result<bool, Error>)
        ensures
            r == ticket_valid_query(self@, ticket_id),
    {
        if self.admin.is_none() {
            return Err(Error::NotInitialized);
        }
        if !(ticket_id < self.tickets.len() as u64) {
            return Err(Error::NotFound);
        }
        let tidx = ticket_id as usize;
        let ticket = self.tickets[tidx];
        if !(ticket.event_id < self.events.len() as u64) {
            return Err(Error::NotFound);
        }
        let eidx = ticket.event_id as usize;
        let event = &self.events[eidx];
        Ok(!ticket.is_used && !ticket.is_refunded && !event.is_cancelled && event.is_active)
    }
}

} // verus!
