//! The engine's laws: theorems about the transition functions of
//! [`crate::model`], and through the exact contracts of
//! [`crate::contract::EventXContract`] about the executable engine itself.

use vstd::prelude::*;

use crate::model::all_events_query;
use crate::model::apply_op;
use crate::model::buy_ticket_step;
use crate::model::cancel_event_step;
use crate::model::create_event_step;
use crate::model::roster_events;
use crate::model::set_admin_step;
use crate::model::ticket_valid_query;
use crate::model::transfer_ticket_step;
use crate::model::use_ticket_step;
use crate::model::Op;
use crate::model::StateModel;
use crate::types::BuyTicketParams;
use crate::types::Error;
use crate::types::Event;
use crate::types::TransferTicketParams;

verus! {

/// Every operation keeps the state well-formed: in particular, for every
/// stored event, `tickets_sold` stays between 0 and `total_tickets`, and a
/// cancelled event is never active.
pub proof fn lemma_ops_preserve_wf(s: StateModel, op: Op)
    requires
        s.wf(),
    ensures
        apply_op(s, op).wf(),
{
}

/// No failing operation changes anything: whenever a transition reports an
/// error, the state it leaves behind is the state it was given.
pub proof fn lemma_failure_leaves_state(s: StateModel, op: Op)
    ensures
        op_failed(s, op) ==> apply_op(s, op) == s,
{
}

/// Whether the operation, run against `s`, reports an error. `initialize`
/// has no failure mode.
pub open spec fn op_failed(s: StateModel, op: Op) -> bool {
    match op {
        Op::Initialize { admin } => false,
        Op::CreateEvent { caller, creation } => create_event_step(s, caller, creation).1 is Err,
        Op::BuyTicket { caller, purchase, now } => buy_ticket_step(s, caller, purchase, now).1
            is Err,
        Op::TransferTicket { caller, transfer } => transfer_ticket_step(s, caller, transfer).1
            is Err,
        Op::UseTicket { caller, ticket_id } => use_ticket_step(s, caller, ticket_id).1 is Err,
        Op::CancelEvent { caller, event_id } => cancel_event_step(s, caller, event_id).1 is Err,
        Op::SetAdmin { caller, new_admin } => set_admin_step(s, caller, new_admin).1 is Err,
    }
}

/// A used ticket can never be transferred: the attempt reports an error
/// (it is rejected, not silently swallowed) and changes nothing.
pub proof fn lemma_used_ticket_blocks_transfer(
    s: StateModel,
    caller: u64,
    params: TransferTicketParams,
)
    requires
        (params.ticket_id as int) < s.tickets.len(),
        s.tickets[params.ticket_id as int].is_used,
    ensures
        transfer_ticket_step(s, caller, params).1 is Err,
        transfer_ticket_step(s, caller, params).0 == s,
{
}

/// A used ticket can never be checked in again: the attempt reports an
/// error and changes nothing, whoever the caller is.
pub proof fn lemma_used_ticket_blocks_use(s: StateModel, caller: u64, ticket_id: u64)
    requires
        (ticket_id as int) < s.tickets.len(),
        s.tickets[ticket_id as int].is_used,
    ensures
        use_ticket_step(s, caller, ticket_id).1 is Err,
        use_ticket_step(s, caller, ticket_id).0 == s,
{
}

/// No operation un-uses a ticket: once `is_used` is set, it stays set for
/// as long as the ticket exists (only a re-initialization, which empties
/// the ticket store, can make it disappear).
pub proof fn lemma_no_op_revives_ticket(s: StateModel, op: Op, j: int)
    requires
        0 <= j < s.tickets.len(),
        s.tickets[j].is_used,
    ensures
        j < apply_op(s, op).tickets.len() ==> apply_op(s, op).tickets[j].is_used,
{
}

/// Cancelling an event, whether it succeeds or fails, deletes no ticket
/// and changes no event's sales count.
pub proof fn lemma_cancel_preserves_tickets_and_sales(s: StateModel, caller: u64, event_id: u64)
    ensures
        cancel_event_step(s, caller, event_id).0.tickets == s.tickets,
        cancel_event_step(s, caller, event_id).0.events.len() == s.events.len(),
        forall|i: int|
            0 <= i < s.events.len() ==> #[trigger] cancel_event_step(
                s,
                caller,
                event_id,
            ).0.events[i].tickets_sold == s.events[i].tickets_sold,
{
}

/// The moment an event is cancelled, every ticket of that event stops
/// being valid.
pub proof fn lemma_cancel_invalidates_event_tickets(
    s: StateModel,
    caller: u64,
    event_id: u64,
    ticket_id: u64,
)
    requires
        s.wf(),
        cancel_event_step(s, caller, event_id).1 is Ok,
        (ticket_id as int) < s.tickets.len(),
        s.tickets[ticket_id as int].event_id == event_id,
    ensures
        ticket_valid_query(cancel_event_step(s, caller, event_id).0, ticket_id) == Ok::<
            bool,
            Error,
        >(false),
{
}

/// Transferring a ticket and transferring it back restores the exact state
/// it started from: the owner is the original holder again, and `is_used`,
/// `is_refunded` and every other record are untouched.
pub proof fn lemma_transfer_round_trip(
    s: StateModel,
    caller1: u64,
    caller2: u64,
    params: TransferTicketParams,
)
    requires
        transfer_ticket_step(s, caller1, params).1 is Ok,
    ensures
        ({
            let s2 = transfer_ticket_step(s, caller1, params).0;
            let back = TransferTicketParams {
                ticket_id: params.ticket_id,
                from: params.to,
                to: params.from,
            };
            &&& transfer_ticket_step(s2, caller2, back).1 == Ok::<bool, Error>(true)
            &&& transfer_ticket_step(s2, caller2, back).0 == s
        }),
{
    let tidx = params.ticket_id as int;
    let t = s.tickets[tidx];
    let s2 = transfer_ticket_step(s, caller1, params).0;
    let back = TransferTicketParams {
        ticket_id: params.ticket_id,
        from: params.to,
        to: params.from,
    };
    let s3 = transfer_ticket_step(s2, caller2, back).0;
    assert(s3.tickets[tidx] == t);
    assert(s3.tickets =~= s.tickets);
    assert(s3 =~= s);
}

/// Minting from a fresh event succeeds exactly `total_tickets` times: after
/// `n` sales the count stands at `n`, a further mint succeeds while `n` is
/// below capacity, and the mint after the last one fails with `SoldOut`.
pub proof fn lemma_mint_exactly_capacity(
    s: StateModel,
    caller: u64,
    params: BuyTicketParams,
    now: u64,
    n: nat,
)
    requires
        s.wf(),
        s.admin is Some,
        (params.event_id as int) < s.events.len(),
        s.events[params.event_id as int].is_active,
        !s.events[params.event_id as int].is_cancelled,
        s.events[params.event_id as int].tickets_sold == 0,
        n <= s.events[params.event_id as int].total_tickets,
    ensures
        ({
            let sn = buy_repeat(s, caller, params, now, n);
            let e0 = s.events[params.event_id as int];
            &&& sn.wf()
            &&& sn.events[params.event_id as int].tickets_sold == n
            &&& n < e0.total_tickets ==> buy_ticket_step(sn, caller, params, now).1 is Ok
            &&& n == e0.total_tickets ==> buy_ticket_step(sn, caller, params, now).1 == Err::<
                u64,
                Error,
            >(Error::SoldOut)
        }),
    decreases n,
{
    if n == 0 {
    } else {
        lemma_mint_stays_fresh(s, caller, params, now, (n - 1) as nat);
        lemma_mint_exactly_capacity(s, caller, params, now, (n - 1) as nat);
        let sp = buy_repeat(s, caller, params, now, (n - 1) as nat);
        lemma_ops_preserve_wf(sp, Op::BuyTicket { caller, purchase: params, now });
    }
}

/// Helper for the capacity law: repeated minting changes nothing about the
/// event except its sales count, and leaves the admin in place.
proof fn lemma_mint_stays_fresh(s: StateModel, caller: u64, params: BuyTicketParams, now: u64, n: nat)
    requires
        s.wf(),
        s.admin is Some,
        (params.event_id as int) < s.events.len(),
        s.events[params.event_id as int].is_active,
        !s.events[params.event_id as int].is_cancelled,
        n <= s.events[params.event_id as int].total_tickets - s.events[params.event_id as int].tickets_sold,
    ensures
        ({
            let sn = buy_repeat(s, caller, params, now, n);
            let e0 = s.events[params.event_id as int];
            &&& sn.wf()
            &&& sn.admin == s.admin
            &&& sn.events.len() == s.events.len()
            &&& sn.events[params.event_id as int].tickets_sold == e0.tickets_sold + n
            &&& sn.events[params.event_id as int].total_tickets == e0.total_tickets
            &&& sn.events[params.event_id as int].is_active
            &&& !sn.events[params.event_id as int].is_cancelled
        }),
    decreases n,
{
    if n == 0 {
    } else {
        lemma_mint_stays_fresh(s, caller, params, now, (n - 1) as nat);
        let sp = buy_repeat(s, caller, params, now, (n - 1) as nat);
        lemma_ops_preserve_wf(sp, Op::BuyTicket { caller, purchase: params, now });
    }
}

/// In a well-formed state the roster enumeration is complete: walking the
/// roster yields every event ever created, in creation order, nothing
/// skipped and nothing repeated. (The length bound is a formality: any
/// state a machine can hold satisfies it.)
pub proof fn lemma_roster_enumerates_all_events(s: StateModel)
    requires
        s.wf(),
        s.admin is Some,
        s.roster.len() <= u64::MAX,
    ensures
        all_events_query(s) == Ok::<Seq<Event>, Error>(s.events),
{
    lemma_roster_events_prefix(s, s.roster.len() as int);
    assert(s.events.take(s.events.len() as int) =~= s.events);
}

/// Helper for the enumeration law: the first `n` roster entries resolve to
/// the first `n` events.
proof fn lemma_roster_events_prefix(s: StateModel, n: int)
    requires
        s.wf(),
        0 <= n <= s.roster.len(),
        s.roster.len() <= u64::MAX,
    ensures
        roster_events(s, n) == s.events.take(n),
    decreases n,
{
    if n == 0 {
        assert(roster_events(s, 0) =~= s.events.take(0));
    } else {
        lemma_roster_events_prefix(s, n - 1);
        assert(s.events.take(n - 1).push(s.events[n - 1]) =~= s.events.take(n));
    }
}

/// The state after `n` consecutive mints of the same kind.
pub open spec fn buy_repeat(
    s: StateModel,
    caller: u64,
    params: BuyTicketParams,
    now: u64,
    n: nat,
) -> StateModel
    decreases n,
{
    if n == 0 {
        s
    } else {
        buy_ticket_step(buy_repeat(s, caller, params, now, (n - 1) as nat), caller, params, now).0
    }
}

} // verus!
