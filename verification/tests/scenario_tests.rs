//! Scenarios and edge cases: capacity exhaustion, frozen tickets, failed
//! authorization leaving the state untouched, every error variant, and the
//! documented limitations.

use eventx::BuyTicketParams;
use eventx::CreateEventParams;
use eventx::Error;
use eventx::Event;
use eventx::EventXContract;
use eventx::Ticket;
use eventx::TransferTicketParams;

fn small_event(total_tickets: u32) -> CreateEventParams {
    CreateEventParams {
        title: String::from("Show"),
        description: String::from("One night only"),
        total_tickets,
        ticket_price: 250,
        event_date: 1700000000,
    }
}

#[test]
fn mint_to_capacity_then_sold_out() {
    let mut contract = EventXContract::new();
    let admin: u64 = 1;
    let buyer: u64 = 2;
    contract.initialize(admin);

    let event_id = contract.create_event(admin, small_event(3)).unwrap();

    let t0 = contract.buy_ticket(buyer, BuyTicketParams { event_id, buyer }, 10).unwrap();
    let t1 = contract.buy_ticket(buyer, BuyTicketParams { event_id, buyer }, 11).unwrap();
    let t2 = contract.buy_ticket(buyer, BuyTicketParams { event_id, buyer }, 12).unwrap();
    assert!(t0 != t1 && t1 != t2 && t0 != t2);
    assert_eq!(contract.get_event_ticket_count(event_id).unwrap(), 3);

    let fourth = contract.buy_ticket(buyer, BuyTicketParams { event_id, buyer }, 13);
    assert_eq!(fourth, Err(Error::SoldOut));
    assert_eq!(contract.get_event_ticket_count(event_id).unwrap(), 3);
}

#[test]
fn single_ticket_event_sells_out_after_one() {
    let mut contract = EventXContract::new();
    let admin: u64 = 1;
    let buyer: u64 = 3;
    contract.initialize(admin);

    let params = CreateEventParams {
        title: String::from("Premiere"),
        description: String::from("Single seat"),
        total_tickets: 1,
        ticket_price: 1000,
        event_date: 1234567890,
    };
    let event_id = contract.create_event(admin, params).unwrap();

    let ticket_id = contract.buy_ticket(buyer, BuyTicketParams { event_id, buyer }, 7).unwrap();
    assert_eq!(contract.get_event_ticket_count(event_id).unwrap(), 1);
    assert_eq!(contract.get_ticket(ticket_id).unwrap().unwrap().owner, buyer);

    let second = contract.buy_ticket(buyer, BuyTicketParams { event_id, buyer }, 8);
    assert_eq!(second, Err(Error::SoldOut));
}

#[test]
fn used_ticket_stays_used() {
    let mut contract = EventXContract::new();
    let admin: u64 = 1;
    let buyer: u64 = 2;
    let other: u64 = 4;
    contract.initialize(admin);

    let event_id = contract.create_event(admin, small_event(5)).unwrap();
    let ticket_id = contract.buy_ticket(buyer, BuyTicketParams { event_id, buyer }, 0).unwrap();

    assert_eq!(contract.use_ticket(admin, ticket_id), Ok(true));

    let again = contract.use_ticket(admin, ticket_id);
    assert_eq!(again, Err(Error::TicketUsed));

    let moved = contract.transfer_ticket(
        buyer,
        TransferTicketParams { ticket_id, from: buyer, to: other },
    );
    assert_eq!(moved, Err(Error::TicketUsed));
    assert_eq!(contract.get_ticket(ticket_id).unwrap().unwrap().owner, buyer);
    assert_eq!(contract.is_ticket_valid(ticket_id), Ok(false));
}

#[test]
fn non_admin_is_rejected_and_changes_nothing() {
    let mut contract = EventXContract::new();
    let admin: u64 = 1;
    let stranger: u64 = 9;
    contract.initialize(admin);

    let event_id = contract.create_event(admin, small_event(10)).unwrap();

    let refused = contract.create_event(stranger, small_event(10));
    assert_eq!(refused, Err(Error::Unauthorized));
    assert_eq!(contract.get_all_events().unwrap().len(), 1);

    let refused = contract.cancel_event(stranger, event_id);
    assert_eq!(refused, Err(Error::Unauthorized));
    let event = contract.get_event(event_id).unwrap().unwrap();
    assert!(event.is_active);
    assert!(!event.is_cancelled);

    let ticket_id = contract
        .buy_ticket(stranger, BuyTicketParams { event_id, buyer: stranger }, 0)
        .unwrap();
    assert_eq!(contract.use_ticket(stranger, ticket_id), Err(Error::Unauthorized));
    assert!(!contract.get_ticket(ticket_id).unwrap().unwrap().is_used);

    assert_eq!(contract.set_admin(stranger, stranger), Err(Error::Unauthorized));
    assert_eq!(contract.get_admin(), Ok(admin));
}

#[test]
fn transfer_round_trip_restores_owner() {
    let mut contract = EventXContract::new();
    let admin: u64 = 1;
    let alice: u64 = 2;
    let bob: u64 = 3;
    contract.initialize(admin);

    let event_id = contract.create_event(admin, small_event(4)).unwrap();
    let ticket_id = contract
        .buy_ticket(alice, BuyTicketParams { event_id, buyer: alice }, 42)
        .unwrap();
    let before = contract.get_ticket(ticket_id).unwrap().unwrap();

    assert_eq!(
        contract.transfer_ticket(alice, TransferTicketParams { ticket_id, from: alice, to: bob }),
        Ok(true),
    );
    assert_eq!(contract.get_ticket(ticket_id).unwrap().unwrap().owner, bob);

    assert_eq!(
        contract.transfer_ticket(bob, TransferTicketParams { ticket_id, from: bob, to: alice }),
        Ok(true),
    );

    let after = contract.get_ticket(ticket_id).unwrap().unwrap();
    assert_eq!(after.owner, alice);
    assert_eq!(after.is_used, before.is_used);
    assert_eq!(after.is_refunded, before.is_refunded);
    assert_eq!(after.purchase_date, before.purchase_date);
    assert_eq!(after.event_id, before.event_id);
}

#[test]
fn cancellation_keeps_tickets_and_count_but_invalidates() {
    let mut contract = EventXContract::new();
    let admin: u64 = 1;
    let buyer: u64 = 2;
    contract.initialize(admin);

    let event_id = contract.create_event(admin, small_event(5)).unwrap();
    let t0 = contract.buy_ticket(buyer, BuyTicketParams { event_id, buyer }, 1).unwrap();
    let t1 = contract.buy_ticket(buyer, BuyTicketParams { event_id, buyer }, 2).unwrap();
    assert_eq!(contract.is_ticket_valid(t0), Ok(true));

    assert_eq!(contract.cancel_event(admin, event_id), Ok(true));

    assert_eq!(contract.get_event_ticket_count(event_id).unwrap(), 2);
    assert!(contract.get_ticket(t0).unwrap().is_some());
    assert!(contract.get_ticket(t1).unwrap().is_some());
    assert_eq!(contract.is_ticket_valid(t0), Ok(false));
    assert_eq!(contract.is_ticket_valid(t1), Ok(false));
}

#[test]
fn cancelled_event_freezes_its_tickets() {
    let mut contract = EventXContract::new();
    let admin: u64 = 1;
    let buyer: u64 = 2;
    let other: u64 = 3;
    contract.initialize(admin);

    let event_id = contract.create_event(admin, small_event(5)).unwrap();
    let ticket_id = contract.buy_ticket(buyer, BuyTicketParams { event_id, buyer }, 0).unwrap();
    contract.cancel_event(admin, event_id).unwrap();

    let moved = contract.transfer_ticket(
        buyer,
        TransferTicketParams { ticket_id, from: buyer, to: other },
    );
    assert_eq!(moved, Err(Error::EventCancelled));
    assert_eq!(contract.use_ticket(admin, ticket_id), Err(Error::EventCancelled));

    let bought = contract.buy_ticket(buyer, BuyTicketParams { event_id, buyer }, 1);
    assert_eq!(bought, Err(Error::EventNotActive));

    assert_eq!(contract.cancel_event(admin, event_id), Err(Error::AlreadyCancelled));
}

#[test]
fn operations_before_initialize_fail() {
    let mut contract = EventXContract::new();
    let someone: u64 = 1;

    assert_eq!(contract.get_admin(), Err(Error::NotInitialized));
    assert_eq!(contract.create_event(someone, small_event(1)), Err(Error::NotInitialized));
    assert_eq!(
        contract.buy_ticket(someone, BuyTicketParams { event_id: 0, buyer: someone }, 0),
        Err(Error::NotInitialized),
    );
    assert_eq!(
        contract.transfer_ticket(
            someone,
            TransferTicketParams { ticket_id: 0, from: someone, to: someone },
        ),
        Err(Error::NotInitialized),
    );
    assert_eq!(contract.use_ticket(someone, 0), Err(Error::NotInitialized));
    assert_eq!(contract.cancel_event(someone, 0), Err(Error::NotInitialized));
    assert_eq!(contract.get_event(0), Err(Error::NotInitialized));
    assert_eq!(contract.get_ticket(0), Err(Error::NotInitialized));
    assert_eq!(contract.get_all_events(), Err(Error::NotInitialized));
    assert_eq!(contract.get_user_tickets(someone), Err(Error::NotInitialized));
    assert_eq!(contract.get_event_ticket_count(0), Err(Error::NotInitialized));
    assert_eq!(contract.is_ticket_valid(0), Err(Error::NotInitialized));
    assert_eq!(contract.set_admin(someone, someone), Err(Error::NotInitialized));
}

#[test]
fn unknown_records_are_not_found() {
    let mut contract = EventXContract::new();
    let admin: u64 = 1;
    contract.initialize(admin);

    assert_eq!(
        contract.buy_ticket(admin, BuyTicketParams { event_id: 7, buyer: admin }, 0),
        Err(Error::NotFound),
    );
    assert_eq!(
        contract.transfer_ticket(
            admin,
            TransferTicketParams { ticket_id: 7, from: admin, to: admin },
        ),
        Err(Error::NotFound),
    );
    assert_eq!(contract.use_ticket(admin, 7), Err(Error::NotFound));
    assert_eq!(contract.cancel_event(admin, 7), Err(Error::NotFound));
    assert_eq!(contract.get_event_ticket_count(7), Err(Error::NotFound));
    assert_eq!(contract.is_ticket_valid(7), Err(Error::NotFound));

    assert_eq!(contract.get_event(7), Ok(None));
    assert_eq!(contract.get_ticket(7), Ok(None));
}

#[test]
fn transfer_needs_the_right_from_party() {
    let mut contract = EventXContract::new();
    let admin: u64 = 1;
    let buyer: u64 = 2;
    let impostor: u64 = 3;
    contract.initialize(admin);

    let event_id = contract.create_event(admin, small_event(2)).unwrap();
    let ticket_id = contract.buy_ticket(buyer, BuyTicketParams { event_id, buyer }, 0).unwrap();

    let moved = contract.transfer_ticket(
        impostor,
        TransferTicketParams { ticket_id, from: impostor, to: impostor },
    );
    assert_eq!(moved, Err(Error::NotOwner));
    assert_eq!(contract.get_ticket(ticket_id).unwrap().unwrap().owner, buyer);
}

#[test]
fn refunded_ticket_is_frozen() {
    // No operation marks a ticket refunded (the refund flow is reserved),
    // so start from a state that already holds one.
    let event = Event {
        id: 0,
        title: String::from("Show"),
        description: String::from("One night only"),
        organizer: 1,
        total_tickets: 2,
        tickets_sold: 1,
        ticket_price: 250,
        event_date: 1700000000,
        is_active: true,
        is_cancelled: false,
    };
    let ticket = Ticket {
        id: 0,
        event_id: 0,
        owner: 2,
        is_used: false,
        is_refunded: true,
        purchase_date: 5,
    };
    let mut contract = EventXContract {
        admin: Some(1),
        events: vec![event],
        tickets: vec![ticket],
        roster: vec![0],
    };

    assert_eq!(
        contract.transfer_ticket(2, TransferTicketParams { ticket_id: 0, from: 2, to: 3 }),
        Err(Error::TicketRefunded),
    );
    assert_eq!(contract.use_ticket(1, 0), Err(Error::TicketRefunded));
    assert_eq!(contract.is_ticket_valid(0), Ok(false));
}

#[test]
fn reinitialize_resets_all_state() {
    let mut contract = EventXContract::new();
    let admin: u64 = 1;
    let buyer: u64 = 2;
    contract.initialize(admin);

    let event_id = contract.create_event(admin, small_event(5)).unwrap();
    contract.buy_ticket(buyer, BuyTicketParams { event_id, buyer }, 0).unwrap();

    let new_admin: u64 = 8;
    contract.initialize(new_admin);

    assert_eq!(contract.get_admin(), Ok(new_admin));
    assert_eq!(contract.get_all_events().unwrap().len(), 0);
    assert_eq!(contract.get_event(event_id), Ok(None));
    assert_eq!(contract.get_ticket(0), Ok(None));

    // Identifier allocation starts over with the fresh stores.
    let again = contract.create_event(new_admin, small_event(5)).unwrap();
    assert_eq!(again, event_id);
}

#[test]
fn admin_rotation_hands_the_role_over() {
    let mut contract = EventXContract::new();
    let admin: u64 = 1;
    let successor: u64 = 6;
    contract.initialize(admin);

    assert_eq!(contract.set_admin(admin, successor), Ok(true));
    assert_eq!(contract.get_admin(), Ok(successor));

    assert_eq!(contract.create_event(admin, small_event(1)), Err(Error::Unauthorized));
    assert!(contract.create_event(successor, small_event(1)).is_ok());
}

#[test]
fn user_ticket_enumeration_is_deliberately_empty() {
    let mut contract = EventXContract::new();
    let admin: u64 = 1;
    let buyer: u64 = 2;
    contract.initialize(admin);

    let event_id = contract.create_event(admin, small_event(3)).unwrap();
    contract.buy_ticket(buyer, BuyTicketParams { event_id, buyer }, 0).unwrap();

    assert_eq!(contract.get_user_tickets(buyer), Ok(vec![]));
}

#[test]
fn zero_capacity_and_negative_price_are_accepted() {
    let mut contract = EventXContract::new();
    let admin: u64 = 1;
    contract.initialize(admin);

    let params = CreateEventParams {
        title: String::from("Free-for-nobody"),
        description: String::from("Zero seats, negative price"),
        total_tickets: 0,
        ticket_price: -5,
        event_date: 1,
    };
    let event_id = contract.create_event(admin, params).unwrap();

    let event = contract.get_event(event_id).unwrap().unwrap();
    assert_eq!(event.total_tickets, 0);
    assert_eq!(event.ticket_price, -5);

    let bought = contract.buy_ticket(admin, BuyTicketParams { event_id, buyer: admin }, 0);
    assert_eq!(bought, Err(Error::SoldOut));
}

#[test]
fn identifiers_and_purchase_dates_are_recorded() {
    let mut contract = EventXContract::new();
    let admin: u64 = 1;
    let buyer: u64 = 2;
    contract.initialize(admin);

    let first = contract.create_event(admin, small_event(2)).unwrap();
    let second = contract.create_event(admin, small_event(2)).unwrap();
    assert!(first != second);

    let t0 = contract
        .buy_ticket(buyer, BuyTicketParams { event_id: first, buyer }, 100)
        .unwrap();
    let t1 = contract
        .buy_ticket(buyer, BuyTicketParams { event_id: second, buyer }, 200)
        .unwrap();
    assert!(t0 != t1);
    assert_eq!(contract.get_ticket(t0).unwrap().unwrap().purchase_date, 100);
    assert_eq!(contract.get_ticket(t1).unwrap().unwrap().purchase_date, 200);
    assert_eq!(contract.get_ticket(t0).unwrap().unwrap().event_id, first);
    assert_eq!(contract.get_ticket(t1).unwrap().unwrap().event_id, second);
}
