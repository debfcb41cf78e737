//! What holds of the ledger whatever is done with it, proved over the
//! model.

use crate::model::{LedgerView, Refusal, Role};
use vstd::prelude::*;

verus! {

/// One operation that changes the ledger, with its arguments.
pub enum Event {
    CreateUser { username: Seq<char>, password: Seq<char>, role: Role },
    AddProduct {
        name: Seq<char>,
        description: Seq<char>,
        unit_price: int,
        quantity: nat,
        unit_cost: int,
    },
    UpdateProduct {
        id: nat,
        name: Seq<char>,
        description: Seq<char>,
        unit_price: int,
        quantity: nat,
        unit_cost: int,
    },
    DeleteProduct { id: nat },
    RecordSale { product_id: nat, quantity: nat, user_id: nat, timestamp: Seq<char> },
    RecordPurchase {
        product_id: nat,
        quantity: nat,
        unit_cost: int,
        user_id: nat,
        timestamp: Seq<char>,
    },
}

impl LedgerView {
    /// The ledger after one operation.
    pub open spec fn apply(self, event: Event) -> LedgerView {
        match event {
            Event::CreateUser { username, password, role } => self.after_user_creation(
                username,
                password,
                role,
            ),
            Event::AddProduct { name, description, unit_price, quantity, unit_cost } => {
                self.with_product(name, description, unit_price, quantity, unit_cost)
            },
            Event::UpdateProduct { id, name, description, unit_price, quantity, unit_cost } => {
                self.with_product_replaced(id, name, description, unit_price, quantity, unit_cost)
            },
            Event::DeleteProduct { id } => self.without_product(id),
            Event::RecordSale { product_id, quantity, user_id, timestamp } => self.after_sale(
                product_id,
                quantity,
                user_id,
                timestamp,
            ),
            Event::RecordPurchase { product_id, quantity, unit_cost, user_id, timestamp } => {
                self.after_purchase(product_id, quantity, unit_cost, user_id, timestamp)
            },
        }
    }

    /// The ledger after a sequence of operations, the first one first.
    pub open spec fn run(self, events: Seq<Event>) -> LedgerView
        decreases events.len(),
    {
        if events.len() == 0 {
            self
        } else {
            self.run(events.drop_last()).apply(events.last())
        }
    }
}

/// The empty ledger is consistent.
pub proof fn law_empty_is_consistent()
    ensures
        LedgerView::empty().consistent(),
{
}

/// Creating a user, or being refused one, keeps a consistent ledger
/// consistent.
pub proof fn law_user_creation_keeps_consistency(
    ledger: LedgerView,
    username: Seq<char>,
    password: Seq<char>,
    role: Role,
)
    requires
        ledger.consistent(),
    ensures
        ledger.after_user_creation(username, password, role).consistent(),
{
}

/// Adding a product keeps a consistent ledger consistent.
pub proof fn law_addition_keeps_consistency(
    ledger: LedgerView,
    name: Seq<char>,
    description: Seq<char>,
    unit_price: int,
    quantity: nat,
    unit_cost: int,
)
    requires
        ledger.consistent(),
    ensures
        ledger.with_product(name, description, unit_price, quantity, unit_cost).consistent(),
{
}

/// Overwriting a product keeps a consistent ledger consistent.
pub proof fn law_replacement_keeps_consistency(
    ledger: LedgerView,
    id: nat,
    name: Seq<char>,
    description: Seq<char>,
    unit_price: int,
    quantity: nat,
    unit_cost: int,
)
    requires
        ledger.consistent(),
    ensures
        ledger.with_product_replaced(
            id,
            name,
            description,
            unit_price,
            quantity,
            unit_cost,
        ).consistent(),
{
}

/// Deleting a product keeps a consistent ledger consistent.
pub proof fn law_deletion_keeps_consistency(ledger: LedgerView, id: nat)
    requires
        ledger.consistent(),
    ensures
        ledger.without_product(id).consistent(),
{
}

/// A sale, accepted or refused, keeps a consistent ledger consistent.
pub proof fn law_sale_keeps_consistency(
    ledger: LedgerView,
    product_id: nat,
    quantity: nat,
    user_id: nat,
    timestamp: Seq<char>,
)
    requires
        ledger.consistent(),
    ensures
        ledger.after_sale(product_id, quantity, user_id, timestamp).consistent(),
{
}

/// A purchase, accepted or refused, keeps a consistent ledger consistent.
pub proof fn law_purchase_keeps_consistency(
    ledger: LedgerView,
    product_id: nat,
    quantity: nat,
    unit_cost: int,
    user_id: nat,
    timestamp: Seq<char>,
)
    requires
        ledger.consistent(),
    ensures
        ledger.after_purchase(product_id, quantity, unit_cost, user_id, timestamp).consistent(),
{
}

/// The first user with the name and the password is the one who logs in.
pub proof fn law_first_match_logs_in(
    ledger: LedgerView,
    id: nat,
    username: Seq<char>,
    password: Seq<char>,
)
    requires
        ledger.first_match(id, username, password),
    ensures
        ledger.login(username, password) == Some(id),
{
}

/// Where no user has both the name and the password, nobody logs in.
pub proof fn law_no_match_no_login(ledger: LedgerView, username: Seq<char>, password: Seq<char>)
    requires
        forall|id: nat| !#[trigger] ledger.credentials_match(id, username, password),
    ensures
        ledger.login(username, password) is None,
{
}

/// One operation, whichever it is, keeps a consistent ledger consistent.
pub proof fn law_operation_keeps_consistency(ledger: LedgerView, event: Event)
    requires
        ledger.consistent(),
    ensures
        ledger.apply(event).consistent(),
{
    match event {
        Event::CreateUser { username, password, role } => {
            law_user_creation_keeps_consistency(ledger, username, password, role);
        },
        Event::AddProduct { name, description, unit_price, quantity, unit_cost } => {
            law_addition_keeps_consistency(
                ledger,
                name,
                description,
                unit_price,
                quantity,
                unit_cost,
            );
        },
        Event::UpdateProduct { id, name, description, unit_price, quantity, unit_cost } => {
            law_replacement_keeps_consistency(
                ledger,
                id,
                name,
                description,
                unit_price,
                quantity,
                unit_cost,
            );
        },
        Event::DeleteProduct { id } => {
            law_deletion_keeps_consistency(ledger, id);
        },
        Event::RecordSale { product_id, quantity, user_id, timestamp } => {
            law_sale_keeps_consistency(ledger, product_id, quantity, user_id, timestamp);
        },
        Event::RecordPurchase { product_id, quantity, unit_cost, user_id, timestamp } => {
            law_purchase_keeps_consistency(
                ledger,
                product_id,
                quantity,
                unit_cost,
                user_id,
                timestamp,
            );
        },
    }
}

/// Any sequence of operations keeps a consistent ledger consistent.
pub proof fn law_run_keeps_consistency(ledger: LedgerView, events: Seq<Event>)
    requires
        ledger.consistent(),
    ensures
        ledger.run(events).consistent(),
    decreases events.len(),
{
    if events.len() > 0 {
        law_run_keeps_consistency(ledger, events.drop_last());
        law_operation_keeps_consistency(ledger.run(events.drop_last()), events.last());
    }
}

/// The ledger that a run starts with is consistent, and so is every ledger
/// that operations lead to from it.
pub proof fn law_reachable_is_consistent(events: Seq<Event>)
    ensures
        LedgerView::initial().consistent(),
        LedgerView::initial().run(events).consistent(),
{
    law_empty_is_consistent();
    law_user_creation_keeps_consistency(LedgerView::empty(), "admin"@, "admin"@, Role::Admin);
    law_run_keeps_consistency(LedgerView::initial(), events);
}

/// No stock level is negative, whatever sales, purchases and other
/// operations were carried out on a consistent ledger.
pub proof fn law_stock_never_negative(ledger: LedgerView, events: Seq<Event>, product_id: nat)
    requires
        ledger.consistent(),
        ledger.run(events).products.contains_key(product_id),
    ensures
        ledger.run(events).products[product_id].quantity_on_hand >= 0,
{
    law_run_keeps_consistency(ledger, events);
}

/// A sale of more items than the product holds is refused with the number
/// that it holds, and changes nothing: no stock, no record, no identifier.
pub proof fn law_oversized_sale_changes_nothing(
    ledger: LedgerView,
    product_id: nat,
    quantity: nat,
    user_id: nat,
    timestamp: Seq<char>,
)
    requires
        ledger.products.contains_key(product_id),
        quantity > ledger.products[product_id].quantity_on_hand,
    ensures
        ledger.sale_outcome(product_id, quantity) == Err::<nat, Refusal>(
            Refusal::InsufficientStock { available: ledger.products[product_id].quantity_on_hand },
        ),
        ledger.after_sale(product_id, quantity, user_id, timestamp) == ledger,
{
}

/// No operation lowers an identifier counter.
pub proof fn law_operation_keeps_counters(ledger: LedgerView, event: Event)
    ensures
        ledger.apply(event).next_product_id >= ledger.next_product_id,
        ledger.apply(event).next_sale_id >= ledger.next_sale_id,
        ledger.apply(event).next_purchase_id >= ledger.next_purchase_id,
        ledger.apply(event).next_user_id >= ledger.next_user_id,
{
}

/// No sequence of operations lowers an identifier counter.
pub proof fn law_counters_never_fall(ledger: LedgerView, events: Seq<Event>)
    ensures
        ledger.run(events).next_product_id >= ledger.next_product_id,
        ledger.run(events).next_sale_id >= ledger.next_sale_id,
        ledger.run(events).next_purchase_id >= ledger.next_purchase_id,
        ledger.run(events).next_user_id >= ledger.next_user_id,
    decreases events.len(),
{
    if events.len() > 0 {
        law_counters_never_fall(ledger, events.drop_last());
        law_operation_keeps_counters(ledger.run(events.drop_last()), events.last());
    }
}

/// A product identifier is given out once. After a product was added,
/// whatever operations follow, its deletion among them, the next product to
/// be added receives a strictly greater identifier.
pub proof fn law_product_ids_never_reused(
    ledger: LedgerView,
    name: Seq<char>,
    description: Seq<char>,
    unit_price: int,
    quantity: nat,
    unit_cost: int,
    events: Seq<Event>,
)
    ensures
        ledger.with_product(name, description, unit_price, quantity, unit_cost).run(
            events,
        ).next_product_id > ledger.next_product_id,
{
    law_counters_never_fall(
        ledger.with_product(name, description, unit_price, quantity, unit_cost),
        events,
    );
}

/// A product that is added and deleted at once is gone, and the next product
/// to be added receives a strictly greater identifier than it had.
pub proof fn law_deleted_id_stays_spent(
    ledger: LedgerView,
    name: Seq<char>,
    description: Seq<char>,
    unit_price: int,
    quantity: nat,
    unit_cost: int,
)
    ensures
        ({
            let id = ledger.next_product_id;
            let after = ledger.with_product(
                name,
                description,
                unit_price,
                quantity,
                unit_cost,
            ).without_product(id);
            !after.products.contains_key(id) && after.next_product_id > id
        }),
{
}

/// Whether every sale record, purchase record and user of `before` is in
/// `after` as it was.
pub open spec fn keeps_records(before: LedgerView, after: LedgerView) -> bool {
    &&& forall|id: nat| #[trigger]
        before.sales.contains_key(id) ==> after.sales.contains_key(id) && after.sales[id]
            == before.sales[id]
    &&& forall|id: nat| #[trigger]
        before.purchases.contains_key(id) ==> after.purchases.contains_key(id)
            && after.purchases[id] == before.purchases[id]
    &&& forall|id: nat| #[trigger]
        before.users.contains_key(id) ==> after.users.contains_key(id) && after.users[id]
            == before.users[id]
}

/// No operation changes or removes a sale record, a purchase record or a
/// user: the deletion of a product leaves the records that refer to it.
pub proof fn law_operation_keeps_records(ledger: LedgerView, event: Event)
    requires
        ledger.consistent(),
    ensures
        keeps_records(ledger, ledger.apply(event)),
{
}

/// No sequence of operations changes or removes a sale record, a purchase
/// record or a user.
pub proof fn law_records_are_kept(ledger: LedgerView, events: Seq<Event>)
    requires
        ledger.consistent(),
    ensures
        keeps_records(ledger, ledger.run(events)),
    decreases events.len(),
{
    if events.len() > 0 {
        law_records_are_kept(ledger, events.drop_last());
        law_run_keeps_consistency(ledger, events.drop_last());
        law_operation_keeps_records(ledger.run(events.drop_last()), events.last());
    }
}

/// A user with a name that is taken is refused, and the ledger stays as it
/// is.
pub proof fn law_taken_name_is_refused(
    ledger: LedgerView,
    username: Seq<char>,
    password: Seq<char>,
    role: Role,
)
    requires
        ledger.username_taken(username),
    ensures
        ledger.user_creation_outcome(username) is None,
        ledger.after_user_creation(username, password, role) == ledger,
{
}

/// A name that is taken stays taken through any sequence of operations:
/// users are never removed or renamed.
pub proof fn law_names_stay_taken(ledger: LedgerView, events: Seq<Event>, username: Seq<char>)
    requires
        ledger.consistent(),
        ledger.username_taken(username),
    ensures
        ledger.run(events).username_taken(username),
{
    law_records_are_kept(ledger, events);
    let id = choose|id: nat| #[trigger]
        ledger.users.contains_key(id) && ledger.users[id].username == username;
    assert(ledger.run(events).users.contains_key(id));
}

/// In every ledger that operations lead to from the initial one, the name
/// `admin` is taken: a second user of that name is always refused.
pub proof fn law_admin_name_is_always_taken(events: Seq<Event>)
    ensures
        LedgerView::initial().run(events).username_taken("admin"@),
        LedgerView::initial().run(events).user_creation_outcome("admin"@) is None,
{
    law_reachable_is_consistent(events);
    assert(LedgerView::initial().users.contains_key(1));
    law_names_stay_taken(LedgerView::initial(), events, "admin"@);
}

/// A right name with a wrong password logs nobody in.
pub proof fn law_wrong_password_is_refused(
    ledger: LedgerView,
    id: nat,
    username: Seq<char>,
    password: Seq<char>,
)
    requires
        ledger.consistent(),
        ledger.users.contains_key(id),
        ledger.users[id].username == username,
        ledger.users[id].password != password,
    ensures
        ledger.login(username, password) is None,
{
    assert forall|other: nat| !#[trigger] ledger.credentials_match(
        other,
        username,
        password,
    ) by {
        if ledger.credentials_match(other, username, password) {
            assert(other == id);
        }
    }
    law_no_match_no_login(ledger, username, password);
}

/// A right name with its right password logs that user in.
pub proof fn law_right_password_logs_in(
    ledger: LedgerView,
    id: nat,
    username: Seq<char>,
    password: Seq<char>,
)
    requires
        ledger.consistent(),
        ledger.credentials_match(id, username, password),
    ensures
        ledger.login(username, password) == Some(id),
{
    assert forall|other: nat| other < id implies !#[trigger] ledger.credentials_match(
        other,
        username,
        password,
    ) by {
        if ledger.credentials_match(other, username, password) {
            assert(other == id);
        }
    }
    law_first_match_logs_in(ledger, id, username, password);
}

} // verus!
