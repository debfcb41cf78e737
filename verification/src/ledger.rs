//! The ledger itself: the four collections, the identifier counters, and the
//! operations on them. Every operation says over the model what it returns
//! and what it changes.

use crate::clock::{chrono_string, is_time_label};
use crate::laws::{
    law_addition_keeps_consistency, law_deletion_keeps_consistency, law_empty_is_consistent,
    law_first_match_logs_in, law_no_match_no_login, law_purchase_keeps_consistency,
    law_replacement_keeps_consistency, law_sale_keeps_consistency,
    law_user_creation_keeps_consistency,
};
use crate::model::{LedgerView, Role};
use crate::records::{
    outcome_view, LedgerError, Product, Purchase, Sale, User, PROFIT_LIMIT,
};
use std::collections::HashMap;
use vstd::prelude::*;

verus! {

broadcast use vstd::std_specs::hash::group_hash_axioms;

/// A stored collection as the model has it: keyed by natural numbers, each
/// entry by its view.
spec fn views_by_id<T: View>(entries: Map<u32, T>) -> Map<nat, T::V> {
    Map::new(
        |id: nat| id <= u32::MAX && entries.contains_key(id as u32),
        |id: nat| entries[id as u32]@,
    )
}

/// An identifier, or none, as the model has it.
pub open spec fn id_view(id: Option<u32>) -> Option<nat> {
    match id {
        Some(id) => Some(id as nat),
        None => None,
    }
}

proof fn lemma_views_of_empty<T: View>()
    ensures
        views_by_id(Map::<u32, T>::empty()) == Map::<nat, T::V>::empty(),
{
}

proof fn lemma_views_after_insert<T: View>(entries: Map<u32, T>, id: u32, entry: T)
    ensures
        views_by_id(entries.insert(id, entry)) == views_by_id(entries).insert(id as nat, entry@),
{
}

proof fn lemma_views_after_remove<T: View>(entries: Map<u32, T>, id: u32)
    ensures
        views_by_id(entries.remove(id)) == views_by_id(entries).remove(id as nat),
{
}

/// The in-memory ledger of products, sales, purchases and users.
pub struct Ledger {
    products: HashMap<u32, Product>,
    sales: HashMap<u32, Sale>,
    purchases: HashMap<u32, Purchase>,
    users: HashMap<u32, User>,
    next_product_id: u32,
    next_sale_id: u32,
    next_purchase_id: u32,
    next_user_id: u32,
}

impl View for Ledger {
    type V = LedgerView;

    closed spec fn view(&self) -> LedgerView {
        LedgerView {
            products: views_by_id(self.products@),
            sales: views_by_id(self.sales@),
            purchases: views_by_id(self.purchases@),
            users: views_by_id(self.users@),
            next_product_id: self.next_product_id as nat,
            next_sale_id: self.next_sale_id as nat,
            next_purchase_id: self.next_purchase_id as nat,
            next_user_id: self.next_user_id as nat,
        }
    }
}

impl Ledger {
    /// The invariant of the ledger: its model is consistent, and no sale
    /// record holds a profit beyond what one sale can yield.
    pub closed spec fn wf(&self) -> bool {
        &&& self@.consistent()
        &&& forall|id: u32| #[trigger]
            self.sales@.contains_key(id) ==> -PROFIT_LIMIT <= self.sales@[id].profit
                <= PROFIT_LIMIT
    }

    /// A well-formed ledger has a consistent model, whose numbers are in the
    /// range of the types that store them.
    pub proof fn lemma_wf(&self)
        requires
            self.wf(),
        ensures
            self@.consistent(),
            self@.next_product_id <= u32::MAX,
            self@.next_sale_id <= u32::MAX,
            self@.next_purchase_id <= u32::MAX,
            self@.next_user_id <= u32::MAX,
            forall|id: nat| #[trigger]
                self@.products.contains_key(id) ==> self@.products[id].quantity_on_hand
                    <= u32::MAX && i64::MIN <= self@.products[id].unit_price <= i64::MAX
                    && i64::MIN <= self@.products[id].unit_cost <= i64::MAX,
            forall|id: nat| #[trigger]
                self@.sales.contains_key(id) ==> self@.sales[id].quantity <= u32::MAX && i64::MIN
                    <= self@.sales[id].unit_price_at_sale <= i64::MAX && -PROFIT_LIMIT
                    <= self@.sales[id].profit <= PROFIT_LIMIT,
            forall|id: nat| #[trigger]
                self@.purchases.contains_key(id) ==> self@.purchases[id].quantity <= u32::MAX
                    && i64::MIN <= self@.purchases[id].unit_cost_at_purchase <= i64::MAX,
    {
    }

    /// The ledger that a run starts with: no products, sales or purchases,
    /// and one administrator named `admin` with the password `admin`.
    pub fn new() -> (ledger: Ledger)
        ensures
            ledger.wf(),
            ledger@ == LedgerView::initial(),
    {
        let mut ledger = Ledger {
            products: HashMap::new(),
            sales: HashMap::new(),
            purchases: HashMap::new(),
            users: HashMap::new(),
            next_product_id: 1,
            next_sale_id: 1,
            next_purchase_id: 1,
            next_user_id: 1,
        };
        proof {
            lemma_views_of_empty::<Product>();
            lemma_views_of_empty::<Sale>();
            lemma_views_of_empty::<Purchase>();
            lemma_views_of_empty::<User>();
            law_empty_is_consistent();
        }
        ledger.create_user(String::from_str("admin"), String::from_str("admin"), Role::Admin);
        ledger
    }

    /// Whether some user bears the name.
    pub fn username_taken(&self, username: &String) -> (taken: bool)
        requires
            self.wf(),
        ensures
            taken == self@.username_taken(username@),
    {
        let mut id: u32 = 1;
        while id < self.next_user_id
            invariant
                self.wf(),
                1 <= id <= self.next_user_id,
                forall|other: nat|
                    1 <= other < id ==> (#[trigger] self@.users[other]).username != username@,
            decreases self.next_user_id - id,
        {
            assert(self@.users.contains_key(id as nat));
            match self.users.get(&id) {
                Some(user) => {
                    if user.username == *username {
                        return true;
                    }
                },
                None => {},
            }
            id = id + 1;
        }
        false
    }

    /// Whether a user of that name can be created without running out of
    /// identifiers.
    pub fn user_fits(&self, username: &String) -> (fits: bool)
        requires
            self.wf(),
        ensures
            fits == self@.user_fits(username@),
    {
        self.next_user_id < u32::MAX || self.username_taken(username)
    }

    /// Creates a user, unless the name is taken: then nothing changes and
    /// the result is `None`. Otherwise the user is stored under the next user
    /// identifier, which is returned.
    pub fn create_user(&mut self, username: String, password: String, role: Role) -> (created:
        Option<u32>)
        requires
            old(self).wf(),
            old(self)@.user_fits(username@),
        ensures
            final(self).wf(),
            id_view(created) == old(self)@.user_creation_outcome(username@),
            final(self)@ == old(self)@.after_user_creation(username@, password@, role),
    {
        if self.username_taken(&username) {
            return None;
        }
        let id = self.next_user_id;
        proof {
            law_user_creation_keeps_consistency(old(self)@, username@, password@, role);
            lemma_views_after_insert(self.users@, id, User { username, password, role });
        }
        self.users.insert(id, User { username, password, role });
        self.next_user_id = id + 1;
        Some(id)
    }

    /// Who logs in with this name and password: the first user, by
    /// identifier, whose stored name and password are exactly these, or
    /// nobody.
    pub fn authenticate(&self, username: &str, password: &str) -> (user_id: Option<u32>)
        requires
            self.wf(),
        ensures
            id_view(user_id) == self@.login(username@, password@),
    {
        let given_name = String::from_str(username);
        let given_password = String::from_str(password);
        let mut id: u32 = 1;
        while id < self.next_user_id
            invariant
                self.wf(),
                1 <= id <= self.next_user_id,
                given_name@ == username@,
                given_password@ == password@,
                forall|other: nat|
                    other < id ==> !#[trigger] self@.credentials_match(
                        other,
                        username@,
                        password@,
                    ),
            decreases self.next_user_id - id,
        {
            match self.users.get(&id) {
                Some(user) => {
                    if user.username == given_name && user.password == given_password {
                        proof {
                            law_first_match_logs_in(self@, id as nat, username@, password@);
                        }
                        return Some(id);
                    }
                },
                None => {},
            }
            id = id + 1;
        }
        proof {
            law_no_match_no_login(self@, username@, password@);
        }
        None
    }

    /// Whether `user_id` is a user with the administrator's role. Of an
    /// unknown identifier the answer is no.
    pub fn is_admin(&self, user_id: u32) -> (admin: bool)
        ensures
            admin == self@.is_admin(user_id as nat),
    {
        match self.users.get(&user_id) {
            Some(user) => {
                match user.role {
                    Role::Admin => true,
                    Role::Employee => false,
                }
            },
            None => false,
        }
    }

    /// Whether a product can be added without running out of identifiers.
    pub fn product_fits(&self) -> (fits: bool)
        ensures
            fits == self@.product_fits(),
    {
        self.next_product_id < u32::MAX
    }

    /// Adds a product under the next product identifier, which is returned.
    pub fn add_product(
        &mut self,
        name: String,
        description: String,
        unit_price: i64,
        quantity: u32,
        unit_cost: i64,
    ) -> (id: u32)
        requires
            old(self).wf(),
            old(self)@.product_fits(),
        ensures
            final(self).wf(),
            id == old(self)@.next_product_id,
            final(self)@ == old(self)@.with_product(
                name@,
                description@,
                unit_price as int,
                quantity as nat,
                unit_cost as int,
            ),
    {
        let id = self.next_product_id;
        let product = Product {
            id,
            name,
            description,
            unit_price,
            quantity_on_hand: quantity,
            unit_cost,
        };
        proof {
            law_addition_keeps_consistency(
                old(self)@,
                name@,
                description@,
                unit_price as int,
                quantity as nat,
                unit_cost as int,
            );
            lemma_views_after_insert(self.products@, id, product);
        }
        self.products.insert(id, product);
        self.next_product_id = id + 1;
        id
    }

    /// Overwrites every field of the product `id` but its identifier.
    /// Returns whether there is such a product; where there is none, nothing
    /// changes.
    pub fn update_product(
        &mut self,
        id: u32,
        name: String,
        description: String,
        unit_price: i64,
        quantity: u32,
        unit_cost: i64,
    ) -> (updated: bool)
        requires
            old(self).wf(),
        ensures
            final(self).wf(),
            updated == old(self)@.products.contains_key(id as nat),
            final(self)@ == old(self)@.with_product_replaced(
                id as nat,
                name@,
                description@,
                unit_price as int,
                quantity as nat,
                unit_cost as int,
            ),
    {
        if !self.products.contains_key(&id) {
            return false;
        }
        let product = Product {
            id,
            name,
            description,
            unit_price,
            quantity_on_hand: quantity,
            unit_cost,
        };
        proof {
            law_replacement_keeps_consistency(
                old(self)@,
                id as nat,
                name@,
                description@,
                unit_price as int,
                quantity as nat,
                unit_cost as int,
            );
            lemma_views_after_insert(self.products@, id, product);
        }
        self.products.insert(id, product);
        true
    }

    /// Removes the product `id`, whatever records refer to it. Returns
    /// whether there was such a product.
    pub fn delete_product(&mut self, id: u32) -> (deleted: bool)
        requires
            old(self).wf(),
        ensures
            final(self).wf(),
            deleted == old(self)@.products.contains_key(id as nat),
            final(self)@ == old(self)@.without_product(id as nat),
    {
        proof {
            law_deletion_keeps_consistency(old(self)@, id as nat);
            lemma_views_after_remove(self.products@, id);
        }
        let removed = self.products.remove(&id);
        removed.is_some()
    }

    /// The product `id`, if there is one.
    pub fn product(&self, id: u32) -> (found: Option<&Product>)
        ensures
            match found {
                Some(product) => self@.products.contains_key(id as nat) && product@
                    == self@.products[id as nat],
                None => !self@.products.contains_key(id as nat),
            },
    {
        self.products.get(&id)
    }

    /// The sale record `id`, if there is one.
    pub fn sale(&self, id: u32) -> (found: Option<&Sale>)
        ensures
            match found {
                Some(sale) => self@.sales.contains_key(id as nat) && sale@ == self@.sales[id as nat],
                None => !self@.sales.contains_key(id as nat),
            },
    {
        self.sales.get(&id)
    }

    /// The purchase record `id`, if there is one.
    pub fn purchase(&self, id: u32) -> (found: Option<&Purchase>)
        ensures
            match found {
                Some(purchase) => self@.purchases.contains_key(id as nat) && purchase@
                    == self@.purchases[id as nat],
                None => !self@.purchases.contains_key(id as nat),
            },
    {
        self.purchases.get(&id)
    }

    /// The user `id`, if there is one.
    pub fn user(&self, id: u32) -> (found: Option<&User>)
        ensures
            match found {
                Some(user) => self@.users.contains_key(id as nat) && user@ == self@.users[id as nat],
                None => !self@.users.contains_key(id as nat),
            },
    {
        self.users.get(&id)
    }

    /// The identifier that the next product receives.
    pub fn next_product_id(&self) -> (id: u32)
        ensures
            id == self@.next_product_id,
    {
        self.next_product_id
    }

    /// The identifier that the next sale record receives.
    pub fn next_sale_id(&self) -> (id: u32)
        ensures
            id == self@.next_sale_id,
    {
        self.next_sale_id
    }

    /// The identifier that the next purchase record receives.
    pub fn next_purchase_id(&self) -> (id: u32)
        ensures
            id == self@.next_purchase_id,
    {
        self.next_purchase_id
    }

    /// The identifier that the next user receives.
    pub fn next_user_id(&self) -> (id: u32)
        ensures
            id == self@.next_user_id,
    {
        self.next_user_id
    }

    /// Why a sale of `quantity` items of the product would be refused, or
    /// `None` where it would be accepted. The product as it stands decides:
    /// it must exist, and hold at least `quantity` items.
    pub fn sale_refusal(&self, product_id: u32, quantity: u32) -> (refusal: Option<LedgerError>)
        requires
            self.wf(),
        ensures
            match refusal {
                Some(error) => self@.sale_outcome(product_id as nat, quantity as nat) == Err::<
                    nat,
                    _,
                >(error@),
                None => self@.sale_outcome(product_id as nat, quantity as nat) is Ok,
            },
    {
        match self.products.get(&product_id) {
            None => Some(LedgerError::ProductNotFound),
            Some(product) => {
                if product.quantity_on_hand < quantity {
                    Some(LedgerError::InsufficientStock { available: product.quantity_on_hand })
                } else {
                    None
                }
            },
        }
    }

    /// Whether this sale can be recorded without running out of identifiers.
    pub fn sale_fits(&self, product_id: u32, quantity: u32) -> (fits: bool)
        requires
            self.wf(),
        ensures
            fits == self@.sale_fits(product_id as nat, quantity as nat),
    {
        self.next_sale_id < u32::MAX || self.sale_refusal(product_id, quantity).is_some()
    }

    /// Whether this purchase can be recorded without running out of
    /// identifiers, and with a stock level that can still be stored.
    pub fn purchase_fits(&self, product_id: u32, quantity: u32) -> (fits: bool)
        ensures
            fits == self@.purchase_fits(product_id as nat, quantity as nat),
    {
        match self.products.get(&product_id) {
            None => true,
            Some(product) => {
                quantity <= u32::MAX - product.quantity_on_hand && self.next_purchase_id
                    < u32::MAX
            },
        }
    }

    /// Records a sale under a given timestamp.
    ///
    /// The sale is refused where the product does not exist, and where it
    /// holds fewer than `quantity` items; the error then says how many it
    /// holds, and nothing changes. Otherwise the stock goes down by
    /// `quantity`, and a record is added under the next sale identifier,
    /// which is returned: the unit price is the product's current price, the
    /// revenue is that price times `quantity`, and the profit is the price
    /// less the product's current unit cost, times `quantity`.
    pub fn record_sale_at(
        &mut self,
        product_id: u32,
        quantity: u32,
        user_id: u32,
        timestamp: String,
    ) -> (outcome: Result<u32, LedgerError>)
        requires
            old(self).wf(),
            old(self)@.sale_fits(product_id as nat, quantity as nat),
        ensures
            final(self).wf(),
            outcome_view(outcome) == old(self)@.sale_outcome(product_id as nat, quantity as nat),
            final(self)@ == old(self)@.after_sale(
                product_id as nat,
                quantity as nat,
                user_id as nat,
                timestamp@,
            ),
    {
        let (unit_price, unit_cost, stock) = match self.products.get(&product_id) {
            None => {
                return Err(LedgerError::ProductNotFound);
            },
            Some(product) => {
                (product.unit_price, product.unit_cost, product.quantity_on_hand)
            },
        };
        if stock < quantity {
            return Err(LedgerError::InsufficientStock { available: stock });
        }
        let count = quantity as i128;
        let margin = unit_price as i128 - unit_cost as i128;
        assert(i128::MIN <= unit_price * count <= i128::MAX && -PROFIT_LIMIT <= margin * count
            <= PROFIT_LIMIT) by (nonlinear_arith)
            requires
                0 <= count <= 0xFFFF_FFFF,
                -0x8000_0000_0000_0000 <= unit_price <= 0x7FFF_FFFF_FFFF_FFFF,
                -0xFFFF_FFFF_FFFF_FFFF <= margin <= 0xFFFF_FFFF_FFFF_FFFF,
                PROFIT_LIMIT == 0xFFFF_FFFF_FFFF_FFFF * 0xFFFF_FFFF,
        ;
        let id = self.next_sale_id;
        let sale = Sale {
            id,
            product_id,
            quantity,
            unit_price_at_sale: unit_price,
            total_revenue: unit_price as i128 * count,
            profit: margin * count,
            timestamp,
            user_id,
        };
        proof {
            law_sale_keeps_consistency(
                old(self)@,
                product_id as nat,
                quantity as nat,
                user_id as nat,
                timestamp@,
            );
            lemma_views_after_insert(self.sales@, id, sale);
            lemma_views_after_remove(self.products@, product_id);
        }
        self.sales.insert(id, sale);
        match self.products.remove(&product_id) {
            Some(mut product) => {
                product.quantity_on_hand = stock - quantity;
                proof {
                    lemma_views_after_insert(self.products@, product_id, product);
                }
                self.products.insert(product_id, product);
            },
            None => {},
        }
        self.next_sale_id = id + 1;
        Ok(id)
    }

    /// Records a sale at the time the system clock shows.
    ///
    /// The outcome and the change are those of a sale recorded under a given
    /// timestamp; the timestamp of the new record is the label of a clock
    /// reading. The clock is read only for a sale that is accepted.
    pub fn record_sale(&mut self, product_id: u32, quantity: u32, user_id: u32) -> (outcome:
        Result<u32, LedgerError>)
        requires
            old(self).wf(),
            old(self)@.sale_fits(product_id as nat, quantity as nat),
        ensures
            final(self).wf(),
            outcome_view(outcome) == old(self)@.sale_outcome(product_id as nat, quantity as nat),
            match outcome {
                Ok(id) => {
                    &&& final(self)@.sales.contains_key(id as nat)
                    &&& is_time_label(final(self)@.sales[id as nat].timestamp)
                    &&& final(self)@ == old(self)@.after_sale(
                        product_id as nat,
                        quantity as nat,
                        user_id as nat,
                        final(self)@.sales[id as nat].timestamp,
                    )
                },
                Err(_) => final(self)@ == old(self)@,
            },
    {
        match self.sale_refusal(product_id, quantity) {
            Some(error) => Err(error),
            None => {
                let timestamp = chrono_string();
                self.record_sale_at(product_id, quantity, user_id, timestamp)
            },
        }
    }

    /// Records a purchase under a given timestamp.
    ///
    /// The purchase is refused where the product does not exist, and nothing
    /// changes. Otherwise the stock goes up by `quantity`, the product's unit
    /// cost becomes `unit_cost`, and a record is added under the next
    /// purchase identifier, which is returned: its total cost is `unit_cost`
    /// times `quantity`.
    pub fn record_purchase_at(
        &mut self,
        product_id: u32,
        quantity: u32,
        unit_cost: i64,
        user_id: u32,
        timestamp: String,
    ) -> (outcome: Result<u32, LedgerError>)
        requires
            old(self).wf(),
            old(self)@.purchase_fits(product_id as nat, quantity as nat),
        ensures
            final(self).wf(),
            outcome_view(outcome) == old(self)@.purchase_outcome(product_id as nat),
            final(self)@ == old(self)@.after_purchase(
                product_id as nat,
                quantity as nat,
                unit_cost as int,
                user_id as nat,
                timestamp@,
            ),
    {
        if !self.products.contains_key(&product_id) {
            return Err(LedgerError::ProductNotFound);
        }
        let count = quantity as i128;
        assert(i128::MIN <= unit_cost * count <= i128::MAX) by (nonlinear_arith)
            requires
                0 <= count <= 0xFFFF_FFFF,
                -0x8000_0000_0000_0000 <= unit_cost <= 0x7FFF_FFFF_FFFF_FFFF,
        ;
        let id = self.next_purchase_id;
        let purchase = Purchase {
            id,
            product_id,
            quantity,
            unit_cost_at_purchase: unit_cost,
            total_cost: unit_cost as i128 * count,
            timestamp,
            user_id,
        };
        proof {
            law_purchase_keeps_consistency(
                old(self)@,
                product_id as nat,
                quantity as nat,
                unit_cost as int,
                user_id as nat,
                timestamp@,
            );
            lemma_views_after_insert(self.purchases@, id, purchase);
            lemma_views_after_remove(self.products@, product_id);
        }
        self.purchases.insert(id, purchase);
        match self.products.remove(&product_id) {
            Some(mut product) => {
                product.quantity_on_hand = product.quantity_on_hand + quantity;
                product.unit_cost = unit_cost;
                proof {
                    lemma_views_after_insert(self.products@, product_id, product);
                }
                self.products.insert(product_id, product);
            },
            None => {},
        }
        self.next_purchase_id = id + 1;
        Ok(id)
    }

    /// Records a purchase at the time the system clock shows.
    ///
    /// The outcome and the change are those of a purchase recorded under a
    /// given timestamp; the timestamp of the new record is the label of a
    /// clock reading. The clock is read only for a purchase that is accepted.
    pub fn record_purchase(
        &mut self,
        product_id: u32,
        quantity: u32,
        unit_cost: i64,
        user_id: u32,
    ) -> (outcome: Result<u32, LedgerError>)
        requires
            old(self).wf(),
            old(self)@.purchase_fits(product_id as nat, quantity as nat),
        ensures
            final(self).wf(),
            outcome_view(outcome) == old(self)@.purchase_outcome(product_id as nat),
            match outcome {
                Ok(id) => {
                    &&& final(self)@.purchases.contains_key(id as nat)
                    &&& is_time_label(final(self)@.purchases[id as nat].timestamp)
                    &&& final(self)@ == old(self)@.after_purchase(
                        product_id as nat,
                        quantity as nat,
                        unit_cost as int,
                        user_id as nat,
                        final(self)@.purchases[id as nat].timestamp,
                    )
                },
                Err(_) => final(self)@ == old(self)@,
            },
    {
        if !self.products.contains_key(&product_id) {
            return Err(LedgerError::ProductNotFound);
        }
        let timestamp = chrono_string();
        self.record_purchase_at(product_id, quantity, unit_cost, user_id, timestamp)
    }
}

} // verus!
