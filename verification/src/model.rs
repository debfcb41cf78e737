//! The ledger as a mathematical value. Every contract of the executable
//! ledger is stated over these types: identifiers are natural numbers,
//! stock levels and amounts of money are integers, texts are sequences of
//! characters. Amounts of money are counted in hundredths of the currency
//! unit.

use vstd::prelude::*;

verus! {

/// The two privilege levels of a user.
#[derive(Clone, Copy, Debug, PartialEq, Eq, Structural)]
pub enum Role {
    Admin,
    Employee,
}

/// A user as the contracts see one.
pub struct UserView {
    pub username: Seq<char>,
    pub password: Seq<char>,
    pub role: Role,
}

/// A product as the contracts see one.
pub struct ProductView {
    pub id: nat,
    pub name: Seq<char>,
    pub description: Seq<char>,
    pub unit_price: int,
    pub quantity_on_hand: int,
    pub unit_cost: int,
}

/// A sale record as the contracts see one.
pub struct SaleView {
    pub id: nat,
    pub product_id: nat,
    pub quantity: nat,
    pub unit_price_at_sale: int,
    pub total_revenue: int,
    pub profit: int,
    pub timestamp: Seq<char>,
    pub user_id: nat,
}

/// A purchase record as the contracts see one.
pub struct PurchaseView {
    pub id: nat,
    pub product_id: nat,
    pub quantity: nat,
    pub unit_cost_at_purchase: int,
    pub total_cost: int,
    pub timestamp: Seq<char>,
    pub user_id: nat,
}

/// Why the ledger refuses a sale or a purchase.
pub enum Refusal {
    /// The product holds fewer items than were asked for.
    InsufficientStock { available: int },
    /// No product has the identifier.
    ProductNotFound,
}

/// The whole ledger: four collections keyed by identifier, and for each the
/// identifier that its next entry receives.
#[verifier::ext_equal]
pub struct LedgerView {
    pub products: Map<nat, ProductView>,
    pub sales: Map<nat, SaleView>,
    pub purchases: Map<nat, PurchaseView>,
    pub users: Map<nat, UserView>,
    pub next_product_id: nat,
    pub next_sale_id: nat,
    pub next_purchase_id: nat,
    pub next_user_id: nat,
}

/// The sum of `amounts` over the identifiers from 1 to `last`.
pub open spec fn sum_up_to(amounts: spec_fn(nat) -> int, last: nat) -> int
    decreases last,
{
    if last == 0 {
        0
    } else {
        sum_up_to(amounts, (last - 1) as nat) + amounts(last)
    }
}

impl ProductView {
    /// What the stock of the product is worth at its current unit cost.
    pub open spec fn stock_value(self) -> int {
        self.quantity_on_hand * self.unit_cost
    }
}

impl LedgerView {
    /// A ledger without any entry, whose identifiers all start at 1.
    pub open spec fn empty() -> LedgerView {
        LedgerView {
            products: Map::empty(),
            sales: Map::empty(),
            purchases: Map::empty(),
            users: Map::empty(),
            next_product_id: 1,
            next_sale_id: 1,
            next_purchase_id: 1,
            next_user_id: 1,
        }
    }

    /// The ledger that a run starts with: empty but for one administrator,
    /// named `admin`, with the password `admin`.
    pub open spec fn initial() -> LedgerView {
        LedgerView::empty().with_user("admin"@, "admin"@, Role::Admin)
    }

    /// What holds of every ledger that the operations can reach.
    ///
    /// Identifiers start at 1 and lie below the next one to be given out; an
    /// entry is stored under its own identifier; no stock level is negative;
    /// sale and purchase records and users are never removed, so their
    /// identifiers have no gaps; the totals of a record are its unit amount
    /// times its quantity; no two users share a name.
    pub open spec fn consistent(self) -> bool {
        &&& self.next_product_id >= 1
        &&& self.next_sale_id >= 1
        &&& self.next_purchase_id >= 1
        &&& self.next_user_id >= 1
        &&& forall|id: nat| #[trigger]
            self.products.contains_key(id) ==> {
                &&& 1 <= id < self.next_product_id
                &&& self.products[id].id == id
                &&& self.products[id].quantity_on_hand >= 0
            }
        &&& forall|id: nat| #[trigger]
            self.sales.contains_key(id) <==> 1 <= id < self.next_sale_id
        &&& forall|id: nat| #[trigger]
            self.sales.contains_key(id) ==> {
                &&& self.sales[id].id == id
                &&& self.sales[id].total_revenue == self.sales[id].unit_price_at_sale
                    * self.sales[id].quantity
            }
        &&& forall|id: nat| #[trigger]
            self.purchases.contains_key(id) <==> 1 <= id < self.next_purchase_id
        &&& forall|id: nat| #[trigger]
            self.purchases.contains_key(id) ==> {
                &&& self.purchases[id].id == id
                &&& self.purchases[id].total_cost == self.purchases[id].unit_cost_at_purchase
                    * self.purchases[id].quantity
            }
        &&& forall|id: nat| #[trigger]
            self.users.contains_key(id) <==> 1 <= id < self.next_user_id
        &&& forall|a: nat, b: nat|
            #![trigger self.users.contains_key(a), self.users.contains_key(b)]
            self.users.contains_key(a) && self.users.contains_key(b) && self.users[a].username
                == self.users[b].username ==> a == b
    }

    /// Whether some user bears the name.
    pub open spec fn username_taken(self, username: Seq<char>) -> bool {
        exists|id: nat| #[trigger]
            self.users.contains_key(id) && self.users[id].username == username
    }

    /// The ledger with one more user, stored under the next user identifier.
    pub open spec fn with_user(self, username: Seq<char>, password: Seq<char>, role: Role)
        -> LedgerView {
        LedgerView {
            users: self.users.insert(self.next_user_id, UserView { username, password, role }),
            next_user_id: self.next_user_id + 1,
            ..self
        }
    }

    /// The identifier that a new user of that name receives, or `None` where
    /// the name is taken.
    pub open spec fn user_creation_outcome(self, username: Seq<char>) -> Option<nat> {
        if self.username_taken(username) {
            None
        } else {
            Some(self.next_user_id)
        }
    }

    /// Whether the identifier of a new user of that name stays within the 32
    /// bits in which identifiers are stored. Of a name that is taken nothing
    /// is asked.
    pub open spec fn user_fits(self, username: Seq<char>) -> bool {
        !self.username_taken(username) ==> self.next_user_id < u32::MAX
    }

    /// The ledger after an attempt to create a user: unchanged where the name
    /// is taken.
    pub open spec fn after_user_creation(
        self,
        username: Seq<char>,
        password: Seq<char>,
        role: Role,
    ) -> LedgerView {
        if self.username_taken(username) {
            self
        } else {
            self.with_user(username, password, role)
        }
    }

    /// Whether the user `id` exists and has exactly this name and password.
    pub open spec fn credentials_match(self, id: nat, username: Seq<char>, password: Seq<char>)
        -> bool {
        &&& self.users.contains_key(id)
        &&& self.users[id].username == username
        &&& self.users[id].password == password
    }

    /// Whether `id` is the first user, by identifier, with this name and
    /// password.
    pub open spec fn first_match(self, id: nat, username: Seq<char>, password: Seq<char>)
        -> bool {
        &&& self.credentials_match(id, username, password)
        &&& forall|other: nat|
            other < id ==> !#[trigger] self.credentials_match(other, username, password)
    }

    /// Who logs in with this name and password: the first user that has
    /// both, or nobody.
    pub open spec fn login(self, username: Seq<char>, password: Seq<char>) -> Option<nat> {
        if exists|id: nat| self.first_match(id, username, password) {
            Some(choose|id: nat| self.first_match(id, username, password))
        } else {
            None
        }
    }

    /// Whether `user_id` is a user with the administrator's role.
    pub open spec fn is_admin(self, user_id: nat) -> bool {
        self.users.contains_key(user_id) && self.users[user_id].role == Role::Admin
    }

    /// The ledger with one more product, stored under the next product
    /// identifier.
    pub open spec fn with_product(
        self,
        name: Seq<char>,
        description: Seq<char>,
        unit_price: int,
        quantity: nat,
        unit_cost: int,
    ) -> LedgerView {
        LedgerView {
            products: self.products.insert(
                self.next_product_id,
                ProductView {
                    id: self.next_product_id,
                    name,
                    description,
                    unit_price,
                    quantity_on_hand: quantity as int,
                    unit_cost,
                },
            ),
            next_product_id: self.next_product_id + 1,
            ..self
        }
    }

    /// Whether the identifier of a new product stays within the 32 bits in
    /// which identifiers are stored.
    pub open spec fn product_fits(self) -> bool {
        self.next_product_id < u32::MAX
    }

    /// The ledger after every field of the product `id` but its identifier
    /// was overwritten: unchanged where there is no such product.
    pub open spec fn with_product_replaced(
        self,
        id: nat,
        name: Seq<char>,
        description: Seq<char>,
        unit_price: int,
        quantity: nat,
        unit_cost: int,
    ) -> LedgerView {
        if self.products.contains_key(id) {
            LedgerView {
                products: self.products.insert(
                    id,
                    ProductView {
                        id,
                        name,
                        description,
                        unit_price,
                        quantity_on_hand: quantity as int,
                        unit_cost,
                    },
                ),
                ..self
            }
        } else {
            self
        }
    }

    /// The ledger without the product `id`. Records that refer to it stay.
    pub open spec fn without_product(self, id: nat) -> LedgerView {
        LedgerView { products: self.products.remove(id), ..self }
    }

    /// For each identifier, what the stock of that product is worth: nothing
    /// where there is no such product.
    pub open spec fn stock_values(self) -> spec_fn(nat) -> int {
        |id: nat|
            if self.products.contains_key(id) {
                self.products[id].stock_value()
            } else {
                0
            }
    }

    /// For each identifier, the revenue of that sale.
    pub open spec fn revenues(self) -> spec_fn(nat) -> int {
        |id: nat|
            if self.sales.contains_key(id) {
                self.sales[id].total_revenue
            } else {
                0
            }
    }

    /// For each identifier, the profit of that sale.
    pub open spec fn profits(self) -> spec_fn(nat) -> int {
        |id: nat|
            if self.sales.contains_key(id) {
                self.sales[id].profit
            } else {
                0
            }
    }

    /// For each identifier, the total cost of that purchase.
    pub open spec fn purchase_costs(self) -> spec_fn(nat) -> int {
        |id: nat|
            if self.purchases.contains_key(id) {
                self.purchases[id].total_cost
            } else {
                0
            }
    }

    /// What the whole stock is worth: the sum, over the products, of the
    /// stock level times the unit cost.
    pub open spec fn inventory_value(self) -> int {
        sum_up_to(self.stock_values(), (self.next_product_id - 1) as nat)
    }

    /// The revenue of all sales together.
    pub open spec fn total_revenue(self) -> int {
        sum_up_to(self.revenues(), (self.next_sale_id - 1) as nat)
    }

    /// The profit of all sales together.
    pub open spec fn total_profit(self) -> int {
        sum_up_to(self.profits(), (self.next_sale_id - 1) as nat)
    }

    /// The cost of all purchases together.
    pub open spec fn total_purchase_cost(self) -> int {
        sum_up_to(self.purchase_costs(), (self.next_purchase_id - 1) as nat)
    }

    /// The name under which reports show a product: its own, or a fixed label
    /// where the product is gone.
    pub open spec fn product_label(self, product_id: nat) -> Seq<char> {
        if self.products.contains_key(product_id) {
            self.products[product_id].name
        } else {
            "Bilinmeyen Ürün"@
        }
    }

    /// What an attempt to sell `quantity` items of a product gives: the
    /// identifier of the new sale record, or the reason for the refusal.
    pub open spec fn sale_outcome(self, product_id: nat, quantity: nat) -> Result<nat, Refusal> {
        if !self.products.contains_key(product_id) {
            Err(Refusal::ProductNotFound)
        } else if quantity > self.products[product_id].quantity_on_hand {
            Err(
                Refusal::InsufficientStock {
                    available: self.products[product_id].quantity_on_hand,
                },
            )
        } else {
            Ok(self.next_sale_id)
        }
    }

    /// Whether the identifier of the record of this sale stays within the 32
    /// bits in which identifiers are stored. Of a sale that is refused
    /// nothing is asked.
    pub open spec fn sale_fits(self, product_id: nat, quantity: nat) -> bool {
        self.sale_outcome(product_id, quantity) is Ok ==> self.next_sale_id < u32::MAX
    }

    /// The record of a sale of `quantity` items of `product_id`, at the
    /// product's current price and against its current unit cost.
    pub open spec fn sale_record(
        self,
        product_id: nat,
        quantity: nat,
        user_id: nat,
        timestamp: Seq<char>,
    ) -> SaleView {
        let product = self.products[product_id];
        SaleView {
            id: self.next_sale_id,
            product_id,
            quantity,
            unit_price_at_sale: product.unit_price,
            total_revenue: product.unit_price * quantity,
            profit: (product.unit_price - product.unit_cost) * quantity,
            timestamp,
            user_id,
        }
    }

    /// The ledger after an attempt to sell: where the sale is accepted, the
    /// stock went down by `quantity` and the record was added; where it is
    /// refused, nothing changed.
    pub open spec fn after_sale(
        self,
        product_id: nat,
        quantity: nat,
        user_id: nat,
        timestamp: Seq<char>,
    ) -> LedgerView {
        if self.sale_outcome(product_id, quantity) is Ok {
            let product = self.products[product_id];
            LedgerView {
                products: self.products.insert(
                    product_id,
                    ProductView {
                        quantity_on_hand: product.quantity_on_hand - quantity,
                        ..product
                    },
                ),
                sales: self.sales.insert(
                    self.next_sale_id,
                    self.sale_record(product_id, quantity, user_id, timestamp),
                ),
                next_sale_id: self.next_sale_id + 1,
                ..self
            }
        } else {
            self
        }
    }

    /// What an attempt to purchase items of a product gives: the identifier
    /// of the new purchase record, or the reason for the refusal.
    pub open spec fn purchase_outcome(self, product_id: nat) -> Result<nat, Refusal> {
        if self.products.contains_key(product_id) {
            Ok(self.next_purchase_id)
        } else {
            Err(Refusal::ProductNotFound)
        }
    }

    /// Whether the numbers of a purchase of `quantity` items stay within the
    /// 32 bits in which stock levels and identifiers are stored. Of a product
    /// that does not exist nothing is asked.
    pub open spec fn purchase_fits(self, product_id: nat, quantity: nat) -> bool {
        self.products.contains_key(product_id) ==> {
            &&& self.products[product_id].quantity_on_hand + quantity <= u32::MAX
            &&& self.next_purchase_id < u32::MAX
        }
    }

    /// The record of a purchase of `quantity` items at `unit_cost` each.
    pub open spec fn purchase_record(
        self,
        product_id: nat,
        quantity: nat,
        unit_cost: int,
        user_id: nat,
        timestamp: Seq<char>,
    ) -> PurchaseView {
        PurchaseView {
            id: self.next_purchase_id,
            product_id,
            quantity,
            unit_cost_at_purchase: unit_cost,
            total_cost: unit_cost * quantity,
            timestamp,
            user_id,
        }
    }

    /// The ledger after an attempt to purchase: where the product exists, its
    /// stock went up by `quantity`, its unit cost became that of this
    /// purchase, and the record was added; otherwise nothing changed.
    pub open spec fn after_purchase(
        self,
        product_id: nat,
        quantity: nat,
        unit_cost: int,
        user_id: nat,
        timestamp: Seq<char>,
    ) -> LedgerView {
        if self.products.contains_key(product_id) {
            let product = self.products[product_id];
            LedgerView {
                products: self.products.insert(
                    product_id,
                    ProductView {
                        quantity_on_hand: product.quantity_on_hand + quantity,
                        unit_cost,
                        ..product
                    },
                ),
                purchases: self.purchases.insert(
                    self.next_purchase_id,
                    self.purchase_record(product_id, quantity, unit_cost, user_id, timestamp),
                ),
                next_purchase_id: self.next_purchase_id + 1,
                ..self
            }
        } else {
            self
        }
    }
}

} // verus!
