//! The entries that the ledger stores, and the errors that it reports.
//! Amounts of money are counted in hundredths of the currency unit.

use crate::model::{ProductView, PurchaseView, Refusal, Role, SaleView, UserView};
use crate::text::{decimal_digits, decimal_text};
use vstd::prelude::*;

verus! {

/// The greatest size that a stock level, or a quantity, times a unit amount
/// can have.
pub const STOCK_VALUE_LIMIT: i128 = 0x7FFF_FFFF_8000_0000_0000_0000;

/// The greatest size that the profit of one sale can have: the greatest
/// difference of two unit amounts times the greatest quantity.
pub const PROFIT_LIMIT: i128 = 0xFFFF_FFFE_FFFF_FFFF_0000_0001;

/// A user of the ledger. Passwords are kept as they were given.
#[derive(Debug)]
pub struct User {
    pub username: String,
    pub password: String,
    pub role: Role,
}

/// A product and its stock.
#[derive(Debug)]
pub struct Product {
    pub id: u32,
    pub name: String,
    pub description: String,
    pub unit_price: i64,
    pub quantity_on_hand: u32,
    pub unit_cost: i64,
}

/// The record of one sale.
#[derive(Debug)]
pub struct Sale {
    pub id: u32,
    pub product_id: u32,
    pub quantity: u32,
    pub unit_price_at_sale: i64,
    pub total_revenue: i128,
    pub profit: i128,
    pub timestamp: String,
    pub user_id: u32,
}

/// The record of one purchase.
#[derive(Debug)]
pub struct Purchase {
    pub id: u32,
    pub product_id: u32,
    pub quantity: u32,
    pub unit_cost_at_purchase: i64,
    pub total_cost: i128,
    pub timestamp: String,
    pub user_id: u32,
}

/// Why a sale or a purchase was refused.
#[derive(Clone, Copy, Debug, PartialEq, Eq, Structural)]
pub enum LedgerError {
    /// The product holds only `available` items, fewer than were asked for.
    InsufficientStock { available: u32 },
    /// No product has the identifier.
    ProductNotFound,
}

impl View for User {
    type V = UserView;

    open spec fn view(&self) -> UserView {
        UserView { username: self.username@, password: self.password@, role: self.role }
    }
}

impl View for Product {
    type V = ProductView;

    open spec fn view(&self) -> ProductView {
        ProductView {
            id: self.id as nat,
            name: self.name@,
            description: self.description@,
            unit_price: self.unit_price as int,
            quantity_on_hand: self.quantity_on_hand as int,
            unit_cost: self.unit_cost as int,
        }
    }
}

impl View for Sale {
    type V = SaleView;

    open spec fn view(&self) -> SaleView {
        SaleView {
            id: self.id as nat,
            product_id: self.product_id as nat,
            quantity: self.quantity as nat,
            unit_price_at_sale: self.unit_price_at_sale as int,
            total_revenue: self.total_revenue as int,
            profit: self.profit as int,
            timestamp: self.timestamp@,
            user_id: self.user_id as nat,
        }
    }
}

impl View for Purchase {
    type V = PurchaseView;

    open spec fn view(&self) -> PurchaseView {
        PurchaseView {
            id: self.id as nat,
            product_id: self.product_id as nat,
            quantity: self.quantity as nat,
            unit_cost_at_purchase: self.unit_cost_at_purchase as int,
            total_cost: self.total_cost as int,
            timestamp: self.timestamp@,
            user_id: self.user_id as nat,
        }
    }
}

impl View for LedgerError {
    type V = Refusal;

    open spec fn view(&self) -> Refusal {
        match self {
            LedgerError::InsufficientStock { available } => Refusal::InsufficientStock {
                available: *available as int,
            },
            LedgerError::ProductNotFound => Refusal::ProductNotFound,
        }
    }
}

/// What the result of a sale or a purchase says to the contracts.
pub open spec fn outcome_view(outcome: Result<u32, LedgerError>) -> Result<nat, Refusal> {
    match outcome {
        Ok(id) => Ok(id as nat),
        Err(error) => Err(error@),
    }
}

/// The message that goes with a refusal.
pub open spec fn refusal_text(refusal: Refusal) -> Seq<char> {
    match refusal {
        Refusal::InsufficientStock { available } => "Yetersiz stok! Mevcut: "@ + decimal_digits(
            available as nat,
        ),
        Refusal::ProductNotFound => "Ürün bulunamadı!"@,
    }
}

impl Product {
    /// What the stock of the product is worth at its current unit cost.
    pub fn stock_value(&self) -> (value: i128)
        ensures
            value == self@.stock_value(),
            -STOCK_VALUE_LIMIT <= value <= STOCK_VALUE_LIMIT,
    {
        let quantity = self.quantity_on_hand as i128;
        let unit_cost = self.unit_cost as i128;
        assert(-STOCK_VALUE_LIMIT <= quantity * unit_cost <= STOCK_VALUE_LIMIT)
            by (nonlinear_arith)
            requires
                0 <= quantity <= 0xFFFF_FFFF,
                -0x8000_0000_0000_0000 <= unit_cost <= 0x7FFF_FFFF_FFFF_FFFF,
                STOCK_VALUE_LIMIT == 0xFFFF_FFFF * 0x8000_0000_0000_0000,
        ;
        quantity * unit_cost
    }
}

impl LedgerError {
    /// The message for the person at the console.
    pub fn message(&self) -> (text: String)
        ensures
            text@ == refusal_text(self@),
    {
        match self {
            LedgerError::InsufficientStock { available } => {
                let mut text = String::from_str("Yetersiz stok! Mevcut: ");
                text.append(decimal_text(*available as u128).as_str());
                text
            },
            LedgerError::ProductNotFound => String::from_str("Ürün bulunamadı!"),
        }
    }
}

} // verus!
