//! An in-memory inventory and sales ledger: products, stock, purchases,
//! sales and users, with every business rule proved against a mathematical
//! model of the ledger.

pub mod clock;
pub mod laws;
pub mod ledger;
pub mod menu;
pub mod model;
pub mod records;
pub mod reports;
pub mod text;
