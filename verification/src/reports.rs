//! What the reports show: the products in order, the name that stands for a
//! product, and the totals over stock, sales and purchases.

use crate::ledger::Ledger;
use crate::model::{sum_up_to, LedgerView};
use crate::records::{PROFIT_LIMIT, STOCK_VALUE_LIMIT};
use vstd::prelude::*;

verus! {

/// Whether `ids` holds exactly the identifiers of the products of `ledger`
/// that lie below `bound`, in rising order.
pub open spec fn lists_products_below(ids: Seq<u32>, ledger: LedgerView, bound: nat) -> bool {
    &&& forall|i: int, j: int| 0 <= i < j < ids.len() ==> ids[i] < ids[j]
    &&& forall|i: int| 0 <= i < ids.len() ==> ids[i] < bound && ledger.products.contains_key(
        #[trigger] ids[i] as nat,
    )
    &&& forall|id: u32| id < bound && #[trigger] ledger.products.contains_key(id as nat)
        ==> ids.contains(id)
}

impl Ledger {
    /// The identifiers of all products, in rising order.
    pub fn product_ids(&self) -> (ids: Vec<u32>)
        requires
            self.wf(),
        ensures
            lists_products_below(ids@, self@, self@.next_product_id),
    {
        let mut ids: Vec<u32> = Vec::new();
        let bound = self.next_product_id();
        let mut id: u32 = 1;
        proof {
            self.lemma_wf();
        }
        while id < bound
            invariant
                1 <= id <= bound,
                self@.consistent(),
                lists_products_below(ids@, self@, id as nat),
            decreases bound - id,
        {
            let ghost before = ids@;
            if self.product(id).is_some() {
                ids.push(id);
                assert(ids@[before.len() as int] == id);
                assert forall|other: u32|
                    other < id + 1 && #[trigger] self@.products.contains_key(
                        other as nat,
                    ) implies ids@.contains(other) by {
                    if other < id {
                        let i = choose|i: int| 0 <= i < before.len() && before[i] == other;
                        assert(ids@[i] == other);
                    }
                }
            }
            id = id + 1;
        }
        ids
    }

    /// The name under which reports show a product: its own, or a fixed label
    /// where the product is gone.
    pub fn product_label(&self, product_id: u32) -> (label: &str)
        ensures
            label@ == self@.product_label(product_id as nat),
    {
        match self.product(product_id) {
            Some(product) => product.name.as_str(),
            None => "Bilinmeyen Ürün",
        }
    }

    /// What the whole stock is worth at the current unit costs.
    pub fn inventory_value(&self) -> (total: i128)
        requires
            self.wf(),
        ensures
            total == self@.inventory_value(),
    {
        let bound = self.next_product_id();
        let mut total: i128 = 0;
        let mut id: u32 = 1;
        proof {
            self.lemma_wf();
        }
        while id < bound
            invariant
                1 <= id <= bound,
                bound == self@.next_product_id,
                total == sum_up_to(self@.stock_values(), (id - 1) as nat),
                -(STOCK_VALUE_LIMIT * (id - 1)) <= total <= STOCK_VALUE_LIMIT * (id - 1),
            decreases bound - id,
        {
            match self.product(id) {
                Some(product) => {
                    total = total + product.stock_value();
                },
                None => {},
            }
            id = id + 1;
        }
        total
    }

    /// The revenue of all sales together.
    pub fn total_revenue(&self) -> (total: i128)
        requires
            self.wf(),
        ensures
            total == self@.total_revenue(),
    {
        let bound = self.next_sale_id();
        let mut total: i128 = 0;
        let mut id: u32 = 1;
        proof {
            self.lemma_wf();
        }
        while id < bound
            invariant
                1 <= id <= bound,
                bound == self@.next_sale_id,
                self@.consistent(),
                total == sum_up_to(self@.revenues(), (id - 1) as nat),
                -(STOCK_VALUE_LIMIT * (id - 1)) <= total <= STOCK_VALUE_LIMIT * (id - 1),
            decreases bound - id,
        {
            match self.sale(id) {
                Some(sale) => {
                    let price = sale.unit_price_at_sale;
                    let quantity = sale.quantity;
                    assert(-STOCK_VALUE_LIMIT <= price * quantity <= STOCK_VALUE_LIMIT)
                        by (nonlinear_arith)
                        requires
                            0 <= quantity <= 0xFFFF_FFFF,
                            -0x8000_0000_0000_0000 <= price <= 0x7FFF_FFFF_FFFF_FFFF,
                            STOCK_VALUE_LIMIT == 0xFFFF_FFFF * 0x8000_0000_0000_0000,
                    ;
                    total = total + sale.total_revenue;
                },
                None => {},
            }
            id = id + 1;
        }
        total
    }

    /// The cost of all purchases together.
    pub fn total_purchase_cost(&self) -> (total: i128)
        requires
            self.wf(),
        ensures
            total == self@.total_purchase_cost(),
    {
        let bound = self.next_purchase_id();
        let mut total: i128 = 0;
        let mut id: u32 = 1;
        proof {
            self.lemma_wf();
        }
        while id < bound
            invariant
                1 <= id <= bound,
                bound == self@.next_purchase_id,
                self@.consistent(),
                total == sum_up_to(self@.purchase_costs(), (id - 1) as nat),
                -(STOCK_VALUE_LIMIT * (id - 1)) <= total <= STOCK_VALUE_LIMIT * (id - 1),
            decreases bound - id,
        {
            match self.purchase(id) {
                Some(purchase) => {
                    let cost = purchase.unit_cost_at_purchase;
                    let quantity = purchase.quantity;
                    assert(-STOCK_VALUE_LIMIT <= cost * quantity <= STOCK_VALUE_LIMIT)
                        by (nonlinear_arith)
                        requires
                            0 <= quantity <= 0xFFFF_FFFF,
                            -0x8000_0000_0000_0000 <= cost <= 0x7FFF_FFFF_FFFF_FFFF,
                            STOCK_VALUE_LIMIT == 0xFFFF_FFFF * 0x8000_0000_0000_0000,
                    ;
                    total = total + purchase.total_cost;
                },
                None => {},
            }
            id = id + 1;
        }
        total
    }

    /// The profit of all sales together, or `None` where that sum is outside
    /// the range of its type.
    pub fn total_profit(&self) -> (total: Option<i128>)
        requires
            self.wf(),
        ensures
            total == if i128::MIN <= self@.total_profit() <= i128::MAX {
                Some(self@.total_profit() as i128)
            } else {
                None
            },
    {
        let bound = self.next_sale_id();
        let mut gains: u128 = 0;
        let mut losses: u128 = 0;
        let mut id: u32 = 1;
        proof {
            self.lemma_wf();
        }
        while id < bound
            invariant
                1 <= id <= bound,
                bound == self@.next_sale_id,
                self.wf(),
                gains - losses == sum_up_to(self@.profits(), (id - 1) as nat),
                gains <= PROFIT_LIMIT * (id - 1),
                losses <= PROFIT_LIMIT * (id - 1),
            decreases bound - id,
        {
            proof {
                self.lemma_wf();
            }
            match self.sale(id) {
                Some(sale) => {
                    if sale.profit >= 0 {
                        gains = gains + sale.profit as u128;
                    } else {
                        losses = losses + (-sale.profit) as u128;
                    }
                },
                None => {},
            }
            id = id + 1;
        }
        if gains >= losses {
            let sum = gains - losses;
            if sum <= i128::MAX as u128 {
                Some(sum as i128)
            } else {
                None
            }
        } else {
            let deficit = losses - gains;
            if deficit <= i128::MAX as u128 {
                Some(-(deficit as i128))
            } else if deficit == i128::MAX as u128 + 1 {
                Some(i128::MIN)
            } else {
                None
            }
        }
    }
}

} // verus!
