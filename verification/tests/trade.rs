use store::ledger::Ledger;
use store::records::LedgerError;

fn stocked(unit_price: i64, quantity: u32, unit_cost: i64) -> (Ledger, u32) {
    let mut ledger = Ledger::new();
    let id = ledger.add_product("Kalem".to_string(), "".to_string(), unit_price, quantity, unit_cost);
    (ledger, id)
}

#[test]
fn purchase_raises_stock_and_overwrites_unit_cost() {
    let (mut ledger, product) = stocked(1500, 3, 800);
    let id = ledger.record_purchase(product, 5, 1000, 1);
    assert_eq!(id, Ok(1));
    let after = ledger.product(product).expect("the product");
    assert_eq!(after.quantity_on_hand, 8);
    assert_eq!(after.unit_cost, 1000);
    assert_eq!(after.unit_price, 1500);
    let purchase = ledger.purchase(1).expect("the record");
    assert_eq!(purchase.id, 1);
    assert_eq!(purchase.product_id, product);
    assert_eq!(purchase.quantity, 5);
    assert_eq!(purchase.unit_cost_at_purchase, 1000);
    assert_eq!(purchase.total_cost, 5000);
    assert_eq!(purchase.user_id, 1);
    assert_eq!(ledger.next_purchase_id(), 2);
}

#[test]
fn sale_lowers_stock_and_records_revenue_and_profit() {
    let (mut ledger, product) = stocked(1500, 8, 1000);
    let id = ledger.record_sale(product, 2, 1);
    assert_eq!(id, Ok(1));
    let sale = ledger.sale(1).expect("the record");
    assert_eq!(sale.id, 1);
    assert_eq!(sale.product_id, product);
    assert_eq!(sale.quantity, 2);
    assert_eq!(sale.unit_price_at_sale, 1500);
    assert_eq!(sale.total_revenue, 3000);
    assert_eq!(sale.profit, 1000);
    assert_eq!(sale.user_id, 1);
    assert_eq!(ledger.product(product).expect("the product").quantity_on_hand, 6);
    assert_eq!(ledger.next_sale_id(), 2);
}

#[test]
fn purchase_then_sale_uses_the_cost_of_the_last_purchase() {
    let (mut ledger, product) = stocked(1500, 3, 800);
    assert_eq!(ledger.record_purchase(product, 5, 1000, 1), Ok(1));
    assert_eq!(ledger.record_sale(product, 2, 1), Ok(1));
    let sale = ledger.sale(1).expect("the record");
    assert_eq!(sale.total_revenue, 3000);
    assert_eq!(sale.profit, 1000);
    assert_eq!(ledger.product(product).expect("the product").quantity_on_hand, 6);
}

#[test]
fn sale_of_more_than_the_stock_is_refused_and_changes_nothing() {
    let (mut ledger, product) = stocked(1500, 8, 1000);
    let outcome = ledger.record_sale(product, 9, 1);
    assert_eq!(outcome, Err(LedgerError::InsufficientStock { available: 8 }));
    assert_eq!(ledger.next_sale_id(), 1);
    assert!(ledger.sale(1).is_none());
    let after = ledger.product(product).expect("the product");
    assert_eq!(after.quantity_on_hand, 8);
    assert_eq!(after.unit_price, 1500);
    assert_eq!(after.unit_cost, 1000);
    assert_eq!(ledger.record_sale(product, 8, 1), Ok(1));
}

#[test]
fn sale_from_an_empty_stock_reports_zero_available() {
    let (mut ledger, product) = stocked(1500, 0, 1000);
    assert_eq!(
        ledger.record_sale(product, 1, 1),
        Err(LedgerError::InsufficientStock { available: 0 })
    );
    assert_eq!(
        ledger.record_sale(product, u32::MAX, 1),
        Err(LedgerError::InsufficientStock { available: 0 })
    );
    assert_eq!(ledger.next_sale_id(), 1);
}

#[test]
fn sale_of_the_whole_stock_leaves_none() {
    let (mut ledger, product) = stocked(1500, 8, 1000);
    assert_eq!(ledger.record_sale(product, 8, 1), Ok(1));
    assert_eq!(ledger.product(product).expect("the product").quantity_on_hand, 0);
    assert_eq!(
        ledger.record_sale(product, 1, 1),
        Err(LedgerError::InsufficientStock { available: 0 })
    );
}

#[test]
fn sale_of_nothing_is_recorded() {
    let (mut ledger, product) = stocked(1500, 0, 1000);
    assert_eq!(ledger.record_sale(product, 0, 1), Ok(1));
    let sale = ledger.sale(1).expect("the record");
    assert_eq!(sale.quantity, 0);
    assert_eq!(sale.total_revenue, 0);
    assert_eq!(sale.profit, 0);
    assert_eq!(ledger.product(product).expect("the product").quantity_on_hand, 0);
}

#[test]
fn sale_of_an_unknown_product_is_refused() {
    let (mut ledger, product) = stocked(1500, 8, 1000);
    assert_eq!(ledger.record_sale(product + 1, 1, 1), Err(LedgerError::ProductNotFound));
    assert_eq!(ledger.record_sale(0, 0, 1), Err(LedgerError::ProductNotFound));
    assert_eq!(ledger.next_sale_id(), 1);
    assert_eq!(ledger.product(product).expect("the product").quantity_on_hand, 8);
}

#[test]
fn purchase_for_an_unknown_product_is_refused() {
    let (mut ledger, product) = stocked(1500, 8, 1000);
    assert_eq!(ledger.record_purchase(product + 1, 1, 5, 1), Err(LedgerError::ProductNotFound));
    assert_eq!(ledger.next_purchase_id(), 1);
    assert!(ledger.purchase(1).is_none());
    let after = ledger.product(product).expect("the product");
    assert_eq!(after.quantity_on_hand, 8);
    assert_eq!(after.unit_cost, 1000);
}

#[test]
fn sale_and_purchase_of_a_deleted_product_are_refused() {
    let (mut ledger, product) = stocked(1500, 8, 1000);
    assert!(ledger.delete_product(product));
    assert_eq!(ledger.record_sale(product, 1, 1), Err(LedgerError::ProductNotFound));
    assert_eq!(ledger.record_purchase(product, 1, 5, 1), Err(LedgerError::ProductNotFound));
}

#[test]
fn sale_refusal_says_what_a_sale_would_give() {
    let (ledger, product) = stocked(1500, 8, 1000);
    assert_eq!(ledger.sale_refusal(product, 8), None);
    assert_eq!(ledger.sale_refusal(product, 0), None);
    assert_eq!(
        ledger.sale_refusal(product, 9),
        Some(LedgerError::InsufficientStock { available: 8 })
    );
    assert_eq!(ledger.sale_refusal(product + 1, 1), Some(LedgerError::ProductNotFound));
}

#[test]
fn sale_below_cost_records_a_loss() {
    let (mut ledger, product) = stocked(700, 10, 1000);
    assert_eq!(ledger.record_sale(product, 4, 1), Ok(1));
    let sale = ledger.sale(1).expect("the record");
    assert_eq!(sale.total_revenue, 2800);
    assert_eq!(sale.profit, -1200);
}

#[test]
fn sale_takes_the_price_and_cost_of_the_moment() {
    let (mut ledger, product) = stocked(1500, 10, 1000);
    assert_eq!(ledger.record_sale(product, 1, 1), Ok(1));
    assert!(ledger.update_product(product, "Kalem".to_string(), "".to_string(), 2000, 9, 1200));
    assert_eq!(ledger.record_sale(product, 1, 1), Ok(2));
    assert_eq!(ledger.record_purchase(product, 1, 500, 1), Ok(1));
    assert_eq!(ledger.record_sale(product, 2, 1), Ok(3));
    let first = ledger.sale(1).expect("the first record");
    assert_eq!((first.unit_price_at_sale, first.total_revenue, first.profit), (1500, 1500, 500));
    let second = ledger.sale(2).expect("the second record");
    assert_eq!((second.unit_price_at_sale, second.total_revenue, second.profit), (2000, 2000, 800));
    let third = ledger.sale(3).expect("the third record");
    assert_eq!((third.unit_price_at_sale, third.total_revenue, third.profit), (2000, 4000, 3000));
    assert_eq!(ledger.product(product).expect("the product").quantity_on_hand, 7);
}

#[test]
fn records_keep_the_user_and_receive_rising_identifiers() {
    let (mut ledger, product) = stocked(1500, 10, 1000);
    assert_eq!(ledger.record_sale(product, 1, 7), Ok(1));
    assert_eq!(ledger.record_sale(product, 1, 9), Ok(2));
    assert_eq!(ledger.record_purchase(product, 1, 1000, 4), Ok(1));
    assert_eq!(ledger.record_purchase(product, 1, 1000, 5), Ok(2));
    assert_eq!(ledger.sale(1).expect("the record").user_id, 7);
    assert_eq!(ledger.sale(2).expect("the record").user_id, 9);
    assert_eq!(ledger.purchase(1).expect("the record").user_id, 4);
    assert_eq!(ledger.purchase(2).expect("the record").user_id, 5);
}

#[test]
fn refused_sale_spends_no_identifier() {
    let (mut ledger, product) = stocked(1500, 2, 1000);
    assert_eq!(ledger.record_sale(product, 1, 1), Ok(1));
    assert!(ledger.record_sale(product, 5, 1).is_err());
    assert!(ledger.record_sale(product + 1, 1, 1).is_err());
    assert_eq!(ledger.record_sale(product, 1, 1), Ok(2));
}

#[test]
fn stock_follows_every_sale_and_purchase_and_never_falls_below_zero() {
    let (mut ledger, product) = stocked(100, 5, 60);
    let steps: [(bool, u32); 8] =
        [(true, 3), (true, 3), (false, 4), (true, 6), (true, 1), (false, 0), (true, 1), (true, 1)];
    let mut expected: u32 = 5;
    for (is_sale, quantity) in steps {
        if is_sale {
            let outcome = ledger.record_sale(product, quantity, 1);
            if quantity <= expected {
                assert!(outcome.is_ok());
                expected -= quantity;
            } else {
                assert_eq!(outcome, Err(LedgerError::InsufficientStock { available: expected }));
            }
        } else {
            assert!(ledger.record_purchase(product, quantity, 60, 1).is_ok());
            expected += quantity;
        }
        assert_eq!(ledger.product(product).expect("the product").quantity_on_hand, expected);
    }
    assert_eq!(expected, 0);
}

#[test]
fn deleting_a_product_leaves_its_records() {
    let (mut ledger, product) = stocked(1500, 8, 1000);
    assert_eq!(ledger.record_sale(product, 2, 1), Ok(1));
    assert_eq!(ledger.record_purchase(product, 1, 900, 1), Ok(1));
    assert!(ledger.delete_product(product));
    assert_eq!(ledger.sale(1).expect("the record").product_id, product);
    assert_eq!(ledger.purchase(1).expect("the record").product_id, product);
    assert_eq!(ledger.sale(1).expect("the record").total_revenue, 3000);
}

#[test]
fn largest_amounts_are_recorded_exactly() {
    let (mut ledger, product) = stocked(i64::MAX, u32::MAX, i64::MIN);
    assert_eq!(ledger.record_sale(product, u32::MAX, 1), Ok(1));
    let sale = ledger.sale(1).expect("the record");
    assert_eq!(sale.total_revenue, i64::MAX as i128 * u32::MAX as i128);
    assert_eq!(sale.profit, (i64::MAX as i128 - i64::MIN as i128) * u32::MAX as i128);
    assert_eq!(ledger.record_purchase(product, u32::MAX, i64::MIN, 1), Ok(1));
    let purchase = ledger.purchase(1).expect("the record");
    assert_eq!(purchase.total_cost, i64::MIN as i128 * u32::MAX as i128);
    assert_eq!(ledger.product(product).expect("the product").quantity_on_hand, u32::MAX);
}

#[test]
fn sale_under_a_given_timestamp_keeps_it() {
    let (mut ledger, product) = stocked(1500, 8, 1000);
    assert_eq!(ledger.record_sale_at(product, 1, 1, "Timestamp: 42".to_string()), Ok(1));
    assert_eq!(ledger.sale(1).expect("the record").timestamp, "Timestamp: 42");
    assert_eq!(
        ledger.record_sale_at(product, 9, 1, "x".to_string()),
        Err(LedgerError::InsufficientStock { available: 7 })
    );
    assert_eq!(
        ledger.record_sale_at(product + 1, 1, 1, "x".to_string()),
        Err(LedgerError::ProductNotFound)
    );
}

#[test]
fn purchase_under_a_given_timestamp_keeps_it() {
    let (mut ledger, product) = stocked(1500, 8, 1000);
    assert_eq!(ledger.record_purchase_at(product, 1, 900, 1, "Timestamp: 7".to_string()), Ok(1));
    assert_eq!(ledger.purchase(1).expect("the record").timestamp, "Timestamp: 7");
    assert_eq!(
        ledger.record_purchase_at(product + 1, 1, 900, 1, "x".to_string()),
        Err(LedgerError::ProductNotFound)
    );
}

fn is_clock_label(label: &str) -> bool {
    match label.strip_prefix("Timestamp: ") {
        Some(digits) => {
            !digits.is_empty()
                && digits.chars().all(|c| c.is_ascii_digit())
                && (digits == "0" || !digits.starts_with('0'))
                && digits.parse::<u64>().is_ok()
        }
        None => label == "Geçersiz Zaman",
    }
}

#[test]
fn records_made_by_the_clock_carry_a_clock_label() {
    let (mut ledger, product) = stocked(1500, 8, 1000);
    assert_eq!(ledger.record_sale(product, 1, 1), Ok(1));
    assert_eq!(ledger.record_purchase(product, 1, 900, 1), Ok(1));
    assert!(is_clock_label(&ledger.sale(1).expect("the record").timestamp));
    assert!(is_clock_label(&ledger.purchase(1).expect("the record").timestamp));
}

#[test]
fn refusals_have_their_messages() {
    assert_eq!(
        LedgerError::InsufficientStock { available: 8 }.message(),
        "Yetersiz stok! Mevcut: 8"
    );
    assert_eq!(
        LedgerError::InsufficientStock { available: 0 }.message(),
        "Yetersiz stok! Mevcut: 0"
    );
    assert_eq!(
        LedgerError::InsufficientStock { available: u32::MAX }.message(),
        "Yetersiz stok! Mevcut: 4294967295"
    );
    assert_eq!(LedgerError::ProductNotFound.message(), "Ürün bulunamadı!");
}

#[test]
fn a_stock_level_that_could_not_be_stored_does_not_fit() {
    let (mut ledger, product) = stocked(1500, u32::MAX - 1, 1000);
    assert!(ledger.purchase_fits(product, 1));
    assert!(ledger.purchase_fits(product, 0));
    assert!(!ledger.purchase_fits(product, 2));
    assert!(!ledger.purchase_fits(product, u32::MAX));
    assert!(ledger.purchase_fits(product + 1, u32::MAX));
    assert_eq!(ledger.record_purchase(product, 1, 1000, 1), Ok(1));
    assert_eq!(ledger.product(product).expect("the product").quantity_on_hand, u32::MAX);
    assert!(!ledger.purchase_fits(product, 1));
    assert!(ledger.purchase_fits(product, 0));
}

#[test]
fn a_young_ledger_has_room_for_everything() {
    let (ledger, product) = stocked(1500, 8, 1000);
    assert!(ledger.product_fits());
    assert!(ledger.sale_fits(product, 1));
    assert!(ledger.sale_fits(product, 9));
    assert!(ledger.sale_fits(product + 1, 1));
    assert!(ledger.user_fits(&"admin".to_string()));
    assert!(ledger.user_fits(&"ayse".to_string()));
}
