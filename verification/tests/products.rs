use store::ledger::Ledger;

fn sample(ledger: &mut Ledger, name: &str, quantity: u32) -> u32 {
    ledger.add_product(name.to_string(), "".to_string(), 1500, quantity, 1000)
}

#[test]
fn added_product_is_stored_as_given() {
    let mut ledger = Ledger::new();
    let id = ledger.add_product("Kalem".to_string(), "Mavi".to_string(), 1250, 40, 700);
    assert_eq!(id, 1);
    let product = ledger.product(1).expect("the product");
    assert_eq!(product.id, 1);
    assert_eq!(product.name, "Kalem");
    assert_eq!(product.description, "Mavi");
    assert_eq!(product.unit_price, 1250);
    assert_eq!(product.quantity_on_hand, 40);
    assert_eq!(product.unit_cost, 700);
    assert_eq!(ledger.next_product_id(), 2);
}

#[test]
fn products_receive_rising_identifiers_from_one() {
    let mut ledger = Ledger::new();
    assert_eq!(sample(&mut ledger, "a", 1), 1);
    assert_eq!(sample(&mut ledger, "b", 2), 2);
    assert_eq!(sample(&mut ledger, "c", 3), 3);
    assert_eq!(ledger.product(2).expect("the second").name, "b");
}

#[test]
fn products_may_share_a_name() {
    let mut ledger = Ledger::new();
    assert_eq!(sample(&mut ledger, "a", 1), 1);
    assert_eq!(sample(&mut ledger, "a", 1), 2);
}

#[test]
fn identifier_of_a_deleted_product_is_not_given_again() {
    let mut ledger = Ledger::new();
    let first = sample(&mut ledger, "a", 1);
    assert!(ledger.delete_product(first));
    let second = sample(&mut ledger, "b", 1);
    assert!(second > first);
    assert_eq!(second, 2);
    assert!(ledger.product(first).is_none());
}

#[test]
fn update_overwrites_every_field_but_the_identifier() {
    let mut ledger = Ledger::new();
    let id = ledger.add_product("Kalem".to_string(), "Mavi".to_string(), 1250, 40, 700);
    let updated = ledger.update_product(id, "Defter".to_string(), "".to_string(), -5, 0, 99);
    assert!(updated);
    let product = ledger.product(id).expect("the product");
    assert_eq!(product.id, id);
    assert_eq!(product.name, "Defter");
    assert_eq!(product.description, "");
    assert_eq!(product.unit_price, -5);
    assert_eq!(product.quantity_on_hand, 0);
    assert_eq!(product.unit_cost, 99);
    assert_eq!(ledger.next_product_id(), 2);
}

#[test]
fn update_of_an_unknown_product_changes_nothing() {
    let mut ledger = Ledger::new();
    let id = sample(&mut ledger, "a", 7);
    assert!(!ledger.update_product(id + 1, "x".to_string(), "y".to_string(), 1, 2, 3));
    assert!(!ledger.update_product(0, "x".to_string(), "y".to_string(), 1, 2, 3));
    assert!(ledger.product(id + 1).is_none());
    assert!(ledger.product(0).is_none());
    let product = ledger.product(id).expect("the product");
    assert_eq!(product.name, "a");
    assert_eq!(product.quantity_on_hand, 7);
    assert_eq!(ledger.next_product_id(), 2);
}

#[test]
fn delete_removes_the_product_once() {
    let mut ledger = Ledger::new();
    let id = sample(&mut ledger, "a", 7);
    let other = sample(&mut ledger, "b", 8);
    assert!(ledger.delete_product(id));
    assert!(ledger.product(id).is_none());
    assert!(!ledger.delete_product(id));
    assert_eq!(ledger.product(other).expect("the other").quantity_on_hand, 8);
}

#[test]
fn delete_of_an_unknown_product_reports_false() {
    let mut ledger = Ledger::new();
    assert!(!ledger.delete_product(1));
    assert!(!ledger.delete_product(0));
    assert_eq!(ledger.next_product_id(), 1);
}

#[test]
fn deleted_product_cannot_be_updated() {
    let mut ledger = Ledger::new();
    let id = sample(&mut ledger, "a", 7);
    assert!(ledger.delete_product(id));
    assert!(!ledger.update_product(id, "x".to_string(), "y".to_string(), 1, 2, 3));
    assert!(ledger.product(id).is_none());
}

#[test]
fn stock_value_is_stock_times_unit_cost() {
    let mut ledger = Ledger::new();
    let id = ledger.add_product("a".to_string(), "".to_string(), 1500, 8, 1000);
    assert_eq!(ledger.product(id).expect("the product").stock_value(), 8000);
    let loss = ledger.add_product("b".to_string(), "".to_string(), 1, 3, -250);
    assert_eq!(ledger.product(loss).expect("the product").stock_value(), -750);
    let largest = ledger.add_product("c".to_string(), "".to_string(), 0, u32::MAX, i64::MIN);
    assert_eq!(
        ledger.product(largest).expect("the product").stock_value(),
        -(0xFFFF_FFFFi128 << 63)
    );
}
