use testable_design::inventory::{Customer, Product, Store};

#[test]
fn purchase_succeeds_when_enough_inventry() {
    // Arrange
    let mut store = Store::new();
    store.add_inventry(Product::Shampoo, 10);
    let customer = Customer::new();

    // Act
    let success = customer.purchase(&mut store, Product::Shampoo, 5);

    // Assert
    assert!(success);
    assert_eq!(5, store.get(Product::Shampoo));
}

#[test]
fn purchase_fails_when_not_enough_inventry() {
    // Arrange
    let mut store = Store::new();
    store.add_inventry(Product::Shampoo, 10);
    let customer = Customer::new();

    // Act
    let success = customer.purchase(&mut store, Product::Shampoo, 15);

    // Assert
    assert!(!success);
    assert_eq!(10, store.get(Product::Shampoo));
}

#[test]
fn purchase_of_unstocked_product_fails() {
    let mut store = Store::new();
    let customer = Customer::new();

    let success = customer.purchase(&mut store, Product::Shampoo, 0);

    assert!(!success);
    assert_eq!(0, store.get(Product::Shampoo));
}

#[test]
fn restocking_replaces_the_quantity() {
    let mut store = Store::new();
    store.add_inventry(Product::Shampoo, 10);
    store.add_inventry(Product::Shampoo, 3);

    assert_eq!(3, store.get(Product::Shampoo));
}
