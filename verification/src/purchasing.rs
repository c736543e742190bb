//! A purchase placed through repositories and acknowledged by email:
//! the controller looks the customer and the product up, places the
//! purchase, and sends a receipt for every success. The illustrative
//! store itself refuses nothing.

use vstd::prelude::*;

verus! {

pub struct Store {}

pub struct Customer {
    pub mail: String,
}

pub struct Product {
    pub name: String,
}

impl Clone for Product {
    fn clone(&self) -> (r: Product)
        ensures
            r.name@ == self.name@,
    {
        Product { name: self.name.clone() }
    }
}

impl Customer {
    /// Places a purchase with the store. The illustrative store has
    /// no stock to run out of, so every purchase succeeds.
    pub fn purchase(&self, store: Store, product: Product, quantity: u32) -> (r: bool)
        ensures
            r,
    {
        true
    }
}

/// What the controller needs to find a customer.
pub trait CustomerRepository {
    fn get_by_id(&self, customer_id: i64) -> Customer;
}

/// What the controller needs to find a product.
pub trait ProductRepository {
    fn get_by_id(&self, product_id: i64) -> Product;
}

/// What the controller needs to acknowledge a purchase.
pub trait EmailGateway {
    fn send_receipt(&self, address: &str, name: &str, quantity: u32);
}

/// The orchestrator: looks both parties up, places the purchase, and
/// sends a receipt when it succeeded.
pub struct CustomerController<C: CustomerRepository, P: ProductRepository, E: EmailGateway> {
    pub customer_repository: C,
    pub product_repository: P,
    pub email_gateway: E,
}

impl<C: CustomerRepository, P: ProductRepository, E: EmailGateway> CustomerController<C, P, E> {
    /// Places the purchase and reports whether it succeeded; a
    /// receipt goes out exactly on success.
    pub fn purchase(&self, customer_id: i64, product_id: i64, quantity: u32) -> (r: bool)
        ensures
            r,
    {
        let customer = self.customer_repository.get_by_id(customer_id);
        let product = self.product_repository.get_by_id(product_id);

        let is_success = customer.purchase(Store {  }, product.clone(), quantity);

        if is_success {
            self.email_gateway.send_receipt(
                customer.mail.as_str(),
                product.name.as_str(),
                quantity,
            );
        }

        is_success
    }
}

} // verus!
