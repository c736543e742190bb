//! Small ordering fixtures: an order that collects products, a price
//! engine whose discount is a pure function of the order, and a
//! controller that greets a user through an email gateway.

use vstd::prelude::*;

verus! {

#[derive(Debug)]
pub struct Product {
    pub name: String,
}

impl Clone for Product {
    fn clone(&self) -> (r: Product)
        ensures
            r.name@ == self.name@,
    {
        Product { name: self.name.clone() }
    }
}

impl PartialEq for Product {
    fn eq(&self, other: &Product) -> (r: bool) {
        self.name == other.name
    }
}

impl vstd::std_specs::cmp::PartialEqSpecImpl for Product {
    open spec fn obeys_eq_spec() -> bool {
        true
    }

    open spec fn eq_spec(&self, other: &Product) -> bool {
        self.name@ == other.name@
    }
}

/// An order under assembly: the products added so far, in order.
pub struct Order {
    pub products: Vec<Product>,
}

impl Order {
    /// An order holding nothing yet.
    pub fn new() -> (r: Order)
        ensures
            r.products@.len() == 0,
    {
        Order { products: Vec::new() }
    }

    /// Adds one product at the end of the order.
    pub fn add_product(&mut self, product: Product)
        ensures
            final(self).products@ == old(self).products@.push(product),
    {
        self.products.push(product);
    }
}

/// The discount for an order, in hundredths of the price: one
/// hundredth per product, capped at twenty hundredths.
pub open spec fn discount_of(count: nat) -> nat {
    if count < 20 {
        count
    } else {
        20
    }
}

pub struct PriceEngine {}

impl PriceEngine {
    /// The discount for the given products, in hundredths of the
    /// price, as `discount_of` describes.
    pub fn calculate_discount(&self, products: &Vec<Product>) -> (r: u64)
        ensures
            r as nat == discount_of(products@.len()),
    {
        let len = products.len();
        if len < 20 {
            len as u64
        } else {
            20
        }
    }
}

/// What the greeting controller needs of email. The trait carries a
/// mathematical log of every address greeted, in order.
pub trait EmailGateway {
    /// Every address greeted so far, oldest first.
    spec fn greeted(&self) -> Seq<Seq<char>>;

    fn send_greetings_email(&mut self, address: &str)
        ensures
            final(self).greeted() == old(self).greeted().push(address@),
    ;
}

/// The orchestrator: greets a user through the gateway.
pub struct Controller<E: EmailGateway> {
    pub email_gateway: E,
}

impl<E: EmailGateway> Controller<E> {
    /// Greets exactly the given address, once.
    pub fn greet_user(&mut self, address: &str)
        ensures
            final(self).email_gateway.greeted() == old(self).email_gateway.greeted().push(
                address@,
            ),
    {
        self.email_gateway.send_greetings_email(address);
    }
}

} // verus!
