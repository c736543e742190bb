use testable_design::orders::{Controller, EmailGateway, Order, PriceEngine, Product};

#[test]
fn discount_of_two_products() {
    let p1 = Product { name: "Hand wash".to_owned() };
    let p2 = Product { name: "Shampoo".to_owned() };
    let sut = PriceEngine {};

    let discount = sut.calculate_discount(&vec![p1, p2]);

    assert_eq!(2, discount);
}

#[test]
fn the_discount_is_capped() {
    let mut products = Vec::new();
    for _ in 0..30 {
        products.push(Product { name: "Soap".to_owned() });
    }
    let sut = PriceEngine {};

    assert_eq!(20, sut.calculate_discount(&products));
}

#[test]
fn adding_a_product_to_an_order() {
    let product = Product { name: "Hand wash".to_owned() };
    let mut sut = Order { products: vec![] };

    sut.add_product(product.clone());

    assert_eq!(1, sut.products.len());
    assert_eq!(product, sut.products[0]);
}

struct GatewaySpy {
    greeted: Vec<String>,
}

impl EmailGateway for GatewaySpy {
    // The ghost log is never evaluated at run time.
    fn greeted(&self) -> vstd::prelude::Seq<vstd::prelude::Seq<char>> {
        unreachable!()
    }

    fn send_greetings_email(&mut self, address: &str) {
        self.greeted.push(address.to_owned());
    }
}

#[test]
fn sending_a_greetings_email() {
    let mut sut = Controller { email_gateway: GatewaySpy { greeted: vec![] } };

    sut.greet_user("user@email.com");

    assert_eq!(vec!["user@email.com".to_owned()], sut.email_gateway.greeted);
}
