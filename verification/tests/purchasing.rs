use testable_design::purchasing::{
    Customer, CustomerController, CustomerRepository, EmailGateway, Product, ProductRepository,
};

struct FixedCustomers;

impl CustomerRepository for FixedCustomers {
    fn get_by_id(&self, _customer_id: i64) -> Customer {
        Customer { mail: "customer@email.com".to_owned() }
    }
}

struct FixedProducts;

impl ProductRepository for FixedProducts {
    fn get_by_id(&self, _product_id: i64) -> Product {
        Product { name: "Shampoo".to_owned() }
    }
}

struct SilentGateway;

impl EmailGateway for SilentGateway {
    fn send_receipt(&self, address: &str, name: &str, _quantity: u32) {
        assert_eq!("customer@email.com", address);
        assert_eq!("Shampoo", name);
    }
}

#[test]
fn successful_purchase() {
    let sut = CustomerController {
        email_gateway: SilentGateway,
        customer_repository: FixedCustomers,
        product_repository: FixedProducts,
    };

    let is_success = sut.purchase(1, 2, 5);

    assert!(is_success);
}
