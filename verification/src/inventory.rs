//! A store's inventory and a customer's purchase against it: the
//! purchase succeeds exactly when the product is stocked in at least
//! the requested quantity, and then removes that quantity.

use vstd::prelude::*;

verus! {

#[derive(PartialEq, Eq, Structural, Clone, Copy, Debug)]
pub enum Product {
    Shampoo,
}

/// Whether the inventory stocks the product at all.
pub open spec fn has_product(inventory: Seq<(Product, usize)>, product: Product) -> bool
    decreases inventory.len(),
{
    if inventory.len() == 0 {
        false
    } else if inventory[0].0 == product {
        true
    } else {
        has_product(inventory.drop_first(), product)
    }
}

/// The stocked quantity of the product: its first entry's quantity,
/// or zero when it is not stocked.
pub open spec fn quantity_of(inventory: Seq<(Product, usize)>, product: Product) -> nat
    decreases inventory.len(),
{
    if inventory.len() == 0 {
        0
    } else if inventory[0].0 == product {
        inventory[0].1 as nat
    } else {
        quantity_of(inventory.drop_first(), product)
    }
}

/// The position of the product's first entry; meaningful only when
/// the product is stocked.
pub open spec fn first_index(inventory: Seq<(Product, usize)>, product: Product) -> int
    decreases inventory.len(),
{
    if inventory.len() == 0 {
        0
    } else if inventory[0].0 == product {
        0
    } else {
        1 + first_index(inventory.drop_first(), product)
    }
}

proof fn lemma_entry_at(inventory: Seq<(Product, usize)>, product: Product, i: int)
    requires
        0 <= i < inventory.len(),
        inventory[i].0 == product,
        forall|j: int| 0 <= j < i ==> inventory[j].0 != product,
    ensures
        has_product(inventory, product),
        quantity_of(inventory, product) == inventory[i].1 as nat,
        first_index(inventory, product) == i,
    decreases i,
{
    if i > 0 {
        lemma_entry_at(inventory.drop_first(), product, i - 1);
    }
}

proof fn lemma_no_entry(inventory: Seq<(Product, usize)>, product: Product)
    requires
        forall|j: int| 0 <= j < inventory.len() ==> inventory[j].0 != product,
    ensures
        !has_product(inventory, product),
    decreases inventory.len(),
{
    if inventory.len() > 0 {
        lemma_no_entry(inventory.drop_first(), product);
    }
}

/// The inventory: one quantity per stocked product, each product
/// listed at most once in practice; a lookup reads a product's first
/// entry.
pub struct Store {
    pub inventory: Vec<(Product, usize)>,
}

impl Store {
    /// A store with nothing stocked.
    pub fn new() -> (r: Store)
        ensures
            r.inventory@.len() == 0,
    {
        Store { inventory: Vec::new() }
    }

    /// Sets the stocked quantity of the product: its first entry is
    /// replaced, or a new entry appended if it was not stocked.
    pub fn add_inventry(&mut self, product: Product, quantity: usize)
        ensures
            has_product(final(self).inventory@, product),
            quantity_of(final(self).inventory@, product) == quantity as nat,
            has_product(old(self).inventory@, product) ==> final(self).inventory@ == old(
                self,
            ).inventory@.update(first_index(old(self).inventory@, product), (product, quantity)),
            !has_product(old(self).inventory@, product) ==> final(self).inventory@ == old(
                self,
            ).inventory@.push((product, quantity)),
    {
        let ghost before = self.inventory@;
        let mut i: usize = 0;
        while i < self.inventory.len()
            invariant
                i <= self.inventory@.len(),
                self == old(self),
                before == old(self).inventory@,
                forall|j: int| 0 <= j < i ==> self.inventory@[j].0 != product,
            decreases self.inventory@.len() - i,
        {
            let (p, _q) = self.inventory[i];
            if p == product {
                proof {
                    lemma_entry_at(before, product, i as int);
                }
                self.inventory.remove(i);
                self.inventory.insert(i, (product, quantity));
                proof {
                    assert(self.inventory@ =~= before.update(i as int, (product, quantity)));
                    lemma_entry_at(self.inventory@, product, i as int);
                }
                return ;
            }
            i = i + 1;
        }
        proof {
            lemma_no_entry(before, product);
        }
        self.inventory.push((product, quantity));
        proof {
            lemma_entry_at(self.inventory@, product, before.len() as int);
        }
    }

    /// The stocked quantity of the product, zero when it is not
    /// stocked.
    pub fn get(&self, product: Product) -> (r: usize)
        ensures
            r as nat == quantity_of(self.inventory@, product),
    {
        let mut i: usize = 0;
        while i < self.inventory.len()
            invariant
                i <= self.inventory@.len(),
                forall|j: int| 0 <= j < i ==> self.inventory@[j].0 != product,
            decreases self.inventory@.len() - i,
        {
            let (p, q) = self.inventory[i];
            if p == product {
                proof {
                    lemma_entry_at(self.inventory@, product, i as int);
                }
                return q;
            }
            i = i + 1;
        }
        proof {
            lemma_no_entry(self.inventory@, product);
        }
        0
    }
}

pub struct Customer {}

impl Customer {
    pub fn new() -> (r: Customer) {
        Customer {  }
    }

    /// Buys `quantity` of the product: succeeds exactly when the
    /// product is stocked in at least that quantity, and then removes
    /// it from the product's entry; a failed purchase changes nothing.
    pub fn purchase(self, store: &mut Store, product: Product, quantity: usize) -> (r: bool)
        ensures
            r == (has_product(old(store).inventory@, product) && quantity_of(
                old(store).inventory@,
                product,
            ) >= quantity),
            r ==> final(store).inventory@ == old(store).inventory@.update(
                first_index(old(store).inventory@, product),
                (product, (quantity_of(old(store).inventory@, product) - quantity) as usize),
            ),
            !r ==> final(store).inventory@ == old(store).inventory@,
    {
        let ghost before = store.inventory@;
        let mut i: usize = 0;
        while i < store.inventory.len()
            invariant
                i <= store.inventory@.len(),
                store == old(store),
                before == old(store).inventory@,
                forall|j: int| 0 <= j < i ==> store.inventory@[j].0 != product,
            decreases store.inventory@.len() - i,
        {
            let (p, q) = store.inventory[i];
            if p == product {
                proof {
                    lemma_entry_at(before, product, i as int);
                }
                if q >= quantity {
                    store.inventory.remove(i);
                    store.inventory.insert(i, (product, q - quantity));
                    proof {
                        assert(store.inventory@ =~= before.update(
                            i as int,
                            (product, (q - quantity) as usize),
                        ));
                    }
                    return true;
                } else {
                    return false;
                }
            }
            i = i + 1;
        }
        proof {
            lemma_no_entry(before, product);
        }
        false
    }
}

} // verus!
