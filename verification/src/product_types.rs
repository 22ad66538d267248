use vstd::prelude::*;
use crate::error::Error;
use crate::store::{QueryOutcome, Record, Table};
use crate::store::{ambiguous_match_text, no_match_text};

verus! {

/// A product category. Its name acts as the primary key: equality is on
/// `product_type` alone.
#[derive(Debug)]
pub struct ProductType {
    pub product_type: String,
    /// The pricing coefficient, carried as the bit pattern of its 64-bit
    /// floating-point value: the core never computes with it, it only moves
    /// it between the form and the store.
    pub coefficient_bits: u64,
}

impl Clone for ProductType {
    fn clone(&self) -> (copy: Self)
        ensures
            copy == *self,
    {
        ProductType {
            product_type: self.product_type.clone(),
            coefficient_bits: self.coefficient_bits,
        }
    }
}

impl PartialEq for ProductType {
    fn eq(&self, other: &Self) -> (same: bool) {
        self.product_type == other.product_type
    }
}

impl vstd::std_specs::cmp::PartialEqSpecImpl for ProductType {
    open spec fn obeys_eq_spec() -> bool {
        true
    }

    open spec fn eq_spec(&self, other: &Self) -> bool {
        self.product_type@ == other.product_type@
    }
}

impl Record for ProductType {
    open spec fn key(&self) -> Seq<char> {
        self.product_type@
    }

    fn key_matches(&self, key: &String) -> (hit: bool) {
        self.product_type == *key
    }

    fn duplicate(&self) -> (row: Self) {
        self.clone()
    }
}

impl Default for ProductType {
    /// A blank category: empty name, zero coefficient.
    fn default() -> (blank: Self)
        ensures
            blank.product_type@.len() == 0,
            blank.coefficient_bits == 0,
    {
        ProductType::new(String::new(), 0)
    }
}

impl ProductType {
    /// Build a category from its form fields.
    pub fn new(product_type: String, coefficient_bits: u64) -> (category: ProductType)
        ensures
            category.product_type == product_type,
            category.coefficient_bits == coefficient_bits,
    {
        ProductType { product_type, coefficient_bits }
    }

    /// Insert this category: one `INSERT` into the product-types table.
    pub fn create(&self, db: &mut Table<ProductType>) -> (outcome: Result<QueryOutcome, Error>)
        ensures
            final(db)@ == old(db)@.push(*self),
            outcome matches Ok(done) && done.rows_affected == 1,
    {
        db.create(self.duplicate())
    }

    /// Delete this category: one `DELETE` keyed on `product_type`. Deleting a
    /// name that is no longer present still succeeds, affecting zero rows.
    pub fn delete(&self, db: &mut Table<ProductType>) -> (outcome: Result<QueryOutcome, Error>)
        ensures
            final(db)@ == old(db)@.filter(|row: ProductType| row.key() != self.product_type@),
            outcome matches Ok(done) && done.rows_affected == old(db).matching(
                self.product_type@,
            ).len(),
    {
        db.delete(&self.product_type)
    }
}

/// Fetch the one category named `product_type`; zero matching rows and more
/// than one both surface as a `DatabaseError`.
pub fn get(db: &Table<ProductType>, product_type: String) -> (found: Result<ProductType, Error>)
    ensures
        db.matching(product_type@).len() == 1 ==> (found matches Ok(row) && row == db.matching(
            product_type@,
        )[0]),
        db.matching(product_type@).len() == 0 ==> (found matches Err(e) && e matches Error::DatabaseError(cause)
            && cause@ == no_match_text()),
        db.matching(product_type@).len() > 1 ==> (found matches Err(e) && e matches Error::DatabaseError(cause)
            && cause@ == ambiguous_match_text()),
{
    db.get(&product_type)
}

/// Fetch every category, in store-native order.
pub fn get_all(db: &Table<ProductType>) -> (found: Result<Vec<ProductType>, Error>)
    ensures
        found matches Ok(rows) && rows@ == db@,
{
    db.get_all()
}

} // verus!
