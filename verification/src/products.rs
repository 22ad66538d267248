use vstd::prelude::*;
use crate::error::Error;
use crate::store::{fresh_id, QueryOutcome, Record, Table};
use crate::store::{ambiguous_match_text, no_match_text};

verus! {

/// A product on offer. Equality is identity-based: two values stand for the
/// same record exactly when their generated `id`s coincide.
#[derive(Debug)]
pub struct Product {
    pub product_type: String,
    pub product_name: String,
    pub article_number: String,
    pub minimum_cost: i64,
    pub id: String,
}

impl Clone for Product {
    fn clone(&self) -> (copy: Self)
        ensures
            copy == *self,
    {
        Product {
            product_type: self.product_type.clone(),
            product_name: self.product_name.clone(),
            article_number: self.article_number.clone(),
            minimum_cost: self.minimum_cost,
            id: self.id.clone(),
        }
    }
}

impl PartialEq for Product {
    fn eq(&self, other: &Self) -> (same: bool) {
        self.id == other.id
    }
}

impl vstd::std_specs::cmp::PartialEqSpecImpl for Product {
    open spec fn obeys_eq_spec() -> bool {
        true
    }

    open spec fn eq_spec(&self, other: &Self) -> bool {
        self.id@ == other.id@
    }
}

impl Record for Product {
    open spec fn key(&self) -> Seq<char> {
        self.id@
    }

    fn key_matches(&self, key: &String) -> (hit: bool) {
        self.id == *key
    }

    fn duplicate(&self) -> (row: Self) {
        self.clone()
    }
}

impl Default for Product {
    /// A blank product: every text field empty, minimum cost zero, an
    /// identity of its own.
    fn default() -> (blank: Self)
        ensures
            blank.id@.len() == 36,
            blank.product_type@.len() == 0,
            blank.product_name@.len() == 0,
            blank.article_number@.len() == 0,
            blank.minimum_cost == 0,
    {
        Product::new(String::new(), String::new(), String::new(), 0)
    }
}

impl Product {
    /// Build a product from its form fields; the unique identity is generated
    /// once here and never changes.
    pub fn new(
        product_type: String,
        product_name: String,
        article_number: String,
        minimum_cost: i64,
    ) -> (product: Product)
        ensures
            product.id@.len() == 36,
            product.product_type == product_type,
            product.product_name == product_name,
            product.article_number == article_number,
            product.minimum_cost == minimum_cost,
    {
        Product {
            product_type,
            product_name,
            article_number,
            minimum_cost,
            id: fresh_id(),
        }
    }

    /// Insert this product: one `INSERT` into the products table.
    pub fn create(&self, db: &mut Table<Product>) -> (outcome: Result<QueryOutcome, Error>)
        ensures
            final(db)@ == old(db)@.push(*self),
            outcome matches Ok(done) && done.rows_affected == 1,
    {
        db.create(self.duplicate())
    }

    /// Delete this product: one `DELETE` keyed on `id`. Deleting an identity
    /// that is no longer present still succeeds, affecting zero rows.
    pub fn delete(&self, db: &mut Table<Product>) -> (outcome: Result<QueryOutcome, Error>)
        ensures
            final(db)@ == old(db)@.filter(|row: Product| row.key() != self.id@),
            outcome matches Ok(done) && done.rows_affected == old(db).matching(self.id@).len(),
    {
        db.delete(&self.id)
    }
}

/// Fetch the one product with identity `id`; zero matching rows and more than
/// one both surface as a `DatabaseError`.
pub fn get(db: &Table<Product>, id: String) -> (found: Result<Product, Error>)
    ensures
        db.matching(id@).len() == 1 ==> (found matches Ok(row) && row == db.matching(id@)[0]),
        db.matching(id@).len() == 0 ==> (found matches Err(e) && e matches Error::DatabaseError(cause)
            && cause@ == no_match_text()),
        db.matching(id@).len() > 1 ==> (found matches Err(e) && e matches Error::DatabaseError(cause)
            && cause@ == ambiguous_match_text()),
{
    db.get(&id)
}

/// Fetch every product, in store-native order.
pub fn get_all(db: &Table<Product>) -> (found: Result<Vec<Product>, Error>)
    ensures
        found matches Ok(rows) && rows@ == db@,
{
    db.get_all()
}

} // verus!
