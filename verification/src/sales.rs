use vstd::prelude::*;
use crate::date::Date;
use crate::error::Error;
use crate::store::{fresh_id, QueryOutcome, Record, Table};
use crate::store::{ambiguous_match_text, no_match_text};

verus! {

/// One sale of a product to a partner. `product_id` and `partner_id` are
/// expected to reference existing rows, but the store does not enforce it:
/// deleting a partner or a product leaves its sales dangling by design.
#[derive(Debug)]
pub struct Sale {
    pub product_id: String,
    pub quantity: i64,
    pub sale_date: Date,
    pub partner_id: String,
    pub id: String,
}

impl Clone for Sale {
    fn clone(&self) -> (copy: Self)
        ensures
            copy == *self,
    {
        Sale {
            product_id: self.product_id.clone(),
            quantity: self.quantity,
            sale_date: self.sale_date,
            partner_id: self.partner_id.clone(),
            id: self.id.clone(),
        }
    }
}

impl Record for Sale {
    open spec fn key(&self) -> Seq<char> {
        self.id@
    }

    fn key_matches(&self, key: &String) -> (hit: bool) {
        self.id == *key
    }

    fn duplicate(&self) -> (row: Self) {
        self.clone()
    }
}

impl Sale {
    /// Build a sale from its form fields; the unique identity is generated
    /// once here and never changes.
    pub fn new(product_id: String, quantity: i64, sale_date: Date, partner_id: String) -> (sale:
        Sale)
        ensures
            sale.id@.len() == 36,
            sale.product_id == product_id,
            sale.quantity == quantity,
            sale.sale_date == sale_date,
            sale.partner_id == partner_id,
    {
        Sale { product_id, quantity, sale_date, partner_id, id: fresh_id() }
    }

    /// Insert this sale: one `INSERT` into the sales table.
    pub fn create(&self, db: &mut Table<Sale>) -> (outcome: Result<QueryOutcome, Error>)
        ensures
            final(db)@ == old(db)@.push(*self),
            outcome matches Ok(done) && done.rows_affected == 1,
    {
        db.create(self.duplicate())
    }

    /// Delete this sale: one `DELETE` keyed on `id`. Deleting an identity
    /// that is no longer present still succeeds, affecting zero rows.
    pub fn delete(&self, db: &mut Table<Sale>) -> (outcome: Result<QueryOutcome, Error>)
        ensures
            final(db)@ == old(db)@.filter(|row: Sale| row.key() != self.id@),
            outcome matches Ok(done) && done.rows_affected == old(db).matching(self.id@).len(),
    {
        db.delete(&self.id)
    }
}

/// Fetch the one sale with identity `id`; zero matching rows and more than
/// one both surface as a `DatabaseError`.
pub fn get(db: &Table<Sale>, id: String) -> (found: Result<Sale, Error>)
    ensures
        db.matching(id@).len() == 1 ==> (found matches Ok(row) && row == db.matching(id@)[0]),
        db.matching(id@).len() == 0 ==> (found matches Err(e) && e matches Error::DatabaseError(cause)
            && cause@ == no_match_text()),
        db.matching(id@).len() > 1 ==> (found matches Err(e) && e matches Error::DatabaseError(cause)
            && cause@ == ambiguous_match_text()),
{
    db.get(&id)
}

/// Fetch every sale, in store-native order.
pub fn get_all(db: &Table<Sale>) -> (found: Result<Vec<Sale>, Error>)
    ensures
        found matches Ok(rows) && rows@ == db@,
{
    db.get_all()
}

} // verus!
