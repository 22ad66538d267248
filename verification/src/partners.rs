use vstd::prelude::*;
use crate::error::Error;
use crate::store::{fresh_id, QueryOutcome, Record, Table};
use crate::store::{ambiguous_match_text, no_match_text};

verus! {

/// A partner organisation. Equality is identity-based: two values stand for
/// the same record exactly when their generated `id`s coincide.
#[derive(Debug)]
pub struct Partner {
    pub id: String,
    pub partner_type: String,
    pub partner_name: String,
    pub director: String,
    pub email: String,
    pub phone: String,
    pub legal_address: String,
    pub inn: String,
    pub rating: i64,
}

impl Clone for Partner {
    fn clone(&self) -> (copy: Self)
        ensures
            copy == *self,
    {
        Partner {
            id: self.id.clone(),
            partner_type: self.partner_type.clone(),
            partner_name: self.partner_name.clone(),
            director: self.director.clone(),
            email: self.email.clone(),
            phone: self.phone.clone(),
            legal_address: self.legal_address.clone(),
            inn: self.inn.clone(),
            rating: self.rating,
        }
    }
}

impl PartialEq for Partner {
    fn eq(&self, other: &Self) -> (same: bool) {
        self.id == other.id
    }
}

impl vstd::std_specs::cmp::PartialEqSpecImpl for Partner {
    open spec fn obeys_eq_spec() -> bool {
        true
    }

    open spec fn eq_spec(&self, other: &Self) -> bool {
        self.id@ == other.id@
    }
}

impl Record for Partner {
    open spec fn key(&self) -> Seq<char> {
        self.id@
    }

    fn key_matches(&self, key: &String) -> (hit: bool) {
        self.id == *key
    }

    fn duplicate(&self) -> (row: Self) {
        self.clone()
    }
}

impl Default for Partner {
    /// A blank partner: every text field empty, rating zero, an identity of
    /// its own.
    fn default() -> (blank: Self)
        ensures
            blank.id@.len() == 36,
            blank.partner_type@.len() == 0,
            blank.partner_name@.len() == 0,
            blank.director@.len() == 0,
            blank.email@.len() == 0,
            blank.phone@.len() == 0,
            blank.legal_address@.len() == 0,
            blank.inn@.len() == 0,
            blank.rating == 0,
    {
        Partner::new(
            String::new(),
            String::new(),
            String::new(),
            String::new(),
            String::new(),
            String::new(),
            String::new(),
            0,
        )
    }
}

impl Partner {
    /// Build a partner from its form fields; the unique identity is generated
    /// once here and never changes.
    pub fn new(
        partner_type: String,
        partner_name: String,
        director: String,
        email: String,
        phone: String,
        legal_address: String,
        inn: String,
        rating: i64,
    ) -> (partner: Partner)
        ensures
            partner.id@.len() == 36,
            partner.partner_type == partner_type,
            partner.partner_name == partner_name,
            partner.director == director,
            partner.email == email,
            partner.phone == phone,
            partner.legal_address == legal_address,
            partner.inn == inn,
            partner.rating == rating,
    {
        Partner {
            id: fresh_id(),
            partner_type,
            partner_name,
            director,
            email,
            phone,
            legal_address,
            inn,
            rating,
        }
    }

    /// Insert this partner: one `INSERT` into the partners table.
    pub fn create(&self, db: &mut Table<Partner>) -> (outcome: Result<QueryOutcome, Error>)
        ensures
            final(db)@ == old(db)@.push(*self),
            outcome matches Ok(done) && done.rows_affected == 1,
    {
        db.create(self.duplicate())
    }

    /// Delete this partner: one `DELETE` keyed on `id`. Deleting an identity
    /// that is no longer present still succeeds, affecting zero rows.
    pub fn delete(&self, db: &mut Table<Partner>) -> (outcome: Result<QueryOutcome, Error>)
        ensures
            final(db)@ == old(db)@.filter(|row: Partner| row.key() != self.id@),
            outcome matches Ok(done) && done.rows_affected == old(db).matching(self.id@).len(),
    {
        db.delete(&self.id)
    }
}

/// Fetch the one partner with identity `id`; zero matching rows and more than
/// one both surface as a `DatabaseError`.
pub fn get(db: &Table<Partner>, id: String) -> (found: Result<Partner, Error>)
    ensures
        db.matching(id@).len() == 1 ==> (found matches Ok(row) && row == db.matching(id@)[0]),
        db.matching(id@).len() == 0 ==> (found matches Err(e) && e matches Error::DatabaseError(cause)
            && cause@ == no_match_text()),
        db.matching(id@).len() > 1 ==> (found matches Err(e) && e matches Error::DatabaseError(cause)
            && cause@ == ambiguous_match_text()),
{
    db.get(&id)
}

/// Fetch every partner, in store-native order.
pub fn get_all(db: &Table<Partner>) -> (found: Result<Vec<Partner>, Error>)
    ensures
        found matches Ok(rows) && rows@ == db@,
{
    db.get_all()
}

} // verus!
