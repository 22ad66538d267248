use vstd::prelude::*;
use vstd::seq_lib::*;
use vstd::string::StringExecFns;
use crate::error::Error;

verus! {

/// Summary of one store statement's effect: the success marker every
/// repository operation returns.
#[derive(Clone, Copy, PartialEq, Eq, Structural, Debug)]
pub struct QueryOutcome {
    pub rows_affected: u64,
}

/// A record kind the store can hold. Every record exposes the identity the
/// repository keys its statements by, and can be copied row-for-row (rows are
/// handed out of the store by value).
pub trait Record: Sized {
    /// The identity field's value.
    spec fn key(&self) -> Seq<char>;

    /// Whether this record's identity equals `key`.
    fn key_matches(&self, key: &String) -> (hit: bool)
        ensures
            hit == (self.key() == key@);

    /// An equal copy of the record.
    fn duplicate(&self) -> (row: Self)
        ensures
            row == *self;
}

/// Relies on `uuid::Uuid::new_v4` and on `Uuid`'s `Display` form: a freshly
/// drawn random version-4 identifier rendered as 36 hyphenated characters.
/// Nothing is assumed about which identifier comes back.
#[verifier::external_body]
pub(crate) fn fresh_id() -> (id: String)
    ensures
        id@.len() == 36,
{
    uuid::Uuid::new_v4().to_string()
}

/// One table of the relational store, modelled as the sequence of its rows in
/// store-native order. Each repository operation on it stands for exactly one
/// atomic store statement; a failure never leaves a write half-applied.
pub struct Table<T> {
    rows: Vec<T>,
}

impl<T> View for Table<T> {
    type V = Seq<T>;

    closed spec fn view(&self) -> Seq<T> {
        self.rows@
    }
}

impl<T: Record> Table<T> {
    /// The rows whose identity equals `key`.
    pub open spec fn matching(&self, key: Seq<char>) -> Seq<T> {
        self@.filter(|row: T| row.key() == key)
    }

    /// An empty table.
    pub fn new() -> (table: Self)
        ensures
            table@ == Seq::<T>::empty(),
    {
        Table { rows: Vec::new() }
    }

    /// The number of rows held.
    pub fn len(&self) -> (n: usize)
        ensures
            n == self@.len(),
    {
        self.rows.len()
    }

    /// Insert one record. The store appends the row in store-native order and
    /// reports exactly one row affected; an insert is never rejected.
    pub fn create(&mut self, record: T) -> (outcome: Result<QueryOutcome, Error>)
        ensures
            final(self)@ == old(self)@.push(record),
            outcome matches Ok(done) && done.rows_affected == 1,
    {
        self.rows.push(record);
        Ok(QueryOutcome { rows_affected: 1 })
    }

    /// Delete every row whose identity equals `key`. A delete that touches no
    /// row is still a success; the outcome reports how many rows went away.
    #[verifier::loop_isolation(false)]
    pub fn delete(&mut self, key: &String) -> (outcome: Result<QueryOutcome, Error>)
        ensures
            final(self)@ == old(self)@.filter(|row: T| row.key() != key@),
            outcome matches Ok(done) && done.rows_affected == old(self).matching(key@).len(),
    {
        broadcast use Seq::lemma_filter_push, Seq::lemma_filter_len_push;

        let ghost all = self.rows@;
        let ghost keep = |row: T| row.key() != key@;
        let ghost gone = |row: T| row.key() == key@;
        let mut kept: Vec<T> = Vec::new();
        let mut removed: u64 = 0;
        let mut i: usize = 0;
        while i < self.rows.len()
            invariant
                i <= all.len(),
                self.rows@ == all,
                kept@ == all.take(i as int).filter(keep),
                removed == all.take(i as int).filter(gone).len(),
                removed <= i,
            decreases all.len() - i,
        {
            proof {
                let prefix = all.take(i as int);
                assert(all.take(i + 1) =~= prefix.push(all[i as int]));
                prefix.lemma_filter_push(all[i as int], keep);
                prefix.lemma_filter_push(all[i as int], gone);
                prefix.lemma_filter_len_push(gone, all[i as int]);
            }
            let row = &self.rows[i];
            if row.key_matches(key) {
                removed = removed + 1;
            } else {
                kept.push(row.duplicate());
            }
            i = i + 1;
        }
        proof {
            assert(all.take(all.len() as int) =~= all);
        }
        self.rows = kept;
        Ok(QueryOutcome { rows_affected: removed })
    }

    /// Fetch the single row whose identity equals `key`. The identity is
    /// expected to be unique, so zero matching rows and more than one are
    /// both surfaced as a store-layer fault, never resolved silently.
    #[verifier::loop_isolation(false)]
    pub fn get(&self, key: &String) -> (found: Result<T, Error>)
        ensures
            self.matching(key@).len() == 1 ==> (found matches Ok(row) && row == self.matching(
                key@,
            )[0]),
            self.matching(key@).len() == 0 ==> (found matches Err(e) && e matches Error::DatabaseError(cause)
                && cause@ == no_match_text()),
            self.matching(key@).len() > 1 ==> (found matches Err(e) && e matches Error::DatabaseError(cause)
                && cause@ == ambiguous_match_text()),
    {
        broadcast use Seq::lemma_filter_push, Seq::lemma_filter_len_push;

        let ghost all = self.rows@;
        let ghost hits = |row: T| row.key() == key@;
        let mut first: usize = 0;
        let mut count: u64 = 0;
        let mut i: usize = 0;
        while i < self.rows.len()
            invariant
                i <= all.len(),
                self.rows@ == all,
                count == all.take(i as int).filter(hits).len(),
                count <= i,
                count > 0 ==> first < i && all.take(i as int).filter(hits)[0] == all[first as int],
            decreases all.len() - i,
        {
            proof {
                let prefix = all.take(i as int);
                assert(all.take(i + 1) =~= prefix.push(all[i as int]));
                prefix.lemma_filter_push(all[i as int], hits);
                prefix.lemma_filter_len_push(hits, all[i as int]);
                if count == 0 {
                    assert(prefix.filter(hits) =~= Seq::<T>::empty());
                }
            }
            let row = &self.rows[i];
            if row.key_matches(key) {
                if count == 0 {
                    first = i;
                }
                count = count + 1;
            }
            i = i + 1;
        }
        proof {
            assert(all.take(all.len() as int) =~= all);
        }
        if count == 1 {
            Ok(self.rows[first].duplicate())
        } else if count == 0 {
            Err(
                Error::DatabaseError(
                    String::from_str(
                        "no rows returned by a query that expected to return at least one row",
                    ),
                ),
            )
        } else {
            Err(
                Error::DatabaseError(
                    String::from_str(
                        "query returned more than one row for an identity expected to be unique",
                    ),
                ),
            )
        }
    }

    /// Fetch every row, in store-native order.
    #[verifier::loop_isolation(false)]
    pub fn get_all(&self) -> (found: Result<Vec<T>, Error>)
        ensures
            found matches Ok(rows) && rows@ == self@,
    {
        let mut out: Vec<T> = Vec::new();
        let mut i: usize = 0;
        while i < self.rows.len()
            invariant
                i <= self.rows@.len(),
                out@ == self.rows@.take(i as int),
            decreases self.rows@.len() - i,
        {
            proof {
                assert(self.rows@.take(i + 1) =~= self.rows@.take(i as int).push(
                    self.rows@[i as int],
                ));
            }
            out.push(self.rows[i].duplicate());
            i = i + 1;
        }
        proof {
            assert(self.rows@.take(self.rows@.len() as int) =~= self.rows@);
        }
        Ok(out)
    }
}

/// Cause text when a lookup that must return one row matched none.
pub open spec fn no_match_text() -> Seq<char> {
    "no rows returned by a query that expected to return at least one row"@
}

/// Cause text when a lookup that must return one row matched several.
pub open spec fn ambiguous_match_text() -> Seq<char> {
    "query returned more than one row for an identity expected to be unique"@
}

/// Rows of `s` all satisfying `pred` pass the filter unchanged.
proof fn lemma_filter_retains_all<T>(s: Seq<T>, pred: spec_fn(T) -> bool)
    requires
        forall|i: int| 0 <= i < s.len() ==> pred(#[trigger] s[i]),
    ensures
        s.filter(pred) == s,
    decreases s.len(),
{
    reveal(Seq::filter);
    if s.len() != 0 {
        lemma_filter_retains_all(s.drop_last(), pred);
    }
    assert(s.filter(pred) =~= s);
}

/// Rows of `s` all failing `pred` leave the filter empty.
proof fn lemma_filter_drops_all<T>(s: Seq<T>, pred: spec_fn(T) -> bool)
    requires
        forall|i: int| 0 <= i < s.len() ==> !pred(#[trigger] s[i]),
    ensures
        s.filter(pred).len() == 0,
    decreases s.len(),
{
    reveal(Seq::filter);
    if s.len() != 0 {
        lemma_filter_drops_all(s.drop_last(), pred);
    }
}

/// Law: after `create(record)` on a store where `record`'s identity is
/// fresh, exactly one row matches that identity, and it is the created
/// record itself — so `get` on it returns a structurally equal record.
pub proof fn lemma_create_then_get<T: Record>(rows: Seq<T>, record: T)
    requires
        rows.filter(|row: T| row.key() == record.key()).len() == 0,
    ensures
        rows.push(record).filter(|row: T| row.key() == record.key()).len() == 1,
        rows.push(record).filter(|row: T| row.key() == record.key())[0] == record,
{
    let pred = |row: T| row.key() == record.key();
    rows.lemma_filter_push(record, pred);
    assert(rows.filter(pred) =~= Seq::<T>::empty());
}

/// Law: deletion is idempotent. Deleting an identity leaves no row carrying
/// it — a second delete of the same identity changes nothing further and
/// affects zero rows, and a `get` of it fails as `DatabaseError` — while
/// both deletes report success by `delete`'s contract.
pub proof fn lemma_delete_idempotent<T: Record>(rows: Seq<T>, key: Seq<char>)
    ensures
        rows.filter(|row: T| row.key() != key).filter(|row: T| row.key() != key) == rows.filter(
            |row: T| row.key() != key,
        ),
        rows.filter(|row: T| row.key() != key).filter(|row: T| row.key() == key).len() == 0,
{
    broadcast use Seq::lemma_filter_pred;

    let keep = |row: T| row.key() != key;
    let hit = |row: T| row.key() == key;
    let remaining = rows.filter(keep);
    lemma_filter_retains_all(remaining, keep);
    assert forall|i: int| 0 <= i < remaining.len() implies !hit(#[trigger] remaining[i]) by {
        assert(keep(remaining[i]));
    }
    lemma_filter_drops_all(remaining, hit);
}

/// Law: when every row's identity in the store is distinct — as after
/// creating any number of freshly identified records — each of those
/// identities matches exactly one row, so the rows `get_all` hands back hold
/// each created identity exactly once.
pub proof fn lemma_distinct_identities_once<T: Record>(rows: Seq<T>, i: int)
    requires
        forall|j: int, k: int| 0 <= j < k < rows.len() ==> rows[j].key() != rows[k].key(),
        0 <= i < rows.len(),
    ensures
        rows.filter(|row: T| row.key() == rows[i].key()).len() == 1,
{
    broadcast use Seq::filter_distributes_over_add;

    let pred = |row: T| row.key() == rows[i].key();
    let front = rows.subrange(0, i);
    let back = rows.subrange(i + 1, rows.len() as int);
    let middle = Seq::<T>::empty().push(rows[i]);
    assert(rows =~= front + middle + back);
    assert forall|m: int| 0 <= m < front.len() implies !pred(#[trigger] front[m]) by {
        assert(rows[m].key() != rows[i].key());
    }
    lemma_filter_drops_all(front, pred);
    assert forall|m: int| 0 <= m < back.len() implies !pred(#[trigger] back[m]) by {
        assert(rows[i].key() != rows[i + 1 + m].key());
    }
    lemma_filter_drops_all(back, pred);
    Seq::<T>::empty().lemma_filter_push(rows[i], pred);
    assert(Seq::<T>::empty().filter(pred) =~= Seq::<T>::empty());
    assert(rows.filter(pred) == front.filter(pred) + middle.filter(pred) + back.filter(pred));
}

} // verus!

