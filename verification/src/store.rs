//! The in-memory record collection the state machine drives: insert
//! assigns each record a fresh stable identifier, and the expended date
//! is the only field ever changed afterwards. A persistent copy, if any,
//! is kept outside this crate by replaying the same operations.

use vstd::prelude::*;
use crate::record::{DbResults, RecordModel, models};

verus! {

/// The ordered collection of purchase records, with the next identifier
/// to hand out.
pub struct Store {
    pub records: Vec<DbResults>,
    pub next_id: i64,
}

/// The mathematical value of the store.
#[verifier::ext_equal]
pub ghost struct StoreModel {
    pub records: Seq<RecordModel>,
    pub next_id: int,
}

impl View for Store {
    type V = StoreModel;

    open spec fn view(&self) -> StoreModel {
        StoreModel { records: models(self.records@), next_id: self.next_id as int }
    }
}

/// The view of an optional text buffer.
pub open spec fn opt_chars(o: Option<Vec<char>>) -> Option<Seq<char>> {
    match o {
        Some(v) => Some(v@),
        None => None,
    }
}

/// The record that an insert under identifier `id` stores.
pub open spec fn new_record(
    id: int,
    ingredient: Seq<char>,
    price: int,
    expended_date: Option<Seq<char>>,
    purchase_date: Seq<char>,
) -> RecordModel {
    RecordModel { id, ingredient, price, expended_date, purchase_date }
}

/// The same record with its expended date replaced.
pub open spec fn with_expended(m: RecordModel, e: Option<Seq<char>>) -> RecordModel {
    RecordModel {
        id: m.id,
        ingredient: m.ingredient,
        price: m.price,
        expended_date: e,
        purchase_date: m.purchase_date,
    }
}

impl Store {
    /// Identifiers are non-negative, pairwise distinct, and all below the
    /// next one to be handed out.
    pub open spec fn wf(self) -> bool {
        &&& (forall|i: int, j: int|
            0 <= i < j < self@.records.len() ==> (#[trigger] self@.records[i]).id != (
            #[trigger] self@.records[j]).id)
        &&& (forall|i: int|
            0 <= i < self@.records.len() ==> 0 <= (#[trigger] self@.records[i]).id
                < self@.next_id)
        &&& 1 <= self@.next_id <= i64::MAX
    }

    /// An empty store whose first identifier will be 1.
    pub fn new() -> (s: Store)
        ensures
            s.wf(),
            s@.records.len() == 0,
            s@.next_id == 1,
    {
        Store { records: Vec::new(), next_id: 1 }
    }

    /// Append a new record under a fresh identifier. Returns a copy of
    /// the stored record, or `None` only when every identifier has been
    /// used up.
    pub fn insert(
        &mut self,
        ingredient: Vec<char>,
        price: i64,
        purchase_date: Vec<char>,
        expended_date: Option<Vec<char>>,
    ) -> (r: Option<DbResults>)
        requires
            old(self).wf(),
        ensures
            final(self).wf(),
            r is Some <==> old(self)@.next_id < i64::MAX,
            r is None ==> final(self)@ == old(self)@,
            r matches Some(rec) ==> {
                &&& rec@ == new_record(
                    old(self)@.next_id,
                    ingredient@,
                    price as int,
                    opt_chars(expended_date),
                    purchase_date@,
                )
                &&& final(self)@.records == old(self)@.records.push(rec@)
                &&& final(self)@.next_id == old(self)@.next_id + 1
            },
    {
        if self.next_id == i64::MAX {
            return None;
        }
        let id = self.next_id;
        let rec = DbResults { id, ingredient, price, expended_date, purchase_date };
        let out = rec.duplicate();
        self.records.push(rec);
        self.next_id = id + 1;
        proof {
            assert(self@.records =~= old(self)@.records.push(out@));
        }
        Some(out)
    }

    /// Set the expended date of the record with the given identifier,
    /// leaving every other record unchanged. Returns whether such a
    /// record exists; over a store without it, this changes nothing.
    pub fn update_expended(&mut self, id: i64, new_date: Option<Vec<char>>) -> (found: bool)
        requires
            old(self).wf(),
        ensures
            final(self).wf(),
            final(self)@.next_id == old(self)@.next_id,
            final(self)@.records.len() == old(self)@.records.len(),
            found <==> exists|i: int|
                0 <= i < old(self)@.records.len() && (#[trigger] old(self)@.records[i]).id
                    == id as int,
            forall|i: int|
                0 <= i < old(self)@.records.len() && (#[trigger] old(self)@.records[i]).id != id
                    as int ==> final(self)@.records[i] == old(self)@.records[i],
            forall|i: int|
                0 <= i < old(self)@.records.len() && (#[trigger] old(self)@.records[i]).id == id
                    as int ==> final(self)@.records[i] == with_expended(
                    old(self)@.records[i],
                    opt_chars(new_date),
                ),
    {
        let ghost pre = self@.records;
        let mut idx: usize = 0;
        loop
            invariant
                idx <= self.records.len(),
                self@.records == pre,
                self.records.len() == pre.len(),
                forall|i: int| 0 <= i < idx ==> (#[trigger] pre[i]).id != id as int,
            ensures
                self@.records == pre,
                self.records.len() == pre.len(),
                idx <= pre.len(),
                forall|i: int| 0 <= i < idx ==> (#[trigger] pre[i]).id != id as int,
                idx < pre.len() ==> pre[idx as int].id == id as int,
            decreases self.records.len() - idx,
        {
            if idx >= self.records.len() {
                break ;
            }
            if self.records[idx].id == id {
                break ;
            }
            idx += 1;
        }
        if idx < self.records.len() {
            let rec = self.records.remove(idx);
            let updated = DbResults {
                id: rec.id,
                ingredient: rec.ingredient,
                price: rec.price,
                expended_date: new_date,
                purchase_date: rec.purchase_date,
            };
            self.records.insert(idx, updated);
            proof {
                let ii = idx as int;
                assert(self@.records =~= pre.update(ii, with_expended(pre[ii], opt_chars(
                    new_date,
                ))));
                assert forall|i: int|
                    0 <= i < pre.len() && (#[trigger] pre[i]).id == id as int implies self@.records[i]
                    == with_expended(pre[i], opt_chars(new_date)) by {
                    if i != ii {
                        // Identifiers are unique, so only one row carries `id`.
                        assert(pre[i].id != pre[ii].id);
                    }
                }
            }
            true
        } else {
            false
        }
    }

    /// Rebuild a store from rows read back from a persistent copy.
    /// Succeeds exactly when the identifiers are non-negative, pairwise
    /// distinct and small enough to leave a fresh one; the store then
    /// holds exactly those rows, in order.
    pub fn from_rows(rows: Vec<DbResults>) -> (r: Option<Store>)
        ensures
            r is Some <==> {
                &&& (forall|i: int, j: int|
                    0 <= i < j < rows@.len() ==> (#[trigger] rows@[i]@).id != (
                    #[trigger] rows@[j]@).id)
                &&& (forall|i: int|
                    0 <= i < rows@.len() ==> 0 <= (#[trigger] rows@[i]@).id < i64::MAX)
            },
            r matches Some(s) ==> {
                &&& s.wf()
                &&& s@.records == models(rows@)
            },
    {
        let mut max_id: i64 = 0;
        let mut i: usize = 0;
        while i < rows.len()
            invariant
                i <= rows.len(),
                0 <= max_id < i64::MAX,
                forall|a: int, b: int|
                    0 <= a < b < i ==> (#[trigger] rows@[a]@).id != (#[trigger] rows@[b]@).id,
                forall|a: int| 0 <= a < i ==> 0 <= (#[trigger] rows@[a]@).id <= max_id as int,
            decreases rows.len() - i,
        {
            let cand = rows[i].id;
            if cand < 0 || cand == i64::MAX {
                return None;
            }
            let mut j: usize = 0;
            while j < i
                invariant
                    j <= i < rows.len(),
                    cand as int == rows@[i as int]@.id,
                    forall|a: int| 0 <= a < j ==> (#[trigger] rows@[a]@).id != cand as int,
                decreases i - j,
            {
                if rows[j].id == cand {
                    proof {
                        let ji = j as int;
                        let ii = i as int;
                        assert((rows@[ji]@).id == (rows@[ii]@).id);
                        assert(!(forall|a: int, b: int|
                            0 <= a < b < rows@.len() ==> (#[trigger] rows@[a]@).id != (
                            #[trigger] rows@[b]@).id)) by {
                            assert(0 <= ji < ii < rows@.len() && (rows@[ji]@).id == (
                            rows@[ii]@).id);
                        }
                    }
                    return None;
                }
                j += 1;
            }
            if cand > max_id {
                max_id = cand;
            }
            i += 1;
        }
        Some(Store { records: rows, next_id: max_id + 1 })
    }
}

} // verus!
