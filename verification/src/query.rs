//! Query construction and evaluation: the live search filter, the closed
//! set of sort clauses, and the ordered, filtered view of the record rows
//! that the table shows.
//!
//! The filter is a structured value, never an interpolated query string:
//! the empty search is a distinct match-everything sentinel, and a
//! non-empty search matches records whose ingredient contains the typed
//! text (case-sensitively, by design; tested as such).

use vstd::prelude::*;
use crate::record::{DbResults, RecordModel, models};
use crate::text::{contains_sub, spec_contains, lex_le, lex_le_chars, lemma_lex_le_total,
    lemma_lex_le_antisym, lemma_lex_le_trans};

verus! {

/// The filter applied to records when querying.
pub enum Filter {
    /// Matches every record: the empty search.
    MatchAll,
    /// Matches records whose ingredient contains the text.
    Contains(Vec<char>),
}

/// The mathematical value of a filter.
#[verifier::ext_equal]
pub ghost enum FilterModel {
    MatchAll,
    Contains(Seq<char>),
}

impl View for Filter {
    type V = FilterModel;

    open spec fn view(&self) -> FilterModel {
        match self {
            Filter::MatchAll => FilterModel::MatchAll,
            Filter::Contains(t) => FilterModel::Contains(t@),
        }
    }
}

/// The filter a search string stands for: the empty string is the
/// match-everything sentinel, anything else filters by containment.
pub open spec fn spec_filter_of(text: Seq<char>) -> FilterModel {
    if text.len() == 0 {
        FilterModel::MatchAll
    } else {
        FilterModel::Contains(text)
    }
}

/// Derive the filter for a search string.
pub fn filter_of(text: &Vec<char>) -> (f: Filter)
    ensures
        f@ == spec_filter_of(text@),
{
    if text.len() == 0 {
        Filter::MatchAll
    } else {
        Filter::Contains(text.clone())
    }
}

/// Whether one record passes the filter.
pub open spec fn spec_matches(f: FilterModel, m: RecordModel) -> bool {
    match f {
        FilterModel::MatchAll => true,
        FilterModel::Contains(t) => spec_contains(m.ingredient, t),
    }
}

/// The records of `s` that pass the filter, in their original order.
pub open spec fn filtered(f: FilterModel, s: Seq<RecordModel>) -> Seq<RecordModel> {
    s.filter(|m: RecordModel| spec_matches(f, m))
}

/// Decide whether a record passes the filter.
pub fn matches_record(f: &Filter, r: &DbResults) -> (b: bool)
    ensures
        b == spec_matches(f@, r@),
{
    match f {
        Filter::MatchAll => true,
        Filter::Contains(t) => contains_sub(&r.ingredient, t),
    }
}

/// Law: the match-everything filter keeps every record, in order: the
/// empty search restores the unfiltered result set.
pub proof fn lemma_match_all_keeps_everything(s: Seq<RecordModel>)
    ensures
        filtered(FilterModel::MatchAll, s) == s,
    decreases s.len(),
{
    reveal(Seq::filter);
    if s.len() == 0 {
        assert(filtered(FilterModel::MatchAll, s) =~= s);
    } else {
        lemma_match_all_keeps_everything(s.drop_last());
        assert(filtered(FilterModel::MatchAll, s) =~= s);
    }
}

/// The closed set of orderings a query can ask for.
#[derive(Clone, Copy, PartialEq, Eq, Structural, Debug)]
pub enum SortKey {
    /// Highest price first.
    PriceDesc,
    /// Lowest price first.
    PriceAsc,
    /// Latest purchase date first.
    PurchaseDesc,
    /// Earliest purchase date first.
    PurchaseAsc,
    /// Latest expended date first, unexpended records last, ties broken
    /// by earliest purchase date: the default order.
    Smart,
}

/// The default ordering: latest expended first, unexpended last, ties by
/// earliest purchase date.
pub open spec fn smart_le(a: RecordModel, b: RecordModel) -> bool {
    match (a.expended_date, b.expended_date) {
        (Option::Some(x), Option::Some(y)) => if x == y {
            lex_le(a.purchase_date, b.purchase_date)
        } else {
            lex_le(y, x)
        },
        (Option::Some(_), Option::None) => true,
        (Option::None, Option::Some(_)) => false,
        (Option::None, Option::None) => lex_le(a.purchase_date, b.purchase_date),
    }
}

/// Record `a` may stand at or before record `b` under sort key `k`.
pub open spec fn spec_key_le(k: SortKey, a: RecordModel, b: RecordModel) -> bool {
    match k {
        SortKey::PriceDesc => a.price >= b.price,
        SortKey::PriceAsc => a.price <= b.price,
        SortKey::PurchaseDesc => lex_le(b.purchase_date, a.purchase_date),
        SortKey::PurchaseAsc => lex_le(a.purchase_date, b.purchase_date),
        SortKey::Smart => smart_le(a, b),
    }
}

/// Law: any two records are comparable under every sort key.
pub proof fn lemma_key_le_total(k: SortKey, a: RecordModel, b: RecordModel)
    ensures
        spec_key_le(k, a, b) || spec_key_le(k, b, a),
{
    match k {
        SortKey::PriceDesc => {},
        SortKey::PriceAsc => {},
        SortKey::PurchaseDesc => lemma_lex_le_total(a.purchase_date, b.purchase_date),
        SortKey::PurchaseAsc => lemma_lex_le_total(a.purchase_date, b.purchase_date),
        SortKey::Smart => {
            match (a.expended_date, b.expended_date) {
                (Option::Some(x), Option::Some(y)) => {
                    if x == y {
                        lemma_lex_le_total(a.purchase_date, b.purchase_date);
                    } else {
                        lemma_lex_le_total(x, y);
                    }
                },
                (Option::None, Option::None) => {
                    lemma_lex_le_total(a.purchase_date, b.purchase_date);
                },
                _ => {},
            }
        },
    }
}

/// Law: every sort key orders records transitively.
pub proof fn lemma_key_le_trans(k: SortKey, a: RecordModel, b: RecordModel, c: RecordModel)
    requires
        spec_key_le(k, a, b),
        spec_key_le(k, b, c),
    ensures
        spec_key_le(k, a, c),
{
    match k {
        SortKey::PriceDesc => {},
        SortKey::PriceAsc => {},
        SortKey::PurchaseDesc => lemma_lex_le_trans(
            c.purchase_date,
            b.purchase_date,
            a.purchase_date,
        ),
        SortKey::PurchaseAsc => lemma_lex_le_trans(
            a.purchase_date,
            b.purchase_date,
            c.purchase_date,
        ),
        SortKey::Smart => {
            match (a.expended_date, b.expended_date, c.expended_date) {
                (Option::Some(x), Option::Some(y), Option::Some(z)) => {
                    if x == y && y == z {
                        lemma_lex_le_trans(a.purchase_date, b.purchase_date, c.purchase_date);
                    } else if x != y && y != z {
                        lemma_lex_le_trans(z, y, x);
                        if x == z {
                            lemma_lex_le_antisym(y, z);
                        }
                    }
                },
                (Option::None, Option::None, Option::None) => {
                    lemma_lex_le_trans(a.purchase_date, b.purchase_date, c.purchase_date);
                },
                _ => {},
            }
        },
    }
}

/// Decide whether `a` may stand at or before `b` under `k`.
pub fn key_le(k: SortKey, a: &DbResults, b: &DbResults) -> (r: bool)
    ensures
        r == spec_key_le(k, a@, b@),
{
    match k {
        SortKey::PriceDesc => b.price <= a.price,
        SortKey::PriceAsc => a.price <= b.price,
        SortKey::PurchaseDesc => lex_le_chars(&b.purchase_date, &a.purchase_date),
        SortKey::PurchaseAsc => lex_le_chars(&a.purchase_date, &b.purchase_date),
        SortKey::Smart => {
            match (&a.expended_date, &b.expended_date) {
                (Some(x), Some(y)) => {
                    if chars_eq(x, y) {
                        lex_le_chars(&a.purchase_date, &b.purchase_date)
                    } else {
                        lex_le_chars(y, x)
                    }
                },
                (Some(_), None) => true,
                (None, Some(_)) => false,
                (None, None) => lex_le_chars(&a.purchase_date, &b.purchase_date),
            }
        },
    }
}

/// Character-by-character equality of two text buffers.
fn chars_eq(a: &Vec<char>, b: &Vec<char>) -> (r: bool)
    ensures
        r == (a@ == b@),
{
    if a.len() != b.len() {
        return false;
    }
    let mut i: usize = 0;
    while i < a.len()
        invariant
            i <= a.len(),
            a.len() == b.len(),
            forall|j: int| 0 <= j < i ==> a@[j] == b@[j],
        decreases a.len() - i,
    {
        if a[i] != b[i] {
            return false;
        }
        i += 1;
    }
    proof {
        assert(a@ =~= b@);
    }
    true
}

/// A row sequence stands in the order `k` asks for.
pub open spec fn key_sorted(k: SortKey, ms: Seq<RecordModel>) -> bool {
    forall|i: int, j: int|
        0 <= i < j < ms.len() ==> spec_key_le(k, #[trigger] ms[i], #[trigger] ms[j])
}

/// Put one record into its place in an already ordered row vector.
fn insert_sorted(k: SortKey, out: &mut Vec<DbResults>, x: DbResults)
    requires
        key_sorted(k, models(old(out)@)),
    ensures
        key_sorted(k, models(final(out)@)),
        models(final(out)@).to_multiset() == models(old(out)@).to_multiset().insert(x@),
{
    let ghost ms0 = models(out@);
    let mut p: usize = 0;
    loop
        invariant
            p <= out.len(),
            out@ == old(out)@,
            forall|j: int| 0 <= j < p ==> spec_key_le(k, #[trigger] models(out@)[j], x@),
        ensures
            p <= out.len(),
            out@ == old(out)@,
            forall|j: int| 0 <= j < p ==> spec_key_le(k, #[trigger] models(out@)[j], x@),
            p < out@.len() ==> !spec_key_le(k, models(out@)[p as int], x@),
        decreases out.len() - p,
    {
        if p >= out.len() {
            break ;
        }
        if !key_le(k, &out[p], &x) {
            break ;
        }
        p += 1;
    }
    let ghost pi = p as int;
    out.insert(p, x);
    proof {
        assert(models(out@) =~= ms0.insert(pi, x@));
        vstd::seq_lib::to_multiset_insert(ms0, pi, x@);
        assert forall|i: int, j: int|
            0 <= i < j < models(out@).len() implies spec_key_le(
            k,
            #[trigger] models(out@)[i],
            #[trigger] models(out@)[j],
        ) by {
            let ms = models(out@);
            if j < pi {
                assert(ms[i] == ms0[i] && ms[j] == ms0[j]);
            } else if i > pi {
                assert(ms[i] == ms0[i - 1] && ms[j] == ms0[j - 1]);
            } else if i < pi && j == pi {
                assert(ms[i] == ms0[i]);
            } else if i == pi && j > pi {
                // Everything at or past the insertion point comes after x.
                assert(ms[j] == ms0[j - 1]);
                lemma_key_le_total(k, ms0[pi], x@);
                if j - 1 > pi {
                    lemma_key_le_trans(k, x@, ms0[pi], ms0[j - 1]);
                }
            } else if i < pi && j > pi {
                assert(ms[i] == ms0[i] && ms[j] == ms0[j - 1]);
                lemma_key_le_total(k, ms0[pi], x@);
                if j - 1 > pi {
                    lemma_key_le_trans(k, x@, ms0[pi], ms0[j - 1]);
                }
                lemma_key_le_trans(k, ms0[i], x@, ms0[j - 1]);
            }
        }
    }
}

/// Order a row vector by the sort key: the result holds exactly the same
/// records, arranged as `k` asks.
pub fn sort_records(k: SortKey, v: &Vec<DbResults>) -> (r: Vec<DbResults>)
    ensures
        key_sorted(k, models(r@)),
        models(r@).to_multiset() == models(v@).to_multiset(),
{
    let mut out: Vec<DbResults> = Vec::new();
    let mut i: usize = 0;
    proof {
        assert(models(out@) =~= Seq::<RecordModel>::empty());
        assert(models(v@.subrange(0, 0)) =~= Seq::<RecordModel>::empty());
        Seq::<RecordModel>::to_multiset_ensures(models(out@));
    }
    while i < v.len()
        invariant
            i <= v.len(),
            key_sorted(k, models(out@)),
            models(out@).to_multiset() == models(v@.subrange(0, i as int)).to_multiset(),
        decreases v.len() - i,
    {
        let ghost pre = models(v@.subrange(0, i as int));
        insert_sorted(k, &mut out, v[i].duplicate());
        proof {
            let step = models(v@.subrange(0, i + 1));
            assert(v@.subrange(0, i + 1) =~= v@.subrange(0, i as int).push(v@[i as int]));
            assert(step =~= pre.push(v@[i as int]@));
            Seq::<RecordModel>::to_multiset_ensures(pre);
        }
        i += 1;
    }
    proof {
        assert(v@.subrange(0, v@.len() as int) =~= v@);
    }
    out
}

/// Keep the records that pass the filter, in their original order.
pub fn filter_records(f: &Filter, v: &Vec<DbResults>) -> (r: Vec<DbResults>)
    ensures
        models(r@) == filtered(f@, models(v@)),
{
    let mut out: Vec<DbResults> = Vec::new();
    let mut i: usize = 0;
    proof {
        reveal(Seq::filter);
        assert(models(out@) =~= filtered(f@, models(v@.subrange(0, 0))));
    }
    while i < v.len()
        invariant
            i <= v.len(),
            models(out@) == filtered(f@, models(v@.subrange(0, i as int))),
        decreases v.len() - i,
    {
        let ghost pre = models(v@.subrange(0, i as int));
        let keep = matches_record(f, &v[i]);
        if keep {
            let x = v[i].duplicate();
            out.push(x);
        }
        proof {
            broadcast use Seq::lemma_filter_push;

            assert(v@.subrange(0, i + 1) =~= v@.subrange(0, i as int).push(v@[i as int]));
            assert(models(v@.subrange(0, i + 1)) =~= pre.push(v@[i as int]@));
            assert(pre.push(v@[i as int]@).filter(|m: RecordModel| spec_matches(f@, m))
                == if spec_matches(f@, v@[i as int]@) {
                pre.filter(|m: RecordModel| spec_matches(f@, m)).push(v@[i as int]@)
            } else {
                pre.filter(|m: RecordModel| spec_matches(f@, m))
            });
            if keep {
                assert(models(out@) =~= filtered(f@, pre).push(v@[i as int]@));
            }
        }
        i += 1;
    }
    proof {
        assert(v@.subrange(0, v@.len() as int) =~= v@);
    }
    out
}

/// Evaluate a query: the records of `v` that pass the filter, ordered by
/// the sort key.
pub fn run_query(f: &Filter, k: SortKey, v: &Vec<DbResults>) -> (r: Vec<DbResults>)
    ensures
        key_sorted(k, models(r@)),
        models(r@).to_multiset() == filtered(f@, models(v@)).to_multiset(),
{
    let kept = filter_records(f, v);
    sort_records(k, &kept)
}

} // verus!
