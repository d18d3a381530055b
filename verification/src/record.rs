//! The persisted purchase entry: an ingredient name, a price in minor
//! currency units, a purchase date string, and an optional expended date.
//! An absent expended date is a distinguished unset value, not an empty
//! string. Text is held as plain character sequences.

use vstd::prelude::*;

verus! {

/// One purchase row as the store and the table hold it.
pub struct DbResults {
    /// Stable identifier assigned by the store on insert, never reassigned.
    pub id: i64,
    /// Non-empty ingredient name.
    pub ingredient: Vec<char>,
    /// Price in minor currency units (cents).
    pub price: i64,
    /// Expended date as `YYYY-MM-DD`, or unset.
    pub expended_date: Option<Vec<char>>,
    /// Purchase date as `YYYY-MM-DD`.
    pub purchase_date: Vec<char>,
}

/// The mathematical value of one record.
#[verifier::ext_equal]
pub ghost struct RecordModel {
    pub id: int,
    pub ingredient: Seq<char>,
    pub price: int,
    pub expended_date: Option<Seq<char>>,
    pub purchase_date: Seq<char>,
}

impl View for DbResults {
    type V = RecordModel;

    open spec fn view(&self) -> RecordModel {
        RecordModel {
            id: self.id as int,
            ingredient: self.ingredient@,
            price: self.price as int,
            expended_date: match self.expended_date {
                Some(d) => Some(d@),
                None => None,
            },
            purchase_date: self.purchase_date@,
        }
    }
}

impl DbResults {
    /// A field-by-field copy with the same value.
    pub fn duplicate(&self) -> (r: DbResults)
        ensures
            r@ == self@,
    {
        DbResults {
            id: self.id,
            ingredient: self.ingredient.clone(),
            price: self.price,
            expended_date: match &self.expended_date {
                Some(d) => Some(d.clone()),
                None => None,
            },
            purchase_date: self.purchase_date.clone(),
        }
    }
}

/// The values of a whole row sequence.
pub open spec fn models(s: Seq<DbResults>) -> Seq<RecordModel> {
    s.map_values(|r: DbResults| r@)
}

} // verus!
