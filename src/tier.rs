use vstd::prelude::*;
use crate::amount::{Amount, ATTOS_PER_UNIT};

verus! {

/// One row of the tier table: a case-sensitive tier name and its price.
#[derive(Debug)]
pub struct Tier {
    pub name: String,
    pub price: Amount,
}

/// Why a tier cannot be bought.
#[derive(Clone, Copy, Debug, PartialEq, Eq, Structural)]
pub enum QuoteError {
    /// The tier name is not in the table.
    InvalidTier,
    /// The offered amount is below the tier's price.
    InsufficientPayment,
}

/// The fixed mapping from tier name to price, filled once at construction.
#[derive(Debug)]
pub struct TierTable {
    rows: Vec<Tier>,
}

/// The rows of a table as (name, price) pairs.
pub open spec fn rows_view(rows: Seq<Tier>) -> Seq<(Seq<char>, Amount)> {
    rows.map_values(|t: Tier| (t.name@, t.price))
}

/// No two rows carry the same name.
pub open spec fn names_distinct(rows: Seq<(Seq<char>, Amount)>) -> bool {
    forall|i: int, j: int|
        0 <= i < rows.len() && 0 <= j < rows.len() && i != j ==> #[trigger] rows[i].0 != #[trigger] rows[j].0
}

/// Whether `name` is a row of the table.
pub open spec fn has_tier(rows: Seq<(Seq<char>, Amount)>, name: Seq<char>) -> bool {
    exists|i: int| 0 <= i < rows.len() && #[trigger] rows[i].0 == name
}

/// The price of tier `name`; meaningful where `has_tier(rows, name)`.
pub open spec fn price_of(rows: Seq<(Seq<char>, Amount)>, name: Seq<char>) -> Amount {
    rows[choose|i: int| 0 <= i < rows.len() && #[trigger] rows[i].0 == name].1
}

/// The outcome owed for an offer of `offered` towards tier `name`.
pub open spec fn quote_spec(rows: Seq<(Seq<char>, Amount)>, name: Seq<char>, offered: int) -> Result<Amount, QuoteError> {
    if !has_tier(rows, name) {
        Err(QuoteError::InvalidTier)
    } else if offered < price_of(rows, name).value() {
        Err(QuoteError::InsufficientPayment)
    } else {
        Ok(price_of(rows, name))
    }
}

/// The name and price of each row of the standard table, in whole units.
pub open spec fn standard_rows() -> Seq<(Seq<char>, Amount)> {
    seq![
        ("common"@, Amount { attos: (8 * ATTOS_PER_UNIT) as u128 }),
        ("rare"@, Amount { attos: (15 * ATTOS_PER_UNIT) as u128 }),
        ("epic"@, Amount { attos: (25 * ATTOS_PER_UNIT) as u128 }),
    ]
}

impl View for TierTable {
    type V = Seq<(Seq<char>, Amount)>;

    closed spec fn view(&self) -> Seq<(Seq<char>, Amount)> {
        rows_view(self.rows@)
    }
}

impl TierTable {
    /// The table's invariant: tier names are unique.
    pub open spec fn wf(&self) -> bool {
        names_distinct(self@)
    }

    /// The table of the standard offering: common at 8, rare at 15, epic at 25.
    pub fn standard() -> (t: TierTable)
        ensures
            t.wf(),
            t@ == standard_rows(),
    {
        let mut rows: Vec<Tier> = Vec::new();
        rows.push(Tier { name: "common".to_owned(), price: Amount::whole(8) });
        rows.push(Tier { name: "rare".to_owned(), price: Amount::whole(15) });
        rows.push(Tier { name: "epic".to_owned(), price: Amount::whole(25) });
        let t = TierTable { rows };
        proof {
            reveal_strlit("common");
            reveal_strlit("rare");
            reveal_strlit("epic");
            assert(t@ =~= standard_rows());
            assert("common"@[0] != "rare"@[0]);
            assert("common"@[0] != "epic"@[0]);
            assert("rare"@[0] != "epic"@[0]);
        }
        t
    }

    /// Number of tiers.
    pub fn len(&self) -> (n: usize)
        ensures
            n == self@.len(),
    {
        self.rows.len()
    }

    /// Looks up the price of tier `name` and checks it against `offered`:
    /// the price where the tier exists and `offered` covers it, otherwise the
    /// reason it cannot be bought.
    pub fn quote(&self, name: &String, offered: &Amount) -> (r: Result<Amount, QuoteError>)
        requires
            self.wf(),
        ensures
            r == quote_spec(self@, name@, offered.value()),
    {
        let mut i: usize = 0;
        while i < self.rows.len()
            invariant
                i <= self.rows@.len(),
                self.wf(),
                self@ == rows_view(self.rows@),
                forall|j: int| 0 <= j < i ==> #[trigger] self@[j].0 != name@,
            decreases self.rows@.len() - i,
        {
            let row = &self.rows[i];
            if row.name == *name {
                proof {
                    assert(self@[i as int].0 == name@);
                    let c = choose|k: int| 0 <= k < self@.len() && #[trigger] self@[k].0 == name@;
                    assert(c == i);
                }
                if offered.covers(&row.price) {
                    return Ok(row.price);
                } else {
                    return Err(QuoteError::InsufficientPayment);
                }
            }
            i = i + 1;
        }
        Err(QuoteError::InvalidTier)
    }
}

} // verus!
