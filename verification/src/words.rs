//! The substitution dictionary: an ordered list of entries, each with a
//! sequence number that no other entry has.
//!
//! The order of the list is the order in which the caller handed the entries
//! over, and it is the order of priority when text is rewritten; the
//! sequence number only tells entries apart. A row whose number is already
//! in the dictionary takes the place of the entry that has it, at that
//! entry's position; any other row goes to the end.

use vstd::prelude::*;

verus! {

/// One row of the dictionary's tabular store.
#[derive(Debug)]
pub struct Words {
    /// The text to look for.
    pub before: String,
    /// The text that takes its place.
    pub after: String,
    /// The sequence number, which is the entry's key.
    pub ext: i32,
}

/// A row as plain values: original, replacement, sequence number.
pub type Row = (Seq<char>, Seq<char>, i32);

/// A dictionary as plain values: its rows in order of priority.
pub type Dict = Seq<Row>;

impl View for Words {
    type V = Row;

    open spec fn view(&self) -> Row {
        (self.before@, self.after@, self.ext)
    }
}

/// The rows of a list of records.
pub open spec fn rows_of(v: Seq<Words>) -> Seq<Row> {
    Seq::new(v.len(), |i: int| v[i]@)
}

/// The (original, replacement) pairs of a list of rows, in its order.
pub open spec fn row_pairs(rows: Seq<Row>) -> Seq<(Seq<char>, Seq<char>)> {
    Seq::new(rows.len(), |i: int| (rows[i].0, rows[i].1))
}

/// No sequence number belongs to two rows.
pub open spec fn distinct_numbers(d: Dict) -> bool {
    forall|i: int, j: int| 0 <= i < j < d.len() ==> (#[trigger] d[i]).2 != (#[trigger] d[j]).2
}

/// The position, from `from` on, of the first row with sequence number `k`;
/// the length of the list if there is none.
pub open spec fn place_from(d: Dict, k: i32, from: int) -> int
    decreases d.len() - from,
{
    if from < 0 || from >= d.len() {
        d.len() as int
    } else if d[from].2 == k {
        from
    } else {
        place_from(d, k, from + 1)
    }
}

/// The dictionary after one row was entered: the row stands where the entry
/// with its sequence number stood, or at the end if there was none.
pub open spec fn entered(d: Dict, row: Row) -> Dict {
    let at = place_from(d, row.2, 0);
    if at < d.len() {
        d.update(at, row)
    } else {
        d.push(row)
    }
}

/// The dictionary after the rows were entered one by one, in their order.
pub open spec fn loaded(d: Dict, rows: Seq<Row>) -> Dict
    decreases rows.len(),
{
    if rows.len() == 0 {
        d
    } else {
        entered(loaded(d, rows.drop_last()), rows.last())
    }
}

/// What [`place_from`] finds: the first position from `from` on whose row
/// has the sequence number.
pub proof fn lemma_place_from(d: Dict, k: i32, from: int)
    requires
        0 <= from <= d.len(),
    ensures
        from <= place_from(d, k, from) <= d.len(),
        place_from(d, k, from) < d.len() ==> d[place_from(d, k, from)].2 == k,
        forall|j: int| from <= j < place_from(d, k, from) ==> (#[trigger] d[j]).2 != k,
    decreases d.len() - from,
{
    if from < d.len() && d[from].2 != k {
        lemma_place_from(d, k, from + 1);
    }
}

/// Entering a row changes one place: every row with another sequence number
/// stays where it was, and the dictionary grows by one row exactly when the
/// number was not in it.
pub proof fn lemma_entered(d: Dict, row: Row)
    ensures
        forall|i: int| 0 <= i < d.len() && (#[trigger] d[i]).2 != row.2 ==> entered(d, row)[i] == d[i],
        entered(d, row)[place_from(d, row.2, 0)] == row,
        entered(d, row).len() == if place_from(d, row.2, 0) < d.len() {
            d.len()
        } else {
            d.len() + 1
        },
        distinct_numbers(d) ==> distinct_numbers(entered(d, row)),
{
    lemma_place_from(d, row.2, 0);
    let at = place_from(d, row.2, 0);
    let e = entered(d, row);
    if distinct_numbers(d) {
        assert forall|i: int, j: int| 0 <= i < j < e.len() implies (#[trigger] e[i]).2 != (
        #[trigger] e[j]).2 by {
            if at < d.len() {
                if i == at {
                    assert(d[at].2 != d[j].2);
                } else if j == at {
                    assert(d[i].2 != d[at].2);
                } else {
                    assert(d[i].2 != d[j].2);
                }
            } else {
                if j == d.len() {
                    assert(d[i].2 != row.2);
                } else {
                    assert(d[i].2 != d[j].2);
                }
            }
        }
    }
}

/// Entering rows keeps the sequence numbers distinct.
pub proof fn lemma_loaded_distinct(d: Dict, rows: Seq<Row>)
    requires
        distinct_numbers(d),
    ensures
        distinct_numbers(loaded(d, rows)),
    decreases rows.len(),
{
    if rows.len() > 0 {
        lemma_loaded_distinct(d, rows.drop_last());
        lemma_entered(loaded(d, rows.drop_last()), rows.last());
    }
}

/// Round trip: the rows of a dictionary, entered into an empty dictionary,
/// give the same rows in the same order.
pub proof fn lemma_rows_round_trip(d: Dict)
    requires
        distinct_numbers(d),
    ensures
        loaded(Seq::empty(), d) == d,
    decreases d.len(),
{
    if d.len() > 0 {
        let front = d.drop_last();
        assert forall|i: int, j: int| 0 <= i < j < front.len() implies (#[trigger] front[i]).2 != (
        #[trigger] front[j]).2 by {
            assert(d[i].2 != d[j].2);
        }
        lemma_rows_round_trip(front);
        lemma_place_from(front, d.last().2, 0);
        let at = place_from(front, d.last().2, 0);
        if at < front.len() {
            assert(d[at].2 != d[d.len() - 1].2);
        }
        assert(front.push(d.last()) =~= d);
    } else {
        assert(d =~= Seq::empty());
    }
}

/// The position of the first record with sequence number `k`; the length of
/// the list if there is none.
pub fn find_place(words: &Vec<Words>, k: i32) -> (r: usize)
    ensures
        r == place_from(rows_of(words@), k, 0),
{
    let mut i: usize = 0;
    while i < words.len()
        invariant
            i <= words@.len(),
            place_from(rows_of(words@), k, 0) == place_from(rows_of(words@), k, i as int),
        decreases words@.len() - i,
    {
        if words[i].ext == k {
            return i;
        }
        i = i + 1;
    }
    i
}

/// Enters the rows into the dictionary one by one, in their order.
pub fn enter_rows(words: &mut Vec<Words>, rows: &Vec<Words>)
    ensures
        rows_of(final(words)@) == loaded(rows_of(old(words)@), rows_of(rows@)),
{
    let mut i: usize = 0;
    proof {
        assert(rows_of(rows@).take(0) =~= Seq::empty());
    }
    while i < rows.len()
        invariant
            i <= rows@.len(),
            rows_of(words@) == loaded(rows_of(old(words)@), rows_of(rows@).take(i as int)),
        decreases rows@.len() - i,
    {
        let ghost before = rows_of(words@);
        let ghost upto = rows_of(rows@).take(i + 1);
        proof {
            assert(upto.drop_last() =~= rows_of(rows@).take(i as int));
            assert(upto.last() == rows@[i as int]@);
        }
        let row = Words {
            before: rows[i].before.clone(),
            after: rows[i].after.clone(),
            ext: rows[i].ext,
        };
        let at = find_place(words, row.ext);
        if at < words.len() {
            words[at] = row;
            proof {
                assert(rows_of(words@) =~= before.update(at as int, upto.last()));
            }
        } else {
            words.push(row);
            proof {
                assert(rows_of(words@) =~= before.push(upto.last()));
            }
        }
        i = i + 1;
    }
    proof {
        assert(rows_of(rows@).take(rows@.len() as int) =~= rows_of(rows@));
    }
}

/// A copy of the records, in their order.
pub fn copy_rows(rows: &Vec<Words>) -> (r: Vec<Words>)
    ensures
        rows_of(r@) == rows_of(rows@),
{
    let mut out: Vec<Words> = Vec::new();
    let mut i: usize = 0;
    while i < rows.len()
        invariant
            i <= rows@.len(),
            out@.len() == i,
            forall|j: int| 0 <= j < i ==> (#[trigger] out@[j])@ == rows@[j]@,
        decreases rows@.len() - i,
    {
        out.push(
            Words { before: rows[i].before.clone(), after: rows[i].after.clone(), ext: rows[i].ext },
        );
        i = i + 1;
    }
    proof {
        assert(rows_of(out@) =~= rows_of(rows@));
    }
    out
}

/// The (original, replacement) pairs of a list of rows, in its order.
pub fn entries_of(rows: &Vec<Words>) -> (r: Vec<(String, String)>)
    ensures
        crate::text::pairs(r@) == row_pairs(rows_of(rows@)),
{
    let mut out: Vec<(String, String)> = Vec::new();
    let mut i: usize = 0;
    while i < rows.len()
        invariant
            i <= rows@.len(),
            out@.len() == i,
            forall|j: int|
                0 <= j < i ==> (#[trigger] out@[j]).0@ == rows@[j].before@ && out@[j].1@
                    == rows@[j].after@,
        decreases rows@.len() - i,
    {
        out.push((rows[i].before.clone(), rows[i].after.clone()));
        i = i + 1;
    }
    proof {
        assert(crate::text::pairs(out@) =~= row_pairs(rows_of(rows@)));
    }
    out
}

} // verus!
