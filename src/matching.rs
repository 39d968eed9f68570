use vstd::prelude::*;
use vstd::string::*;
use crate::model::ComparisonKind;
use crate::query::{Predicate, Query};
use crate::semantics::{
    equal_ignoring_case, occurs_in, occurs_in_ignoring_case, predicate_holds_on, query_holds,
    same_char_ignoring_case, value_matches, Row,
};

verus! {

/// The text of a column in a stored record given as (column, text) pairs:
/// that of the first pair for the column, empty where there is none.
pub open spec fn cell_of(row: Seq<(String, String)>, column: Seq<char>) -> Seq<char>
    decreases row.len(),
{
    if row.len() == 0 {
        Seq::empty()
    } else if row[0].0@ == column {
        row[0].1@
    } else {
        cell_of(row.drop_first(), column)
    }
}

/// A stored record given as (column, text) pairs, as a row.
pub open spec fn row_of(row: Seq<(String, String)>) -> Row {
    |c: Seq<char>| cell_of(row, c)
}

/// The characters of a text.
fn chars_of(s: &str) -> (r: Vec<char>)
    ensures
        r@ == s@,
{
    let n = s.unicode_len();
    let mut r: Vec<char> = Vec::new();
    let mut i: usize = 0;
    while i < n
        invariant
            n == s@.len(),
            i <= n,
            r@ == s@.take(i as int),
        decreases n - i,
    {
        r.push(s.get_char(i));
        proof {
            assert(s@.take(i + 1) =~= s@.take(i as int).push(s@[i as int]));
        }
        i = i + 1;
    }
    proof {
        assert(s@.take(i as int) =~= s@);
    }
    r
}

/// Whether two characters are equal, ASCII letters compared without case.
fn same_char(a: char, b: char) -> (r: bool)
    ensures
        r == same_char_ignoring_case(a, b),
{
    a == b || ('A' <= a && a <= 'Z' && (b as u32) == (a as u32) + 32) || ('A' <= b && b <= 'Z'
        && (a as u32) == (b as u32) + 32)
}

/// Whether `n` stands in `h` at position `i`, with or without regard to case.
fn stands_at(h: &Vec<char>, n: &Vec<char>, i: usize, ignore_case: bool) -> (r: bool)
    requires
        i + n@.len() <= h@.len(),
    ensures
        ignore_case ==> r == equal_ignoring_case(h@.subrange(i as int, i + n@.len()), n@),
        !ignore_case ==> r == (h@.subrange(i as int, i + n@.len()) == n@),
{
    let ghost sub = h@.subrange(i as int, i + n@.len());
    let hl = h.len();
    let mut j: usize = 0;
    while j < n.len()
        invariant
            hl == h@.len(),
            i + n@.len() <= h@.len(),
            sub == h@.subrange(i as int, i + n@.len()),
            j <= n@.len(),
            ignore_case ==> forall|k: int| 0 <= k < j ==> same_char_ignoring_case(sub[k], n@[k]),
            !ignore_case ==> forall|k: int| 0 <= k < j ==> sub[k] == n@[k],
        decreases n@.len() - j,
    {
        let ok = if ignore_case {
            same_char(h[i + j], n[j])
        } else {
            h[i + j] == n[j]
        };
        if !ok {
            proof {
                assert(sub[j as int] == h@[i + j]);
                if !ignore_case {
                    assert(sub[j as int] != n@[j as int]);
                }
            }
            return false;
        }
        j = j + 1;
    }
    proof {
        if !ignore_case {
            assert(sub =~= n@);
        }
    }
    true
}

/// Whether `n` occurs in `h`, with or without regard to case.
fn occurs(h: &Vec<char>, n: &Vec<char>, ignore_case: bool) -> (r: bool)
    ensures
        ignore_case ==> r == occurs_in_ignoring_case(n@, h@),
        !ignore_case ==> r == occurs_in(n@, h@),
{
    if n.len() > h.len() {
        return false;
    }
    let last = h.len() - n.len();
    let mut i: usize = 0;
    while i <= last
        invariant
            last == h@.len() - n@.len(),
            i <= last + 1,
            ignore_case ==> forall|k: int|
                0 <= k < i ==> !equal_ignoring_case(#[trigger] h@.subrange(k, k + n@.len()), n@),
            !ignore_case ==> forall|k: int|
                0 <= k < i ==> #[trigger] h@.subrange(k, k + n@.len()) != n@,
        decreases last + 1 - i,
    {
        if stands_at(h, n, i, ignore_case) {
            return true;
        }
        if i == last {
            return false;
        }
        i = i + 1;
    }
    false
}

/// Whether a column's text matches one supplied value under a comparison kind.
pub fn matches_value(kind: ComparisonKind, cell: &str, v: &str) -> (r: bool)
    ensures
        r == value_matches(kind, cell@, v@),
{
    let h = chars_of(cell);
    let n = chars_of(v);
    match kind {
        ComparisonKind::Exact => {
            if h.len() != n.len() {
                return false;
            }
            let r = stands_at(&h, &n, 0, false);
            proof {
                assert(h@.subrange(0, n@.len() as int) =~= h@);
            }
            r
        },
        ComparisonKind::ExactCaseInsensitive => {
            if h.len() != n.len() {
                return false;
            }
            let r = stands_at(&h, &n, 0, true);
            proof {
                assert(h@.subrange(0, n@.len() as int) =~= h@);
            }
            r
        },
        ComparisonKind::Substring => occurs(&h, &n, false),
        ComparisonKind::SubstringCaseInsensitive => occurs(&h, &n, true),
    }
}

/// The text of a column in a stored record, empty where it has none.
pub fn lookup(row: &Vec<(String, String)>, column: &str) -> (r: String)
    ensures
        r@ == cell_of(row@, column@),
{
    let mut i: usize = 0;
    proof {
        assert(row@.subrange(0, row@.len() as int) =~= row@);
    }
    while i < row.len()
        invariant
            i <= row@.len(),
            cell_of(row@, column@) == cell_of(row@.subrange(i as int, row@.len() as int), column@),
        decreases row@.len() - i,
    {
        proof {
            let rest = row@.subrange(i as int, row@.len() as int);
            assert(rest.drop_first() =~= row@.subrange(i + 1, row@.len() as int));
            assert(rest[0] == row@[i as int]);
        }
        if matches_value(ComparisonKind::Exact, row[i].0.as_str(), column) {
            return row[i].1.clone();
        }
        i = i + 1;
    }
    String::new()
}

impl Predicate {
    /// Whether a column's text satisfies this predicate.
    pub fn matches(&self, cell: &str) -> (r: bool)
        ensures
            r == predicate_holds_on(self@, cell@),
    {
        let mut j: usize = 0;
        while j < self.operands.len()
            invariant
                j <= self.operands@.len(),
                self@.operands.len() == self.operands@.len(),
                forall|k: int| 0 <= k < j ==> !value_matches(self.kind, cell@, #[trigger] self@.operands[k]),
            decreases self.operands@.len() - j,
        {
            if matches_value(self.kind, cell, self.operands[j].as_str()) {
                proof {
                    assert(self@.operands[j as int] == self.operands@[j as int]@);
                }
                return true;
            }
            j = j + 1;
        }
        false
    }
}

impl Query {
    /// Whether a stored record, given as (column, text) pairs, satisfies every
    /// predicate of this query.
    pub fn matches(&self, row: &Vec<(String, String)>) -> (r: bool)
        ensures
            r == query_holds(self@, row_of(row@)),
    {
        let mut k: usize = 0;
        while k < self.predicates.len()
            invariant
                k <= self.predicates@.len(),
                self@.predicates.len() == self.predicates@.len(),
                forall|m: int|
                    0 <= m < k ==> predicate_holds_on(
                        #[trigger] self@.predicates[m],
                        cell_of(row@, self@.predicates[m].column),
                    ),
            decreases self.predicates@.len() - k,
        {
            let p = &self.predicates[k];
            let cell = lookup(row, p.column.as_str());
            proof {
                assert(self@.predicates[k as int] == p@);
            }
            if !p.matches(cell.as_str()) {
                return false;
            }
            k = k + 1;
        }
        true
    }
}

} // verus!
