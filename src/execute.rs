use vstd::prelude::*;
use crate::matching::row_of;
use crate::query::{query_of, InputView, Paging, Query, QueryView};
use crate::model::RecordView;
use crate::semantics::query_holds;

verus! {

/// A stored record given as (column, text) pairs.
pub type Pairs = Seq<(String, String)>;

/// The page number used, pages counted from one: a number below one asks
/// for the first page.
pub open spec fn page_number(p: Paging) -> int {
    if p.page < 1 {
        1
    } else {
        p.page as int
    }
}

/// The page size used: a negative size asks for empty pages.
pub open spec fn page_size(p: Paging) -> int {
    if p.per_page < 0 {
        0
    } else {
        p.per_page as int
    }
}

/// The rank of the first match on the page.
pub open spec fn page_start(p: Paging) -> int {
    (page_number(p) - 1) * page_size(p)
}

/// Whether the match of the given rank, counted from zero, is on the page.
pub open spec fn on_page(paging: Option<Paging>, rank: int) -> bool {
    match paging {
        None => true,
        Some(p) => page_start(p) <= rank < page_start(p) + page_size(p),
    }
}

/// How many of the first `n` rows satisfy a query.
pub open spec fn count_upto(q: QueryView, rows: Seq<Pairs>, n: int) -> nat
    decreases n,
{
    if n <= 0 {
        0
    } else {
        count_upto(q, rows, n - 1) + if query_holds(q, row_of(rows[n - 1])) {
            1nat
        } else {
            0nat
        }
    }
}

/// The positions, among the first `n` rows, of the matches on the query's page.
pub open spec fn selected_upto(q: QueryView, rows: Seq<Pairs>, n: int) -> Seq<usize>
    decreases n,
{
    if n <= 0 {
        Seq::empty()
    } else {
        let rest = selected_upto(q, rows, n - 1);
        if query_holds(q, row_of(rows[n - 1])) && on_page(q.paging, count_upto(q, rows, n - 1) as int) {
            rest.push((n - 1) as usize)
        } else {
            rest
        }
    }
}

/// Runs a query over stored rows: the positions of the matching rows on the
/// query's page (all matching rows where it has no page), in order, and the
/// number of all matching rows, whatever the page.
pub fn run(q: &Query, rows: &Vec<Vec<(String, String)>>) -> (r: (Vec<usize>, usize))
    ensures
        r.0@ == selected_upto(q@, rows@.map_values(|v: Vec<(String, String)>| v@), rows@.len() as int),
        r.1 == count_upto(q@, rows@.map_values(|v: Vec<(String, String)>| v@), rows@.len() as int),
{
    let ghost rs = rows@.map_values(|v: Vec<(String, String)>| v@);
    let (start, size): (i128, i128) = match q.paging {
        None => (0, 0),
        Some(p) => {
            let page: i128 = if p.page < 1 {
                1
            } else {
                p.page as i128
            };
            let size: i128 = if p.per_page < 0 {
                0
            } else {
                p.per_page as i128
            };
            assert(0 <= (page - 1) * size <= 0x7fff_ffff_ffff_ffffi128 * 0x7fff_ffff_ffff_ffffi128)
                by (nonlinear_arith)
                requires
                    1 <= page <= 0x7fff_ffff_ffff_ffff,
                    0 <= size <= 0x7fff_ffff_ffff_ffff,
            ;
            ((page - 1) * size, size)
        },
    };
    let mut selected: Vec<usize> = Vec::new();
    let mut count: usize = 0;
    let mut i: usize = 0;
    while i < rows.len()
        invariant
            i <= rows@.len(),
            rs == rows@.map_values(|v: Vec<(String, String)>| v@),
            count == count_upto(q@, rs, i as int),
            count <= i,
            selected@ == selected_upto(q@, rs, i as int),
            q@.paging matches Some(p) ==> start == page_start(p) && size == page_size(p),
            0 <= start <= 0x7fff_ffff_ffff_ffffi128 * 0x7fff_ffff_ffff_ffffi128,
            0 <= size <= 0x7fff_ffff_ffff_ffff,
        decreases rows@.len() - i,
    {
        proof {
            assert(rs[i as int] == rows@[i as int]@);
        }
        if q.matches(&rows[i]) {
            let on = match q.paging {
                None => true,
                Some(_) => start <= count as i128 && (count as i128) < start + size,
            };
            if on {
                selected.push(i);
            }
            count = count + 1;
        }
        i = i + 1;
    }
    (selected, count)
}

/// The number of matches that a filter input's query finds does not depend on
/// the paging members: it counts every row that satisfies the predicates.
pub proof fn lemma_count_ignores_paging(r: RecordView, a: InputView, b: InputView, rows: Seq<Pairs>)
    requires
        a.values == b.values,
    ensures
        count_upto(query_of(r, a), rows, rows.len() as int) == count_upto(
            query_of(r, b),
            rows,
            rows.len() as int,
        ),
{
    lemma_count_same_predicates(query_of(r, a), query_of(r, b), rows, rows.len() as int);
}

proof fn lemma_count_same_predicates(q1: QueryView, q2: QueryView, rows: Seq<Pairs>, n: int)
    requires
        q1.predicates == q2.predicates,
    ensures
        count_upto(q1, rows, n) == count_upto(q2, rows, n),
    decreases n,
{
    if n > 0 {
        lemma_count_same_predicates(q1, q2, rows, n - 1);
    }
}

/// A page holds the matches whose rank falls on it: as many as the page size,
/// fewer where not enough rows match; without a page, every match.
pub proof fn lemma_page_is_bounded(q: QueryView, rows: Seq<Pairs>, n: int)
    requires
        0 <= n,
    ensures
        q.paging is None ==> selected_upto(q, rows, n).len() == count_upto(q, rows, n),
        q.paging matches Some(p) ==> selected_upto(q, rows, n).len() == clamp(
            count_upto(q, rows, n) as int,
            page_start(p),
            page_start(p) + page_size(p),
        ) - page_start(p),
        q.paging matches Some(p) ==> selected_upto(q, rows, n).len() <= page_size(p),
    decreases n,
{
    if n > 0 {
        lemma_page_is_bounded(q, rows, n - 1);
    }
    if let Some(p) = q.paging {
        assert(0 <= page_start(p)) by (nonlinear_arith)
            requires
                page_number(p) >= 1,
                page_size(p) >= 0,
                page_start(p) == (page_number(p) - 1) * page_size(p),
        ;
    }
}

/// `x` held between `lo` and `hi`.
pub open spec fn clamp(x: int, lo: int, hi: int) -> int {
    if x < lo {
        lo
    } else if x > hi {
        hi
    } else {
        x
    }
}

} // verus!
