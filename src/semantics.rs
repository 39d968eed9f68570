use vstd::prelude::*;
use crate::model::{ComparisonKind, FieldView, Multiplicity, RecordView};
use crate::query::{
    base_query, fits, predicate_of, predicates_upto, query_of, InputView, PredicateView,
    QueryView, ValueView,
};

verus! {

/// A stored record, as the text of each column by the column's name.
pub type Row = spec_fn(Seq<char>) -> Seq<char>;

/// Whether two characters are equal when ASCII letters are compared without
/// regard to case.
pub open spec fn same_char_ignoring_case(a: char, b: char) -> bool {
    a == b || ('A' <= a <= 'Z' && b as u32 == a as u32 + 32) || ('A' <= b <= 'Z' && a as u32
        == b as u32 + 32)
}

/// Whether two texts are equal when letters are compared without regard to case.
pub open spec fn equal_ignoring_case(s: Seq<char>, t: Seq<char>) -> bool {
    s.len() == t.len() && forall|i: int| 0 <= i < s.len() ==> same_char_ignoring_case(s[i], t[i])
}

/// Whether `needle` occurs in `hay` at some position.
pub open spec fn occurs_in(needle: Seq<char>, hay: Seq<char>) -> bool {
    exists|i: int| 0 <= i <= hay.len() - needle.len() && #[trigger] hay.subrange(i, i + needle.len()) == needle
}

/// Whether `needle` occurs in `hay`, letters compared without regard to case.
pub open spec fn occurs_in_ignoring_case(needle: Seq<char>, hay: Seq<char>) -> bool {
    exists|i: int|
        0 <= i <= hay.len() - needle.len() && equal_ignoring_case(
            #[trigger] hay.subrange(i, i + needle.len()),
            needle,
        )
}

/// Whether a column's text matches one supplied value under a comparison kind.
pub open spec fn value_matches(k: ComparisonKind, cell: Seq<char>, v: Seq<char>) -> bool {
    match k {
        ComparisonKind::Exact => cell == v,
        ComparisonKind::Substring => occurs_in(v, cell),
        ComparisonKind::ExactCaseInsensitive => equal_ignoring_case(cell, v),
        ComparisonKind::SubstringCaseInsensitive => occurs_in_ignoring_case(v, cell),
    }
}

/// Whether a column's text satisfies a predicate: it matches one of the values.
pub open spec fn predicate_holds_on(p: PredicateView, cell: Seq<char>) -> bool {
    exists|j: int| 0 <= j < p.operands.len() && value_matches(p.kind, cell, #[trigger] p.operands[j])
}

/// Whether a row satisfies a predicate.
pub open spec fn predicate_holds(p: PredicateView, row: Row) -> bool {
    predicate_holds_on(p, row(p.column))
}

/// Whether a row satisfies every predicate of a query.
pub open spec fn query_holds(q: QueryView, row: Row) -> bool {
    forall|k: int| 0 <= k < q.predicates.len() ==> predicate_holds(#[trigger] q.predicates[k], row)
}

/// Where no member of a filter input is present, the query it builds is the
/// unfiltered query over the record's table.
pub proof fn lemma_absent_members_add_nothing(r: RecordView, inp: InputView)
    requires
        fits(r, inp),
        forall|i: int| 0 <= i < inp.values.len() ==> #[trigger] inp.values[i] is None,
    ensures
        query_of(r, inp) == base_query(r, inp),
{
    lemma_absent_upto(r.fields, inp.values, inp.values.len() as int);
    assert(query_of(r, inp).predicates =~= base_query(r, inp).predicates);
}

proof fn lemma_absent_upto(fields: Seq<FieldView>, values: Seq<Option<ValueView>>, n: int)
    requires
        n <= values.len(),
        forall|i: int| 0 <= i < values.len() ==> #[trigger] values[i] is None,
    ensures
        predicates_upto(fields, values, n) == Seq::<PredicateView>::empty(),
    decreases n,
{
    if n > 0 {
        lemma_absent_upto(fields, values, n - 1);
    }
}

/// For a single-valued exact field, the predicate built from a value holds of a
/// row exactly when the row's column equals the value.
pub proof fn lemma_single_exact(f: FieldView, v: Seq<char>, row: Row)
    requires
        f.opts.multiplicity == Multiplicity::Single,
        f.opts.kind == ComparisonKind::Exact,
    ensures
        predicate_holds(predicate_of(f, ValueView::One(v)), row) <==> row(f.name) == v,
{
    let p = predicate_of(f, ValueView::One(v));
    if row(f.name) == v {
        assert(value_matches(p.kind, row(p.column), p.operands[0]));
    }
}

/// For a single-valued substring field, the predicate built from a value holds
/// of a row exactly when the value occurs, with case, in the row's column.
pub proof fn lemma_single_substring(f: FieldView, v: Seq<char>, row: Row)
    requires
        f.opts.multiplicity == Multiplicity::Single,
        f.opts.kind == ComparisonKind::Substring,
    ensures
        predicate_holds(predicate_of(f, ValueView::One(v)), row) <==> occurs_in(v, row(f.name)),
{
    let p = predicate_of(f, ValueView::One(v));
    if occurs_in(v, row(f.name)) {
        assert(value_matches(p.kind, row(p.column), p.operands[0]));
    }
}

/// For a many-valued exact field, the predicate built from two values holds of
/// a row exactly when the row's column equals one of them.
pub proof fn lemma_multiple_exact(f: FieldView, v1: Seq<char>, v2: Seq<char>, row: Row)
    requires
        f.opts.multiplicity == Multiplicity::Multiple,
        f.opts.kind == ComparisonKind::Exact,
    ensures
        predicate_holds(predicate_of(f, ValueView::Many(seq![v1, v2])), row) <==> (row(f.name)
            == v1 || row(f.name) == v2),
{
    let p = predicate_of(f, ValueView::Many(seq![v1, v2]));
    if row(f.name) == v1 {
        assert(value_matches(p.kind, row(p.column), p.operands[0]));
    }
    if row(f.name) == v2 {
        assert(value_matches(p.kind, row(p.column), p.operands[1]));
    }
}

/// A row satisfies the query that a filter input builds exactly when, for
/// every member that is present, it satisfies that member's predicate.
pub proof fn lemma_query_is_conjunction(r: RecordView, inp: InputView, row: Row)
    requires
        fits(r, inp),
    ensures
        query_holds(query_of(r, inp), row) <==> forall|i: int|
            0 <= i < inp.values.len() && (#[trigger] inp.values[i]) is Some ==> predicate_holds(
                predicate_of(r.fields[i], inp.values[i].unwrap()),
                row,
            ),
{
    let n = inp.values.len() as int;
    lemma_conjunction_upto(r.fields, inp.values, row, n);
    let ps = predicates_upto(r.fields, inp.values, n);
    assert(query_of(r, inp).predicates == ps);
    assert(query_holds(query_of(r, inp), row) <==> forall|k: int|
        0 <= k < ps.len() ==> predicate_holds(#[trigger] ps[k], row));
}

proof fn lemma_conjunction_upto(
    fields: Seq<FieldView>,
    values: Seq<Option<ValueView>>,
    row: Row,
    n: int,
)
    requires
        0 <= n <= values.len(),
    ensures
        (forall|k: int|
            0 <= k < predicates_upto(fields, values, n).len() ==> predicate_holds(
                #[trigger] predicates_upto(fields, values, n)[k],
                row,
            )) <==> forall|i: int|
            0 <= i < n && (#[trigger] values[i]) is Some ==> predicate_holds(
                predicate_of(fields[i], values[i].unwrap()),
                row,
            ),
    decreases n,
{
    if n > 0 {
        lemma_conjunction_upto(fields, values, row, n - 1);
        let rest = predicates_upto(fields, values, n - 1);
        let all = predicates_upto(fields, values, n);
        match values[n - 1] {
            Some(v) => {
                assert(all == rest.push(predicate_of(fields[n - 1], v)));
                assert(all[rest.len() as int] == predicate_of(fields[n - 1], v));
                assert forall|k: int| 0 <= k < rest.len() implies all[k] == rest[k] by {}
            },
            None => {},
        }
    }
}

/// The filtering part of a query does not depend on the paging members: two
/// inputs that differ at most in `page` and `per_page` build queries with the
/// same table and the same predicates, so a count of the matches ignores paging.
pub proof fn lemma_filter_ignores_paging(r: RecordView, a: InputView, b: InputView)
    requires
        a.values == b.values,
    ensures
        query_of(r, a).table == query_of(r, b).table,
        query_of(r, a).predicates == query_of(r, b).predicates,
{
}

} // verus!
