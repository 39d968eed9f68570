use vstd::prelude::*;
use crate::model::{ComparisonKind, FieldView, FilterField, Multiplicity, Record, RecordView};

verus! {

/// The page shown where a paged query names none.
pub const DEFAULT_PAGE: i64 = 1;

/// The page size used where a paged query names none.
pub const DEFAULT_PER_PAGE: i64 = 10;

/// The operator through which a filter field is compared.
#[derive(PartialEq, Eq, Structural, Clone, Copy, Debug)]
pub enum Operator {
    /// Equality.
    Eq,
    /// Case-sensitive pattern match.
    Like,
    /// Case-insensitive pattern match.
    ILike,
}

/// How the query for a filter field is built: the operator, whether it is
/// matched against any of a list of values, and whether each supplied value
/// is wrapped in wildcards.
#[derive(PartialEq, Eq, Structural, Clone, Copy, Debug)]
pub struct PredicateRule {
    pub op: Operator,
    pub any: bool,
    pub wrap: bool,
}

/// The operator of a comparison kind.
pub open spec fn operator_of(k: ComparisonKind) -> Operator {
    match k {
        ComparisonKind::Exact => Operator::Eq,
        ComparisonKind::Substring => Operator::Like,
        ComparisonKind::ExactCaseInsensitive => Operator::ILike,
        ComparisonKind::SubstringCaseInsensitive => Operator::ILike,
    }
}

/// Whether a comparison kind matches substrings.
pub open spec fn is_substring(k: ComparisonKind) -> bool {
    k == ComparisonKind::Substring || k == ComparisonKind::SubstringCaseInsensitive
}

/// The rule for a filter field's predicate: its operator follows the
/// comparison kind, it matches any of a list exactly for a many-valued field,
/// and supplied values are wrapped in wildcards exactly for substring kinds.
pub open spec fn rule_of(f: FieldView) -> PredicateRule {
    PredicateRule {
        op: operator_of(f.opts.kind),
        any: f.opts.multiplicity == Multiplicity::Multiple,
        wrap: is_substring(f.opts.kind),
    }
}

/// The rule for building a filter field's predicate.
pub fn predicate_rule(f: &FilterField) -> (r: PredicateRule)
    ensures
        r == rule_of(f@),
{
    let op = match f.opts.kind {
        ComparisonKind::Exact => Operator::Eq,
        ComparisonKind::Substring => Operator::Like,
        ComparisonKind::ExactCaseInsensitive => Operator::ILike,
        ComparisonKind::SubstringCaseInsensitive => Operator::ILike,
    };
    let wrap = match f.opts.kind {
        ComparisonKind::Substring => true,
        ComparisonKind::SubstringCaseInsensitive => true,
        _ => false,
    };
    let any = match f.opts.multiplicity {
        Multiplicity::Multiple => true,
        Multiplicity::Single => false,
    };
    PredicateRule { op, any, wrap }
}

/// A supplied value wrapped in wildcards on both sides.
pub fn wildcard(v: &str) -> (r: String)
    ensures
        r@ == "%"@ + v@ + "%"@,
{
    String::from_str("%").concat(v).concat("%")
}

// ---- values of a filter input ----

/// The value supplied for one member of a filter input.
pub enum FilterValue {
    One(String),
    Many(Vec<String>),
}

/// What a supplied value stands for.
pub enum ValueView {
    One(Seq<char>),
    Many(Seq<Seq<char>>),
}

/// The views of a list of strings.
pub open spec fn strings_view(v: Seq<String>) -> Seq<Seq<char>> {
    v.map_values(|s: String| s@)
}

impl View for FilterValue {
    type V = ValueView;

    open spec fn view(&self) -> ValueView {
        match self {
            FilterValue::One(s) => ValueView::One(s@),
            FilterValue::Many(v) => ValueView::Many(strings_view(v@)),
        }
    }
}

/// A value of a record's filter input: one optional value per filter field,
/// in order, and the optional paging members.
pub struct FilterInput {
    pub values: Vec<Option<FilterValue>>,
    pub page: Option<i64>,
    pub per_page: Option<i64>,
}

/// What a filter input stands for.
pub struct InputView {
    pub values: Seq<Option<ValueView>>,
    pub page: Option<i64>,
    pub per_page: Option<i64>,
}

impl View for FilterInput {
    type V = InputView;

    open spec fn view(&self) -> InputView {
        InputView {
            values: self.values@.map_values(
                |o: Option<FilterValue>|
                    match o {
                        Some(v) => Some(v@),
                        None => None,
                    },
            ),
            page: self.page,
            per_page: self.per_page,
        }
    }
}

/// Whether a filter input has the shape of a record's filter input type: one
/// member per filter field, a list exactly where the field takes several values.
pub open spec fn fits(r: RecordView, inp: InputView) -> bool {
    &&& inp.values.len() == r.fields.len()
    &&& forall|i: int|
        0 <= i < inp.values.len() && (#[trigger] inp.values[i]) is Some ==> ((inp.values[i].unwrap() is Many)
            <==> r.fields[i].opts.multiplicity == Multiplicity::Multiple)
}

// ---- queries ----

/// One predicate of a query: the column, how it is compared, and the supplied
/// values, of which the column must match one.
pub struct Predicate {
    pub column: String,
    pub kind: ComparisonKind,
    pub any: bool,
    pub operands: Vec<String>,
}

/// What a predicate stands for.
pub struct PredicateView {
    pub column: Seq<char>,
    pub kind: ComparisonKind,
    pub any: bool,
    pub operands: Seq<Seq<char>>,
}

impl View for Predicate {
    type V = PredicateView;

    open spec fn view(&self) -> PredicateView {
        PredicateView {
            column: self.column@,
            kind: self.kind,
            any: self.any,
            operands: strings_view(self.operands@),
        }
    }
}

/// The parameter that a supplied value is bound as: wrapped in wildcards for
/// substring kinds, as it is otherwise.
pub open spec fn parameter_of(k: ComparisonKind, v: Seq<char>) -> Seq<char> {
    if is_substring(k) {
        "%"@ + v + "%"@
    } else {
        v
    }
}

impl Predicate {
    /// The parameters bound for this predicate's values, in order. Only the
    /// supplied values are wrapped; the column and operator are never part of
    /// a parameter.
    pub fn parameters(&self) -> (r: Vec<String>)
        ensures
            r@.len() == self.operands@.len(),
            forall|i: int|
                0 <= i < r@.len() ==> #[trigger] r@[i]@ == parameter_of(
                    self.kind,
                    self.operands@[i]@,
                ),
    {
        let wrap = match self.kind {
            ComparisonKind::Substring => true,
            ComparisonKind::SubstringCaseInsensitive => true,
            _ => false,
        };
        let mut r: Vec<String> = Vec::new();
        let mut i: usize = 0;
        while i < self.operands.len()
            invariant
                i <= self.operands@.len(),
                r@.len() == i,
                wrap == is_substring(self.kind),
                forall|j: int|
                    0 <= j < i ==> #[trigger] r@[j]@ == parameter_of(self.kind, self.operands@[j]@),
            decreases self.operands@.len() - i,
        {
            if wrap {
                r.push(wildcard(self.operands[i].as_str()));
            } else {
                r.push(self.operands[i].clone());
            }
            i = i + 1;
        }
        r
    }
}

/// The page of a paged query.
#[derive(PartialEq, Eq, Structural, Clone, Copy, Debug)]
pub struct Paging {
    pub page: i64,
    pub per_page: i64,
}

/// A query over one table: the conjunction of its predicates, and the page
/// asked for where the record is paged.
pub struct Query {
    pub table: String,
    pub predicates: Vec<Predicate>,
    pub paging: Option<Paging>,
}

/// What a query stands for.
pub struct QueryView {
    pub table: Seq<char>,
    pub predicates: Seq<PredicateView>,
    pub paging: Option<Paging>,
}

impl View for Query {
    type V = QueryView;

    open spec fn view(&self) -> QueryView {
        QueryView {
            table: self.table@,
            predicates: self.predicates@.map_values(|p: Predicate| p@),
            paging: self.paging,
        }
    }
}

/// The predicate that a supplied value gives for a filter field.
pub open spec fn predicate_of(f: FieldView, v: ValueView) -> PredicateView {
    PredicateView {
        column: f.name,
        kind: f.opts.kind,
        any: f.opts.multiplicity == Multiplicity::Multiple,
        operands: match v {
            ValueView::One(s) => seq![s],
            ValueView::Many(vs) => vs,
        },
    }
}

/// The predicates for the first `n` members of a filter input, in order.
pub open spec fn predicates_upto(
    fields: Seq<FieldView>,
    values: Seq<Option<ValueView>>,
    n: int,
) -> Seq<PredicateView>
    decreases n,
{
    if n <= 0 {
        Seq::empty()
    } else {
        let rest = predicates_upto(fields, values, n - 1);
        match values[n - 1] {
            Some(v) => rest.push(predicate_of(fields[n - 1], v)),
            None => rest,
        }
    }
}

/// The page that a filter input asks for, where the record is paged.
pub open spec fn paging_of(r: RecordView, inp: InputView) -> Option<Paging> {
    if r.pagination {
        Some(
            Paging {
                page: match inp.page {
                    Some(p) => p,
                    None => DEFAULT_PAGE,
                },
                per_page: match inp.per_page {
                    Some(p) => p,
                    None => DEFAULT_PER_PAGE,
                },
            },
        )
    } else {
        None
    }
}

/// The unfiltered query over a record's table.
pub open spec fn base_query(r: RecordView, inp: InputView) -> QueryView {
    QueryView { table: r.storage_name, predicates: Seq::empty(), paging: paging_of(r, inp) }
}

/// The query that a filter input builds.
pub open spec fn query_of(r: RecordView, inp: InputView) -> QueryView {
    QueryView {
        table: r.storage_name,
        predicates: predicates_upto(r.fields, inp.values, inp.values.len() as int),
        paging: paging_of(r, inp),
    }
}

/// A copy of a list of strings.
fn copy_strings(v: &Vec<String>) -> (r: Vec<String>)
    ensures
        strings_view(r@) == strings_view(v@),
{
    let mut r: Vec<String> = Vec::new();
    let mut i: usize = 0;
    while i < v.len()
        invariant
            i <= v.len(),
            strings_view(r@) == strings_view(v@.take(i as int)),
        decreases v.len() - i,
    {
        let ghost before = r@;
        r.push(v[i].clone());
        proof {
            assert(strings_view(r@) =~= strings_view(before).push(v@[i as int]@));
            assert(strings_view(v@.take(i + 1)) =~= strings_view(v@.take(i as int)).push(
                v@[i as int]@,
            ));
        }
        i = i + 1;
    }
    proof {
        assert(v@.take(i as int) =~= v@);
    }
    r
}

/// Builds the query that a filter input asks for: the unfiltered query over
/// the record's table, with one predicate for each member that is present,
/// in order, and the page asked for where the record is paged.
pub fn build_query(rec: &Record, inp: &FilterInput) -> (q: Query)
    requires
        fits(rec@, inp@),
    ensures
        q@ == query_of(rec@, inp@),
{
    let mut predicates: Vec<Predicate> = Vec::new();
    let mut i: usize = 0;
    while i < inp.values.len()
        invariant
            i <= inp.values.len(),
            fits(rec@, inp@),
            predicates@.map_values(|p: Predicate| p@) == predicates_upto(
                rec@.fields,
                inp@.values,
                i as int,
            ),
        decreases inp.values.len() - i,
    {
        let ghost before = predicates@;
        match &inp.values[i] {
            None => {},
            Some(v) => {
                let f = &rec.fields[i];
                let operands = match v {
                    FilterValue::One(s) => {
                        let ops = vec![s.clone()];
                        proof {
                            assert(strings_view(ops@) =~= seq![s@]);
                        }
                        ops
                    },
                    FilterValue::Many(vs) => copy_strings(vs),
                };
                let any = match f.opts.multiplicity {
                    Multiplicity::Multiple => true,
                    Multiplicity::Single => false,
                };
                let p = Predicate { column: f.name.clone(), kind: f.opts.kind, any, operands };
                proof {
                    assert(rec@.fields[i as int] == f@);
                    assert(inp@.values[i as int] == Some(v@));
                    assert(p@ == predicate_of(f@, v@));
                }
                predicates.push(p);
                proof {
                    assert(predicates@.map_values(|p: Predicate| p@) =~= before.map_values(
                        |p: Predicate| p@,
                    ).push(p@));
                }
            },
        }
        i = i + 1;
    }
    let paging = if rec.pagination {
        Some(
            Paging {
                page: match inp.page {
                    Some(p) => p,
                    None => DEFAULT_PAGE,
                },
                per_page: match inp.per_page {
                    Some(p) => p,
                    None => DEFAULT_PER_PAGE,
                },
            },
        )
    } else {
        None
    };
    Query { table: rec.storage_name.clone(), predicates, paging }
}

} // verus!
