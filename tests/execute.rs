use diesel_filter::collect::collect;
use diesel_filter::execute::run;
use diesel_filter::model::{FieldDecl, RecordDescriptor};
use diesel_filter::query::{build_query, FilterInput, FilterValue, Paging, Predicate, Query};
use diesel_filter::model::ComparisonKind;

fn s(x: &str) -> String {
    x.to_string()
}

fn people(names: &[&str]) -> Vec<Vec<(String, String)>> {
    names.iter().map(|n| vec![(s("name"), s(n))]).collect()
}

fn name_query(paging: Option<Paging>) -> Query {
    Query {
        table: s("users"),
        predicates: vec![Predicate {
            column: s("name"),
            kind: ComparisonKind::SubstringCaseInsensitive,
            any: false,
            operands: vec![s("ann")],
        }],
        paging,
    }
}

const NAMES: [&str; 7] = ["Ann", "Bob", "Joanna", "Hannah", "Eve", "ANNE", "Dianne"];

#[test]
fn run_without_paging_returns_every_match() {
    let (page, count) = run(&name_query(None), &people(&NAMES));
    assert_eq!(page, vec![0, 2, 3, 5, 6]);
    assert_eq!(count, 5);
}

#[test]
fn run_returns_the_page_and_the_full_count() {
    let q = name_query(Some(Paging { page: 1, per_page: 2 }));
    let (page, count) = run(&q, &people(&NAMES));
    assert_eq!(page, vec![0, 2]);
    assert_eq!(count, 5);
    let q = name_query(Some(Paging { page: 2, per_page: 2 }));
    assert_eq!(run(&q, &people(&NAMES)), (vec![3, 5], 5));
    let q = name_query(Some(Paging { page: 3, per_page: 2 }));
    assert_eq!(run(&q, &people(&NAMES)), (vec![6], 5));
    let q = name_query(Some(Paging { page: 4, per_page: 2 }));
    assert_eq!(run(&q, &people(&NAMES)), (vec![], 5));
}

#[test]
fn run_clamps_odd_page_requests() {
    let q = name_query(Some(Paging { page: 0, per_page: 3 }));
    assert_eq!(run(&q, &people(&NAMES)), (vec![0, 2, 3], 5));
    let q = name_query(Some(Paging { page: 1, per_page: -4 }));
    assert_eq!(run(&q, &people(&NAMES)), (vec![], 5));
    let q = name_query(Some(Paging { page: i64::MAX, per_page: i64::MAX }));
    assert_eq!(run(&q, &people(&NAMES)), (vec![], 5));
}

#[test]
fn run_on_no_rows() {
    assert_eq!(run(&name_query(None), &vec![]), (vec![], 0));
}

#[test]
fn paged_record_counts_all_matches_on_the_default_page() {
    let desc = RecordDescriptor {
        record_name: s("User"),
        storage_name: Some(s("users")),
        pagination: true,
        fields: vec![FieldDecl {
            name: s("name"),
            type_path: Some(s("String")),
            annotation: Some(vec![s("substring"), s("insensitive")]),
        }],
    };
    let rec = collect(&desc).ok().unwrap();
    let inp = FilterInput {
        values: vec![Some(FilterValue::One(s("ann")))],
        page: None,
        per_page: None,
    };
    let (page, count) = run(&build_query(&rec, &inp), &people(&NAMES));
    assert_eq!(page, vec![0, 2, 3, 5, 6]);
    assert_eq!(count, 5);
    let inp = FilterInput {
        values: vec![Some(FilterValue::One(s("ann")))],
        page: Some(2),
        per_page: Some(3),
    };
    assert_eq!(run(&build_query(&rec, &inp), &people(&NAMES)), (vec![5, 6], 5));
}

