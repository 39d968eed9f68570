use diesel_filter::collect::collect;
use diesel_filter::matching::{lookup, matches_value};
use diesel_filter::model::{ComparisonKind, FieldDecl, RecordDescriptor};
use diesel_filter::query::{build_query, FilterInput, FilterValue, Predicate, DEFAULT_PER_PAGE};

fn s(x: &str) -> String {
    x.to_string()
}

fn pred(kind: ComparisonKind, any: bool, operands: &[&str]) -> Predicate {
    Predicate { column: s("f"), kind, any, operands: operands.iter().map(|o| s(o)).collect() }
}

fn row(pairs: &[(&str, &str)]) -> Vec<(String, String)> {
    pairs.iter().map(|(c, v)| (s(c), s(v))).collect()
}

fn field(name: &str, ann: &[&str]) -> FieldDecl {
    FieldDecl {
        name: s(name),
        type_path: Some(s("String")),
        annotation: Some(ann.iter().map(|a| s(a)).collect()),
    }
}

#[test]
fn single_exact_matches_only_equal_values() {
    let p = pred(ComparisonKind::Exact, false, &["ann"]);
    assert!(p.matches("ann"));
    assert!(!p.matches("anna"));
    assert!(!p.matches("joann"));
    assert!(!p.matches("Ann"));
    assert!(!p.matches(""));
}

#[test]
fn single_substring_matches_anywhere_with_case() {
    let p = pred(ComparisonKind::Substring, false, &["ann"]);
    assert!(p.matches("ann"));
    assert!(p.matches("joanna"));
    assert!(p.matches("hann"));
    assert!(!p.matches("ANN"));
    assert!(!p.matches("an"));
    let empty = pred(ComparisonKind::Substring, false, &[""]);
    assert!(empty.matches(""));
    assert!(empty.matches("x"));
}

#[test]
fn multiple_exact_matches_any_value() {
    let p = pred(ComparisonKind::Exact, true, &["red", "blue"]);
    assert!(p.matches("red"));
    assert!(p.matches("blue"));
    assert!(!p.matches("green"));
    assert!(!p.matches("reds"));
    let none = pred(ComparisonKind::Exact, true, &[]);
    assert!(!none.matches("red"));
}

#[test]
fn insensitive_kinds_ignore_letter_case() {
    let p = pred(ComparisonKind::ExactCaseInsensitive, false, &["Ann"]);
    assert!(p.matches("aNN"));
    assert!(!p.matches("anne"));
    let q = pred(ComparisonKind::SubstringCaseInsensitive, false, &["ann"]);
    assert!(q.matches("JOANNA"));
    assert!(!q.matches("jo-an-na"));
}

#[test]
fn matches_value_per_kind() {
    assert!(matches_value(ComparisonKind::Exact, "abc", "abc"));
    assert!(!matches_value(ComparisonKind::Exact, "abc", "ab"));
    assert!(matches_value(ComparisonKind::Substring, "abc", "bc"));
    assert!(!matches_value(ComparisonKind::Substring, "ab", "abc"));
    assert!(matches_value(ComparisonKind::ExactCaseInsensitive, "ABC", "abc"));
    assert!(matches_value(ComparisonKind::SubstringCaseInsensitive, "xABCx", "bc"));
}

#[test]
fn lookup_takes_the_first_pair_for_a_column() {
    let r = row(&[("a", "1"), ("b", "2"), ("a", "3")]);
    assert_eq!(lookup(&r, "a"), "1");
    assert_eq!(lookup(&r, "b"), "2");
    assert_eq!(lookup(&r, "c"), "");
}

#[test]
fn user_example_end_to_end() {
    let desc = RecordDescriptor {
        record_name: s("User"),
        storage_name: Some(s("users")),
        pagination: true,
        fields: vec![
            field("name", &["substring", "insensitive"]),
            field("tags", &["multiple"]),
            FieldDecl { name: s("id"), type_path: Some(s("Uuid")), annotation: Some(vec![]) },
        ],
    };
    let rec = collect(&desc).ok().unwrap();
    let inp = FilterInput {
        values: vec![Some(FilterValue::One(s("ann"))), None, None],
        page: None,
        per_page: None,
    };
    let q = build_query(&rec, &inp);
    assert!(q.matches(&row(&[("name", "Joanna"), ("tags", "x"), ("id", "1")])));
    assert!(q.matches(&row(&[("name", "ANN"), ("tags", "y"), ("id", "2")])));
    assert!(!q.matches(&row(&[("name", "Bob"), ("tags", "ann"), ("id", "ann")])));
    let paging = q.paging.unwrap();
    assert_eq!(paging.page, 1);
    assert_eq!(paging.per_page, DEFAULT_PER_PAGE);
}

#[test]
fn query_is_a_conjunction_of_present_members() {
    let desc = RecordDescriptor {
        record_name: s("Item"),
        storage_name: Some(s("items")),
        pagination: false,
        fields: vec![field("name", &["substring"]), field("color", &["multiple"])],
    };
    let rec = collect(&desc).ok().unwrap();
    let inp = FilterInput {
        values: vec![
            Some(FilterValue::One(s("ch"))),
            Some(FilterValue::Many(vec![s("red"), s("blue")])),
        ],
        page: None,
        per_page: None,
    };
    let q = build_query(&rec, &inp);
    assert!(q.matches(&row(&[("name", "chair"), ("color", "red")])));
    assert!(q.matches(&row(&[("name", "couch"), ("color", "blue")])));
    assert!(!q.matches(&row(&[("name", "chair"), ("color", "green")])));
    assert!(!q.matches(&row(&[("name", "table"), ("color", "red")])));
    let none = FilterInput { values: vec![None, None], page: None, per_page: None };
    assert!(build_query(&rec, &none).matches(&row(&[("name", "table")])));
}

#[test]
fn parameters_wrap_only_substring_values() {
    let p = pred(ComparisonKind::SubstringCaseInsensitive, true, &["a", "b%"]);
    assert_eq!(p.parameters(), vec![s("%a%"), s("%b%%")]);
    let p = pred(ComparisonKind::Substring, false, &["ann"]);
    assert_eq!(p.parameters(), vec![s("%ann%")]);
    let p = pred(ComparisonKind::ExactCaseInsensitive, false, &["ann"]);
    assert_eq!(p.parameters(), vec![s("ann")]);
    assert_eq!(p.column, "f");
}
