use vstd::prelude::*;
use crate::model::{ComparisonKind, FilterOpts, Multiplicity};

verus! {

/// Whether `k` is among the annotation keywords.
pub open spec fn has_keyword(kws: Seq<String>, k: Seq<char>) -> bool {
    exists|i: int| 0 <= i < kws.len() && #[trigger] kws[i]@ == k
}

/// The options that a set of annotation keywords stands for; unknown keywords
/// are ignored.
pub open spec fn opts_of(kws: Seq<String>) -> FilterOpts {
    let sub = has_keyword(kws, "substring"@);
    let ins = has_keyword(kws, "insensitive"@);
    FilterOpts {
        multiplicity: if has_keyword(kws, "multiple"@) {
            Multiplicity::Multiple
        } else {
            Multiplicity::Single
        },
        kind: if sub && ins {
            ComparisonKind::SubstringCaseInsensitive
        } else if sub {
            ComparisonKind::Substring
        } else if ins {
            ComparisonKind::ExactCaseInsensitive
        } else {
            ComparisonKind::Exact
        },
    }
}

/// Whether one of the keywords is `k`.
pub fn contains_keyword(kws: &Vec<String>, k: &str) -> (r: bool)
    ensures
        r == has_keyword(kws@, k@),
{
    let target = String::from_str(k);
    let mut i: usize = 0;
    while i < kws.len()
        invariant
            i <= kws.len(),
            target@ == k@,
            forall|j: int| 0 <= j < i ==> #[trigger] kws@[j]@ != k@,
        decreases kws.len() - i,
    {
        if kws[i] == target {
            return true;
        }
        i = i + 1;
    }
    false
}

/// Interprets the keywords of a filter annotation. The order of the keywords
/// does not matter, and unknown ones are ignored.
pub fn interpret(kws: &Vec<String>) -> (r: FilterOpts)
    ensures
        r == opts_of(kws@),
{
    let multiple = contains_keyword(kws, "multiple");
    let sub = contains_keyword(kws, "substring");
    let ins = contains_keyword(kws, "insensitive");
    let kind = if sub && ins {
        ComparisonKind::SubstringCaseInsensitive
    } else if sub {
        ComparisonKind::Substring
    } else if ins {
        ComparisonKind::ExactCaseInsensitive
    } else {
        ComparisonKind::Exact
    };
    FilterOpts {
        multiplicity: if multiple {
            Multiplicity::Multiple
        } else {
            Multiplicity::Single
        },
        kind,
    }
}

/// The options of a bare filter marker.
pub fn default_opts() -> (r: FilterOpts)
    ensures
        r == opts_of(Seq::empty()),
        r.multiplicity == Multiplicity::Single,
        r.kind == ComparisonKind::Exact,
{
    FilterOpts { multiplicity: Multiplicity::Single, kind: ComparisonKind::Exact }
}

/// The options of an annotation depend only on which keywords it holds, not
/// on their order or on how often each occurs.
pub proof fn lemma_keyword_order_irrelevant(a: Seq<String>, b: Seq<String>)
    requires
        forall|k: Seq<char>| has_keyword(a, k) <==> has_keyword(b, k),
    ensures
        opts_of(a) == opts_of(b),
{
    assert(has_keyword(a, "multiple"@) == has_keyword(b, "multiple"@));
    assert(has_keyword(a, "substring"@) == has_keyword(b, "substring"@));
    assert(has_keyword(a, "insensitive"@) == has_keyword(b, "insensitive"@));
}

} // verus!
