use vstd::prelude::*;
use crate::model::{GenError, Record, RecordDescriptor};
use crate::collect::{collect, collects_to};
use crate::shape::{shape_members, synthesize, FilterInputShape, Member};
use crate::query::{predicate_rule, rule_of, PredicateRule};

verus! {

/// Everything generated for one record: the collected record, the shape of
/// its filter input type, and the rule of each filter field's predicate.
pub struct Generated {
    pub record: Record,
    pub shape: FilterInputShape,
    pub rules: Vec<PredicateRule>,
}

/// Compiles a record description: collects its filter fields, synthesizes the
/// shape of its filter input type and the rule of each field's predicate.
pub fn filter(desc: &RecordDescriptor) -> (r: Result<Generated, GenError>)
    ensures
        match r {
            Err(e) => collects_to(*desc, Err(e)),
            Ok(g) => {
                &&& collects_to(*desc, Ok(g.record))
                &&& g.shape.input_name@ == g.record@.record_name + "Filters"@
                &&& g.shape.members@.map_values(|m: Member| m@) == shape_members(g.record@)
                &&& g.rules@.len() == g.record@.fields.len()
                &&& forall|i: int|
                    0 <= i < g.rules@.len() ==> #[trigger] g.rules@[i] == rule_of(
                        g.record@.fields[i],
                    )
            },
        },
{
    let record = match collect(desc) {
        Ok(rec) => rec,
        Err(e) => {
            return Err(e);
        },
    };
    let shape = synthesize(&record);
    let mut rules: Vec<PredicateRule> = Vec::new();
    let mut i: usize = 0;
    while i < record.fields.len()
        invariant
            i <= record.fields.len(),
            rules@.len() == i,
            forall|j: int| 0 <= j < i ==> #[trigger] rules@[j] == rule_of(record@.fields[j]),
        decreases record.fields.len() - i,
    {
        rules.push(predicate_rule(&record.fields[i]));
        i = i + 1;
    }
    Ok(Generated { record, shape, rules })
}

} // verus!
