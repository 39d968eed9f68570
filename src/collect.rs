use vstd::prelude::*;
use crate::model::{FieldDecl, FieldView, FilterField, GenError, Record, RecordDescriptor};
use crate::classify::{category_of, classify};
use crate::annotation::{default_opts, interpret, opts_of};

verus! {

/// Whether a declared field carries a filter annotation.
pub open spec fn is_annotated(d: FieldDecl) -> bool {
    d.annotation is Some
}

/// Whether a declared field is annotated but its type is no plain type path.
pub open spec fn is_unsupported(d: FieldDecl) -> bool {
    d.annotation is Some && d.type_path is None
}

/// The filter field that an annotated declaration with a type path stands for.
pub open spec fn field_view_of(d: FieldDecl) -> FieldView {
    FieldView {
        name: d.name@,
        category: category_of(d.type_path.unwrap()@),
        opts: opts_of(d.annotation.unwrap()@),
    }
}

/// The filter fields of a declared field list, in declaration order.
pub open spec fn filter_fields(ds: Seq<FieldDecl>) -> Seq<FieldView>
    decreases ds.len(),
{
    if ds.len() == 0 {
        Seq::empty()
    } else {
        let rest = filter_fields(ds.drop_last());
        if is_annotated(ds.last()) {
            rest.push(field_view_of(ds.last()))
        } else {
            rest
        }
    }
}

/// Whether the `i`th declared field is the first unsupported one.
pub open spec fn first_unsupported(ds: Seq<FieldDecl>, i: int) -> bool {
    0 <= i < ds.len() && is_unsupported(ds[i]) && forall|j: int|
        0 <= j < i ==> !is_unsupported(#[trigger] ds[j])
}

/// Whether some declared field is unsupported.
pub open spec fn has_unsupported(ds: Seq<FieldDecl>) -> bool {
    exists|i: int| 0 <= i < ds.len() && is_unsupported(#[trigger] ds[i])
}

/// What collecting the filter fields of a record description gives: in this
/// order of precedence, an error where the storage name is missing, an error
/// naming the first annotated field whose type is no plain type path, an error
/// where no field is annotated, and otherwise the record with its filter fields
/// in declaration order.
pub open spec fn collects_to(desc: RecordDescriptor, r: Result<Record, GenError>) -> bool {
    &&& desc.storage_name is None <==> (r matches Err(GenError::MissingStorageName { .. }))
    &&& r matches Err(GenError::MissingStorageName { record }) ==> record@ == desc.record_name@
    &&& (desc.storage_name is Some && has_unsupported(desc.fields@)) <==> (r matches Err(
        GenError::UnsupportedType { .. },
    ))
    &&& r matches Err(GenError::UnsupportedType { field }) ==> exists|i: int|
        first_unsupported(desc.fields@, i) && field@ == desc.fields@[i].name@
    &&& (desc.storage_name is Some && !has_unsupported(desc.fields@) && filter_fields(
        desc.fields@,
    ).len() == 0) <==> (r matches Err(GenError::NoFilterFields { .. }))
    &&& r matches Err(GenError::NoFilterFields { record }) ==> record@ == desc.record_name@
    &&& r matches Ok(rec) ==> {
        &&& rec@.record_name == desc.record_name@
        &&& rec@.storage_name == desc.storage_name.unwrap()@
        &&& rec@.pagination == desc.pagination
        &&& rec@.fields == filter_fields(desc.fields@)
    }
}

/// Collects the filter fields of a record description.
pub fn collect(desc: &RecordDescriptor) -> (r: Result<Record, GenError>)
    ensures
        collects_to(*desc, r),
{
    let storage = match &desc.storage_name {
        Some(s) => s.clone(),
        None => {
            return Err(GenError::MissingStorageName { record: desc.record_name.clone() });
        },
    };
    let mut fields: Vec<FilterField> = Vec::new();
    let mut i: usize = 0;
    while i < desc.fields.len()
        invariant
            i <= desc.fields.len(),
            desc.storage_name is Some,
            forall|j: int| 0 <= j < i ==> !is_unsupported(#[trigger] desc.fields@[j]),
            fields@.map_values(|f: FilterField| f@) == filter_fields(desc.fields@.take(i as int)),
        decreases desc.fields.len() - i,
    {
        let d = &desc.fields[i];
        proof {
            assert(desc.fields@.take(i + 1).drop_last() == desc.fields@.take(i as int));
        }
        match &d.annotation {
            None => {},
            Some(kws) => {
                match &d.type_path {
                    None => {
                        proof {
                            assert(first_unsupported(desc.fields@, i as int));
                        }
                        return Err(GenError::UnsupportedType { field: d.name.clone() });
                    },
                    Some(tp) => {
                        let opts = if kws.len() == 0 {
                            proof {
                                assert(kws@ == Seq::<String>::empty());
                            }
                            default_opts()
                        } else {
                            interpret(kws)
                        };
                        let f = FilterField { name: d.name.clone(), category: classify(tp.as_str()), opts };
                        fields.push(f);
                        proof {
                            assert(fields@.map_values(|f: FilterField| f@) =~= filter_fields(
                                desc.fields@.take(i as int),
                            ).push(field_view_of(*d)));
                        }
                    },
                }
            },
        }
        i = i + 1;
    }
    proof {
        assert(desc.fields@.take(i as int) == desc.fields@);
    }
    if fields.len() == 0 {
        return Err(GenError::NoFilterFields { record: desc.record_name.clone() });
    }
    Ok(Record {
        record_name: desc.record_name.clone(),
        storage_name: storage,
        pagination: desc.pagination,
        fields,
    })
}

} // verus!
