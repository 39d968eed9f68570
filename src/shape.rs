use vstd::prelude::*;
use crate::model::{CategoryView, FieldView, FilterField, Multiplicity, Record, RecordView, ValueCategory};

verus! {

/// The type of one member of a filter input; every member is optional.
pub enum MemberType {
    /// One optional value of the category.
    Value(ValueCategory),
    /// An optional list of values of the category.
    List(ValueCategory),
    /// An optional integer, for paging.
    Int,
}

/// What a member type stands for.
pub enum MemberTypeView {
    Value(CategoryView),
    List(CategoryView),
    Int,
}

impl View for MemberType {
    type V = MemberTypeView;

    open spec fn view(&self) -> MemberTypeView {
        match self {
            MemberType::Value(c) => MemberTypeView::Value(c@),
            MemberType::List(c) => MemberTypeView::List(c@),
            MemberType::Int => MemberTypeView::Int,
        }
    }
}

/// One member of a filter input type.
pub struct Member {
    pub name: String,
    pub ty: MemberType,
}

/// What a member stands for.
pub struct MemberView {
    pub name: Seq<char>,
    pub ty: MemberTypeView,
}

impl View for Member {
    type V = MemberView;

    open spec fn view(&self) -> MemberView {
        MemberView { name: self.name@, ty: self.ty@ }
    }
}

/// The shape of the filter input type of a record.
pub struct FilterInputShape {
    pub input_name: String,
    pub members: Vec<Member>,
}

/// The member that a filter field gives.
pub open spec fn member_of(f: FieldView) -> MemberView {
    MemberView {
        name: f.name,
        ty: if f.opts.multiplicity == Multiplicity::Multiple {
            MemberTypeView::List(f.category)
        } else {
            MemberTypeView::Value(f.category)
        },
    }
}

/// The two paging members.
pub open spec fn paging_members() -> Seq<MemberView> {
    seq![
        MemberView { name: "page"@, ty: MemberTypeView::Int },
        MemberView { name: "per_page"@, ty: MemberTypeView::Int },
    ]
}

/// The members of a record's filter input: one per filter field, in order,
/// then the paging members where paging is enabled.
pub open spec fn shape_members(r: RecordView) -> Seq<MemberView> {
    r.fields.map_values(|f: FieldView| member_of(f)) + if r.pagination {
        paging_members()
    } else {
        Seq::empty()
    }
}

/// Synthesizes the shape of a record's filter input type.
pub fn synthesize(rec: &Record) -> (r: FilterInputShape)
    ensures
        r.input_name@ == rec@.record_name + "Filters"@,
        r.members@.map_values(|m: Member| m@) == shape_members(rec@),
{
    let mut members: Vec<Member> = Vec::new();
    let mut i: usize = 0;
    while i < rec.fields.len()
        invariant
            i <= rec.fields.len(),
            members@.map_values(|m: Member| m@) == rec@.fields.take(i as int).map_values(
                |f: FieldView| member_of(f),
            ),
        decreases rec.fields.len() - i,
    {
        let f: &FilterField = &rec.fields[i];
        let ty = match f.opts.multiplicity {
            Multiplicity::Multiple => MemberType::List(f.category.copy()),
            Multiplicity::Single => MemberType::Value(f.category.copy()),
        };
        let ghost old_members = members@;
        let m = Member { name: f.name.clone(), ty };
        assert(m@ == member_of(f@));
        members.push(m);
        proof {
            assert(rec@.fields[i as int] == f@);
            assert(members@ == old_members.push(m));
            assert(members@.map_values(|m: Member| m@) =~= old_members.map_values(|m: Member| m@).push(
                m@,
            ));
            assert(rec@.fields.take(i + 1).map_values(|f: FieldView| member_of(f)) =~= rec@.fields.take(
                i as int,
            ).map_values(|f: FieldView| member_of(f)).push(member_of(f@)));
            assert(rec@.fields.take(i + 1) =~= rec@.fields.take(i as int).push(f@));
            assert(members@.map_values(|m: Member| m@) =~= rec@.fields.take(i + 1).map_values(
                |f: FieldView| member_of(f),
            ));
        }
        i = i + 1;
    }
    proof {
        assert(rec@.fields.take(i as int) =~= rec@.fields);
    }
    if rec.pagination {
        members.push(Member { name: String::from_str("page"), ty: MemberType::Int });
        members.push(Member { name: String::from_str("per_page"), ty: MemberType::Int });
    }
    proof {
        assert(members@.map_values(|m: Member| m@) =~= shape_members(rec@));
    }
    FilterInputShape { input_name: rec.record_name.clone().concat("Filters"), members }
}

/// A record's filter input has exactly one member per filter field, in
/// declaration order, with the field's name, an optional list where the field
/// takes several values and an optional value otherwise; after them come
/// exactly the optional integers `page` and `per_page` where paging is enabled,
/// and nothing else.
pub proof fn lemma_shape_follows_fields(r: RecordView)
    ensures
        shape_members(r).len() == r.fields.len() + if r.pagination {
            2int
        } else {
            0int
        },
        forall|i: int|
            0 <= i < r.fields.len() ==> {
                &&& (#[trigger] shape_members(r)[i]).name == r.fields[i].name
                &&& r.fields[i].opts.multiplicity == Multiplicity::Multiple ==> shape_members(r)[i].ty
                    == MemberTypeView::List(r.fields[i].category)
                &&& r.fields[i].opts.multiplicity == Multiplicity::Single ==> shape_members(r)[i].ty
                    == MemberTypeView::Value(r.fields[i].category)
            },
        r.pagination ==> {
            &&& shape_members(r)[r.fields.len() as int].name == "page"@
            &&& shape_members(r)[r.fields.len() as int].ty == MemberTypeView::Int
            &&& shape_members(r)[r.fields.len() as int + 1].name == "per_page"@
            &&& shape_members(r)[r.fields.len() as int + 1].ty == MemberTypeView::Int
        },
{
}

} // verus!
