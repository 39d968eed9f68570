use vstd::prelude::*;

verus! {

/// The category of value that a filter field holds.
pub enum ValueCategory {
    /// Plain text.
    Text,
    /// A UUID-shaped identifier.
    Identifier,
    /// Any other type, passed through under its own name.
    Foreign(String),
}

/// What a value category stands for.
pub enum CategoryView {
    Text,
    Identifier,
    Foreign(Seq<char>),
}

impl View for ValueCategory {
    type V = CategoryView;

    open spec fn view(&self) -> CategoryView {
        match self {
            ValueCategory::Text => CategoryView::Text,
            ValueCategory::Identifier => CategoryView::Identifier,
            ValueCategory::Foreign(n) => CategoryView::Foreign(n@),
        }
    }
}

impl ValueCategory {
    /// A copy of this category.
    pub fn copy(&self) -> (r: ValueCategory)
        ensures
            r == *self,
    {
        match self {
            ValueCategory::Text => ValueCategory::Text,
            ValueCategory::Identifier => ValueCategory::Identifier,
            ValueCategory::Foreign(n) => ValueCategory::Foreign(n.clone()),
        }
    }
}

/// How a supplied value is compared with a record's value.
#[derive(PartialEq, Eq, Structural, Clone, Copy, Debug)]
pub enum ComparisonKind {
    Exact,
    Substring,
    ExactCaseInsensitive,
    SubstringCaseInsensitive,
}

/// Whether a filter takes one value or a list of candidate values.
#[derive(PartialEq, Eq, Structural, Clone, Copy, Debug)]
pub enum Multiplicity {
    Single,
    Multiple,
}

/// The options of one filter annotation.
#[derive(PartialEq, Eq, Structural, Clone, Copy, Debug)]
pub struct FilterOpts {
    pub multiplicity: Multiplicity,
    pub kind: ComparisonKind,
}

/// One field of a record as declared, before interpretation.
pub struct FieldDecl {
    pub name: String,
    /// The declared type as written, or `None` where it is no plain type path.
    pub type_path: Option<String>,
    /// The keywords of the field's filter annotation; `None` where the field
    /// carries no filter annotation, an empty list for a bare marker.
    pub annotation: Option<Vec<String>>,
}

/// A record as declared: the input of the generator.
pub struct RecordDescriptor {
    pub record_name: String,
    pub storage_name: Option<String>,
    pub pagination: bool,
    pub fields: Vec<FieldDecl>,
}

/// One field made available for filtering.
pub struct FilterField {
    pub name: String,
    pub category: ValueCategory,
    pub opts: FilterOpts,
}

/// What a filter field stands for.
pub struct FieldView {
    pub name: Seq<char>,
    pub category: CategoryView,
    pub opts: FilterOpts,
}

impl View for FilterField {
    type V = FieldView;

    open spec fn view(&self) -> FieldView {
        FieldView { name: self.name@, category: self.category@, opts: self.opts }
    }
}

/// A record whose filter fields have been collected.
pub struct Record {
    pub record_name: String,
    pub storage_name: String,
    pub pagination: bool,
    pub fields: Vec<FilterField>,
}

/// What a collected record stands for.
pub struct RecordView {
    pub record_name: Seq<char>,
    pub storage_name: Seq<char>,
    pub pagination: bool,
    pub fields: Seq<FieldView>,
}

impl View for Record {
    type V = RecordView;

    open spec fn view(&self) -> RecordView {
        RecordView {
            record_name: self.record_name@,
            storage_name: self.storage_name@,
            pagination: self.pagination,
            fields: self.fields@.map_values(|f: FilterField| f@),
        }
    }
}

/// Why a record description cannot be compiled.
pub enum GenError {
    /// The record names no storage table.
    MissingStorageName { record: String },
    /// An annotated field's type is no plain type path.
    UnsupportedType { field: String },
    /// No field of the record carries a filter annotation.
    NoFilterFields { record: String },
}

impl GenError {
    /// A diagnostic that names the offending record or field.
    pub fn message(&self) -> (r: String)
        ensures
            self matches GenError::MissingStorageName { record } ==> r@ == "record `"@ + record@
                + "`: missing storage identifier, please provide #[diesel(table_name = ...)]"@,
            self matches GenError::UnsupportedType { field } ==> r@ == "field `"@ + field@
                + "`: this type is not supported"@,
            self matches GenError::NoFilterFields { record } ==> r@ == "record `"@ + record@
                + "`: no filterable fields, please annotate at least one field with #[filter]"@,
    {
        match self {
            GenError::MissingStorageName { record } => {
                let s = String::from_str("record `").concat(record.as_str());
                s.concat("`: missing storage identifier, please provide #[diesel(table_name = ...)]")
            },
            GenError::UnsupportedType { field } => {
                let s = String::from_str("field `").concat(field.as_str());
                s.concat("`: this type is not supported")
            },
            GenError::NoFilterFields { record } => {
                let s = String::from_str("record `").concat(record.as_str());
                s.concat("`: no filterable fields, please annotate at least one field with #[filter]")
            },
        }
    }
}

} // verus!
