//! Extraction plan assembly: for every field, where its value comes from and
//! what happens when the column is missing.

use crate::policy::NamingPolicy;
use crate::record::{
    FieldDescription, FieldSpec, Generics, GenericsSpec, RecordDescription, RecordSpec,
};
use crate::resolve::{column_name, spec_column_name};
use vstd::prelude::*;

verus! {

/// How one field of the record is extracted from a row.
#[derive(Clone, Debug, PartialEq, Eq)]
pub struct FieldPlan {
    /// The field's identifier.
    pub field: String,
    /// The resolved column name.
    pub column: String,
    /// The path of the custom decoder that is called with the column name and
    /// the row; `None` for a direct typed lookup of the column.
    pub decoder: Option<String>,
    /// Whether a missing column gives the field type's default value.
    pub use_default: bool,
}

/// The mathematical content of a [`FieldPlan`].
pub ghost struct FieldPlanSpec {
    pub field: Seq<char>,
    pub column: Seq<char>,
    pub decoder: Option<Seq<char>>,
    pub use_default: bool,
}

impl View for FieldPlan {
    type V = FieldPlanSpec;

    open spec fn view(&self) -> FieldPlanSpec {
        FieldPlanSpec {
            field: self.field@,
            column: self.column@,
            decoder: self.decoder.deep_view(),
            use_default: self.use_default,
        }
    }
}

impl DeepView for FieldPlan {
    type V = FieldPlanSpec;

    open spec fn deep_view(&self) -> FieldPlanSpec {
        self@
    }
}

/// How a whole record is extracted: its fields' plans in declaration order,
/// and what the routine's header needs.
#[derive(Clone, Debug, PartialEq, Eq)]
pub struct ExtractionPlan {
    pub record_name: String,
    pub generics: Generics,
    pub engine: String,
    pub fields: Vec<FieldPlan>,
}

/// The mathematical content of an [`ExtractionPlan`].
pub ghost struct PlanSpec {
    pub record_name: Seq<char>,
    pub generics: GenericsSpec,
    pub engine: Seq<char>,
    pub fields: Seq<FieldPlanSpec>,
}

impl View for ExtractionPlan {
    type V = PlanSpec;

    open spec fn view(&self) -> PlanSpec {
        PlanSpec {
            record_name: self.record_name@,
            generics: self.generics@,
            engine: self.engine@,
            fields: self.fields.deep_view(),
        }
    }
}

/// The plan of one field under the container's policy.
pub open spec fn spec_plan_field(field: FieldSpec, policy: Option<NamingPolicy>) -> FieldPlanSpec {
    FieldPlanSpec {
        field: field.name,
        column: spec_column_name(field, policy),
        decoder: field.decoder,
        use_default: field.use_default,
    }
}

/// The plan of a record: one plan per field, in declaration order.
pub open spec fn spec_assemble(record: RecordSpec) -> PlanSpec {
    PlanSpec {
        record_name: record.record_name,
        generics: record.generics,
        engine: record.engine,
        fields: Seq::new(
            record.fields.len(),
            |i: int| spec_plan_field(record.fields[i], record.policy),
        ),
    }
}

/// Plans the extraction of one field.
pub fn plan_field(field: &FieldDescription, policy: Option<NamingPolicy>) -> (plan: FieldPlan)
    ensures
        plan@ == spec_plan_field(field@, policy),
{
    let decoder = match &field.decoder {
        Some(path) => Some(path.clone()),
        None => None,
    };
    FieldPlan {
        field: field.name.clone(),
        column: column_name(field, policy),
        decoder,
        use_default: field.use_default,
    }
}

/// Plans the extraction of a record. Fields are neither reordered, merged
/// nor checked against each other: two fields may resolve to one column.
pub fn assemble(record: &RecordDescription) -> (plan: ExtractionPlan)
    ensures
        plan@ == spec_assemble(record@),
{
    let mut fields: Vec<FieldPlan> = Vec::new();
    let mut i: usize = 0;
    while i < record.fields.len()
        invariant
            i <= record.fields.len(),
            fields.len() == i,
            forall|j: int|
                0 <= j < i ==> (#[trigger] fields[j])@ == spec_plan_field(
                    record.fields[j]@,
                    record.policy,
                ),
        decreases record.fields.len() - i,
    {
        let planned = plan_field(&record.fields[i], record.policy);
        fields.push(planned);
        i += 1;
    }
    proof {
        assert(fields.deep_view() =~= spec_assemble(record@).fields);
    }
    ExtractionPlan {
        record_name: record.record_name.clone(),
        generics: Generics {
            impl_params: record.generics.impl_params.clone(),
            type_args: record.generics.type_args.clone(),
            where_clause: record.generics.where_clause.clone(),
        },
        engine: record.engine.clone(),
        fields,
    }
}

/// The plan has one entry per field, in declaration order, each for the
/// field of the same position.
pub proof fn lemma_plan_keeps_declaration_order(record: RecordSpec)
    ensures
        spec_assemble(record).fields.len() == record.fields.len(),
        forall|i: int|
            0 <= i < record.fields.len() ==> (#[trigger] spec_assemble(record).fields[i]).field
                == record.fields[i].name,
{
}

} // verus!
