//! From a declaration to its decoding routine in one step.

use crate::decode::{spec_request, RequestSpec};
use crate::emit::{routine_text, spec_routine_text};
use crate::normalize::{normalize, spec_normalize};
use crate::plan::{assemble, spec_assemble};
use crate::record::{
    GenerationError, GenerationErrorSpec, RawRecord, RawRecordSpec, RecordSpec,
};
use crate::well_formed::{
    lemma_description_reflects_declaration, spec_field_reflects, spec_well_formed,
};
use vstd::prelude::*;

verus! {

/// The routine made for a declaration: the text that carries out the plan of
/// the description it normalises to, or the first fault in the declaration.
pub open spec fn spec_expand_derive(raw: RawRecordSpec) -> Result<Seq<char>, GenerationErrorSpec> {
    match spec_normalize(raw) {
        Err(e) => Err(e),
        Ok(record) => Ok(spec_routine_text(spec_assemble(record))),
    }
}

/// Makes the decoding routine for a declaration: normalises it, plans the
/// extraction of every field, and writes the routine. A fault in the
/// declaration ends the work, and then nothing is written. A routine is
/// written exactly for the declarations that are free of faults.
pub fn expand_derive(raw: &RawRecord) -> (out: Result<String, GenerationError>)
    ensures
        match out {
            Ok(text) => spec_expand_derive(raw@) == Ok::<Seq<char>, GenerationErrorSpec>(text@),
            Err(e) => spec_expand_derive(raw@) == Err::<Seq<char>, GenerationErrorSpec>(e@),
        },
        out is Ok <==> spec_well_formed(raw@),
{
    match normalize(raw) {
        Err(e) => Err(e),
        Ok(record) => {
            let plan = assemble(&record);
            Ok(routine_text(&plan))
        },
    }
}

/// The plan has one entry per declared field, in declaration order, each
/// under the identifier of the field at its position.
pub proof fn lemma_plan_follows_the_declaration(raw: RawRecordSpec, record: RecordSpec)
    requires
        spec_normalize(raw) == Ok::<RecordSpec, GenerationErrorSpec>(record),
    ensures
        spec_assemble(record).fields.len() == raw.fields.len(),
        forall|i: int|
            0 <= i < raw.fields.len() ==> (#[trigger] spec_assemble(record).fields[i]).field
                == raw.fields[i].name,
{
    lemma_description_reflects_declaration(raw, record);
    assert forall|i: int| 0 <= i < raw.fields.len() implies (#[trigger] spec_assemble(
        record,
    ).fields[i]).field == raw.fields[i].name by {
        assert(raw.fields[i].name == record.fields[i].name);
    }
}

/// Identity law: in a record whose container has no `rename_all`, every
/// field without a `rename` is read from the column named exactly as the
/// field.
pub proof fn lemma_unconfigured_names_are_kept(raw: RawRecordSpec, record: RecordSpec)
    requires
        spec_normalize(raw) == Ok::<RecordSpec, GenerationErrorSpec>(record),
        forall|a: int|
            0 <= a < raw.annotations.len() ==> (#[trigger] raw.annotations[a]).key
                != "rename_all"@,
    ensures
        forall|i: int|
            #![trigger raw.fields[i]]
            0 <= i < raw.fields.len() && (forall|j: int|
                0 <= j < raw.fields[i].annotations.len() ==> (
                #[trigger] raw.fields[i].annotations[j]).key != "rename"@) ==> spec_assemble(
                record,
            ).fields[i].column == raw.fields[i].name,
{
    lemma_description_reflects_declaration(raw, record);
    assert(record.policy is None);
    assert forall|i: int|
        #![trigger raw.fields[i]]
        0 <= i < raw.fields.len() && (forall|j: int|
            0 <= j < raw.fields[i].annotations.len() ==> (
            #[trigger] raw.fields[i].annotations[j]).key != "rename"@) implies spec_assemble(
        record,
    ).fields[i].column == raw.fields[i].name by {
        assert(spec_field_reflects(raw.fields[i], record.fields[i]));
        assert(record.fields[i].rename is None);
    }
}

/// An explicit rename wins: a field with a `rename` annotation is read from
/// the column named by the annotation's value, whatever the container's
/// `rename_all` says.
pub proof fn lemma_rename_annotation_wins(raw: RawRecordSpec, record: RecordSpec, i: int, j: int)
    requires
        spec_normalize(raw) == Ok::<RecordSpec, GenerationErrorSpec>(record),
        0 <= i < raw.fields.len(),
        0 <= j < raw.fields[i].annotations.len(),
        raw.fields[i].annotations[j].key == "rename"@,
    ensures
        raw.fields[i].annotations[j].value is Some,
        spec_assemble(record).fields[i].column == raw.fields[i].annotations[j].value->0,
{
    lemma_description_reflects_declaration(raw, record);
    let described = record.fields[i];
    assert(described.rename == raw.fields[i].annotations[j].value);
}

/// A field with a `decode` annotation is extracted by calling the function
/// the annotation names with the resolved column name, and by no direct
/// lookup; a field without one is looked up directly.
pub proof fn lemma_decode_annotation_replaces_lookup(raw: RawRecordSpec, record: RecordSpec, i: int)
    requires
        spec_normalize(raw) == Ok::<RecordSpec, GenerationErrorSpec>(record),
        0 <= i < raw.fields.len(),
    ensures
        forall|j: int|
            0 <= j < raw.fields[i].annotations.len() && (
            #[trigger] raw.fields[i].annotations[j]).key == "decode"@ ==> spec_request(
                spec_assemble(record).fields[i],
            ) == (RequestSpec::Custom {
                field: raw.fields[i].name,
                decoder: raw.fields[i].annotations[j].value->0,
                column: spec_assemble(record).fields[i].column,
            }),
        (forall|j: int|
            0 <= j < raw.fields[i].annotations.len() ==> (
            #[trigger] raw.fields[i].annotations[j]).key != "decode"@) ==> spec_request(
            spec_assemble(record).fields[i],
        ) == (RequestSpec::Lookup {
            field: raw.fields[i].name,
            column: spec_assemble(record).fields[i].column,
        }),
{
    lemma_description_reflects_declaration(raw, record);
    let described = record.fields[i];
    assert(described.name == raw.fields[i].name);
    if forall|j: int|
        0 <= j < raw.fields[i].annotations.len() ==> (#[trigger] raw.fields[i].annotations[j]).key
            != "decode"@ {
        assert(described.decoder is None);
    }
}

} // verus!
