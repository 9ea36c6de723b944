//! Declarations free of faults, said without reading order: which
//! declarations normalise, and what the description holds of the declaration
//! it is made for.

use crate::fold::{lemma_fold_keeps, lemma_fold_succeeds};
use crate::normalize::{
    spec_absorb_container, spec_absorb_field, spec_absorb_raw_field, spec_blank_container,
    spec_blank_field, spec_normalize, spec_scan_container, spec_scan_field, spec_scan_fields,
    ContainerSpec,
};
use crate::policy::NamingPolicy;
use crate::record::{
    AnnotationSpec, FieldSpec, GenerationErrorSpec, RawFieldSpec, RawRecordSpec, RecordSpec, Shape,
};
use vstd::prelude::*;

verus! {

/// What a container read without fault holds, said of its annotations.
///
/// Every annotation is `db` or `rename_all` with a value, and no key stands
/// twice. The engine is the value of the `db` annotation, and there is one
/// exactly when there is such an annotation. The policy is the one that the
/// token of the `rename_all` annotation selects, and there is one exactly
/// when there is such an annotation.
pub open spec fn spec_container_reflects(
    annotations: Seq<AnnotationSpec>,
    container: ContainerSpec,
) -> bool {
    &&& forall|i: int|
        0 <= i < annotations.len() ==> {
            let key = (#[trigger] annotations[i]).key;
            key == "db"@ || key == "rename_all"@
        }
    &&& forall|i: int|
        0 <= i < annotations.len() && (#[trigger] annotations[i]).key == "db"@
            ==> annotations[i].value is Some && container.engine == annotations[i].value
    &&& forall|i: int|
        0 <= i < annotations.len() && (#[trigger] annotations[i]).key == "rename_all"@
            ==> annotations[i].value is Some && container.policy is Some && container.policy
            == NamingPolicy::spec_from_token(annotations[i].value->0)
    &&& forall|i: int, j: int|
        0 <= i < j < annotations.len() ==> (#[trigger] annotations[i]).key != (
        #[trigger] annotations[j]).key
    &&& container.engine is Some <==> exists|i: int|
        0 <= i < annotations.len() && (#[trigger] annotations[i]).key == "db"@
    &&& container.policy is Some <==> exists|i: int|
        0 <= i < annotations.len() && (#[trigger] annotations[i]).key == "rename_all"@
}

/// What a field described without fault holds, said of its declaration.
///
/// The field keeps its identifier. Every annotation is `rename` or `decode`
/// with a value, or a bare `default`, and no key stands twice. The rename is
/// the value of the `rename` annotation and the decoder that of the `decode`
/// annotation, and there is one exactly when there is such an annotation.
/// The default is asked for exactly when there is a `default` annotation.
pub open spec fn spec_field_reflects(field: RawFieldSpec, described: FieldSpec) -> bool {
    let annotations = field.annotations;
    &&& described.name == field.name
    &&& forall|i: int|
        0 <= i < annotations.len() ==> {
            let key = (#[trigger] annotations[i]).key;
            key == "rename"@ || key == "default"@ || key == "decode"@
        }
    &&& forall|i: int|
        0 <= i < annotations.len() && (#[trigger] annotations[i]).key == "rename"@
            ==> annotations[i].value is Some && described.rename == annotations[i].value
    &&& forall|i: int|
        0 <= i < annotations.len() && (#[trigger] annotations[i]).key == "decode"@
            ==> annotations[i].value is Some && described.decoder == annotations[i].value
    &&& forall|i: int|
        0 <= i < annotations.len() && (#[trigger] annotations[i]).key == "default"@
            ==> annotations[i].value is None && described.use_default
    &&& forall|i: int, j: int|
        0 <= i < j < annotations.len() ==> (#[trigger] annotations[i]).key != (
        #[trigger] annotations[j]).key
    &&& described.rename is Some <==> exists|i: int|
        0 <= i < annotations.len() && (#[trigger] annotations[i]).key == "rename"@
    &&& described.decoder is Some <==> exists|i: int|
        0 <= i < annotations.len() && (#[trigger] annotations[i]).key == "decode"@
    &&& described.use_default <==> exists|i: int|
        0 <= i < annotations.len() && (#[trigger] annotations[i]).key == "default"@
}

proof fn lemma_keys_differ()
    ensures
        "db"@ != "rename_all"@,
        "rename"@ != "default"@,
        "rename"@ != "decode"@,
        "default"@ != "decode"@,
{
    reveal_strlit("db");
    reveal_strlit("rename_all");
    reveal_strlit("rename");
    reveal_strlit("default");
    reveal_strlit("decode");
    assert("db"@.len() == 2);
    assert("rename_all"@.len() == 10);
    assert("rename"@.len() == 6 && "rename"@[0] == 'r');
    assert("default"@.len() == 7);
    assert("decode"@.len() == 6 && "decode"@[0] == 'd');
}

/// A container that is read without fault reflects its annotations.
pub proof fn lemma_container_reflects_annotations(
    annotations: Seq<AnnotationSpec>,
    container: ContainerSpec,
)
    requires
        spec_scan_container(annotations) == Ok::<ContainerSpec, GenerationErrorSpec>(container),
    ensures
        spec_container_reflects(annotations, container),
{
    lemma_keys_differ();
    let step = |so_far: ContainerSpec, annotation: AnnotationSpec|
        spec_absorb_container(so_far, annotation);
    let kept = |k: int, so_far: ContainerSpec|
        0 <= k <= annotations.len() && spec_container_reflects(annotations.take(k), so_far);
    assert(kept(0, spec_blank_container()));
    assert forall|k: int, so_far: ContainerSpec|
        0 <= k < annotations.len() && #[trigger] kept(k, so_far) && step(
            so_far,
            annotations[k],
        ) is Ok implies kept(k + 1, step(so_far, annotations[k])->Ok_0) by {
        let next = step(so_far, annotations[k])->Ok_0;
        let earlier = annotations.take(k);
        let longer = annotations.take(k + 1);
        assert(longer[k] == annotations[k]);
        assert forall|i: int| 0 <= i < k implies #[trigger] longer[i] == earlier[i] by {}
        assert(spec_container_reflects(longer, next));
    }
    lemma_fold_keeps(annotations, spec_blank_container(), step, kept);
    assert(annotations.take(annotations.len() as int) =~= annotations);
}

/// A field that is described without fault reflects its declaration.
pub proof fn lemma_field_reflects_declaration(field: RawFieldSpec, described: FieldSpec)
    requires
        spec_scan_field(field) == Ok::<FieldSpec, GenerationErrorSpec>(described),
    ensures
        spec_field_reflects(field, described),
{
    lemma_keys_differ();
    let annotations = field.annotations;
    let step = |so_far: FieldSpec, annotation: AnnotationSpec|
        spec_absorb_field(so_far, annotation);
    let kept = |k: int, so_far: FieldSpec|
        0 <= k <= annotations.len() && spec_field_reflects(
            RawFieldSpec { name: field.name, annotations: annotations.take(k) },
            so_far,
        );
    assert(kept(0, spec_blank_field(field.name)));
    assert forall|k: int, so_far: FieldSpec|
        0 <= k < annotations.len() && #[trigger] kept(k, so_far) && step(
            so_far,
            annotations[k],
        ) is Ok implies kept(k + 1, step(so_far, annotations[k])->Ok_0) by {
        let next = step(so_far, annotations[k])->Ok_0;
        let earlier = annotations.take(k);
        let longer = annotations.take(k + 1);
        assert(longer[k] == annotations[k]);
        assert forall|i: int| 0 <= i < k implies #[trigger] longer[i] == earlier[i] by {}
        assert(spec_field_reflects(
            RawFieldSpec { name: field.name, annotations: longer },
            next,
        ));
    }
    lemma_fold_keeps(annotations, spec_blank_field(field.name), step, kept);
    assert(annotations.take(annotations.len() as int) =~= annotations);
}

/// Fields that are described without fault are described one by one, in
/// declaration order: as many descriptions as fields, each that of the field
/// at its position.
pub proof fn lemma_fields_described_in_order(
    fields: Seq<RawFieldSpec>,
    described: Seq<FieldSpec>,
)
    requires
        spec_scan_fields(fields) == Ok::<Seq<FieldSpec>, GenerationErrorSpec>(described),
    ensures
        described.len() == fields.len(),
        forall|i: int|
            0 <= i < fields.len() ==> spec_scan_field(#[trigger] fields[i]) == Ok::<
                FieldSpec,
                GenerationErrorSpec,
            >(described[i]),
{
    let step = |done: Seq<FieldSpec>, field: RawFieldSpec| spec_absorb_raw_field(done, field);
    let kept = |k: int, done: Seq<FieldSpec>|
        done.len() == k && forall|i: int|
            0 <= i < k && i < fields.len() ==> spec_scan_field(#[trigger] fields[i]) == Ok::<
                FieldSpec,
                GenerationErrorSpec,
            >(done[i]);
    assert(kept(0, Seq::<FieldSpec>::empty()));
    assert forall|k: int, done: Seq<FieldSpec>|
        0 <= k < fields.len() && #[trigger] kept(k, done) && step(done, fields[k]) is Ok implies kept(
        k + 1,
        step(done, fields[k])->Ok_0,
    ) by {
        let next = step(done, fields[k])->Ok_0;
        assert(next == done.push(spec_scan_field(fields[k])->Ok_0));
        assert forall|i: int| 0 <= i < k + 1 && i < fields.len() implies spec_scan_field(
            #[trigger] fields[i],
        ) == Ok::<FieldSpec, GenerationErrorSpec>(next[i]) by {
            if i < k {
                assert(next[i] == done[i]);
            }
        }
    }
    lemma_fold_keeps(fields, Seq::<FieldSpec>::empty(), step, kept);
}

/// What a description holds, said of the declaration it is made for: the
/// declaration is a struct with named fields; the description keeps its name
/// and generics, reflects the container's annotations, and holds one
/// description per field, in declaration order, each reflecting its field.
pub open spec fn spec_reflects(raw: RawRecordSpec, record: RecordSpec) -> bool {
    &&& raw.shape == Shape::Named
    &&& record.record_name == raw.record_name
    &&& record.generics == raw.generics
    &&& spec_container_reflects(
        raw.annotations,
        ContainerSpec { engine: Some(record.engine), policy: record.policy },
    )
    &&& record.fields.len() == raw.fields.len()
    &&& forall|i: int|
        0 <= i < raw.fields.len() ==> spec_field_reflects(
            #[trigger] raw.fields[i],
            record.fields[i],
        )
}

/// The description a declaration normalises to reflects the declaration.
pub proof fn lemma_description_reflects_declaration(raw: RawRecordSpec, record: RecordSpec)
    requires
        spec_normalize(raw) == Ok::<RecordSpec, GenerationErrorSpec>(record),
    ensures
        spec_reflects(raw, record),
{
    let container = spec_scan_container(raw.annotations)->Ok_0;
    lemma_container_reflects_annotations(raw.annotations, container);
    lemma_fields_described_in_order(raw.fields, record.fields);
    assert forall|i: int| 0 <= i < raw.fields.len() implies spec_field_reflects(
        #[trigger] raw.fields[i],
        record.fields[i],
    ) by {
        lemma_field_reflects_declaration(raw.fields[i], record.fields[i]);
    }
}

/// Whether a container's annotations are free of faults: every one is `db`
/// or `rename_all` with a value, no key stands twice, `db` is there, and the
/// token of `rename_all` selects a policy.
pub open spec fn spec_container_well_formed(annotations: Seq<AnnotationSpec>) -> bool {
    &&& forall|i: int|
        0 <= i < annotations.len() ==> {
            let annotation = #[trigger] annotations[i];
            &&& annotation.key == "db"@ || annotation.key == "rename_all"@
            &&& annotation.value is Some
            &&& annotation.key == "rename_all"@ ==> NamingPolicy::spec_from_token(
                annotation.value->0,
            ) is Some
        }
    &&& forall|i: int, j: int|
        0 <= i < j < annotations.len() ==> (#[trigger] annotations[i]).key != (
        #[trigger] annotations[j]).key
    &&& exists|i: int| 0 <= i < annotations.len() && (#[trigger] annotations[i]).key == "db"@
}

/// Whether a field's annotations are free of faults: every one is `rename`
/// or `decode` with a value, or a bare `default`, and no key stands twice.
pub open spec fn spec_field_well_formed(field: RawFieldSpec) -> bool {
    &&& forall|i: int|
        0 <= i < field.annotations.len() ==> {
            let annotation = #[trigger] field.annotations[i];
            ||| (annotation.key == "rename"@ || annotation.key == "decode"@) && annotation.value
                is Some
            ||| annotation.key == "default"@ && annotation.value is None
        }
    &&& forall|i: int, j: int|
        0 <= i < j < field.annotations.len() ==> (#[trigger] field.annotations[i]).key != (
        #[trigger] field.annotations[j]).key
}

/// Whether a declaration is free of faults: a struct with named fields whose
/// container and fields are annotated without fault.
pub open spec fn spec_well_formed(raw: RawRecordSpec) -> bool {
    &&& raw.shape == Shape::Named
    &&& spec_container_well_formed(raw.annotations)
    &&& forall|i: int| 0 <= i < raw.fields.len() ==> spec_field_well_formed(#[trigger] raw.fields[i])
}

/// A container whose annotations are free of faults is read without fault,
/// and names an engine.
pub proof fn lemma_well_formed_container_is_read(annotations: Seq<AnnotationSpec>)
    requires
        spec_container_well_formed(annotations),
    ensures
        spec_scan_container(annotations) is Ok,
        spec_scan_container(annotations)->Ok_0.engine is Some,
{
    lemma_keys_differ();
    let step = |so_far: ContainerSpec, annotation: AnnotationSpec|
        spec_absorb_container(so_far, annotation);
    let kept = |k: int, so_far: ContainerSpec|
        {
            &&& 0 <= k <= annotations.len()
            &&& so_far.engine is Some <==> exists|i: int|
                0 <= i < k && (#[trigger] annotations[i]).key == "db"@
            &&& so_far.policy is Some <==> exists|i: int|
                0 <= i < k && (#[trigger] annotations[i]).key == "rename_all"@
        };
    assert(kept(0, spec_blank_container()));
    assert forall|k: int, so_far: ContainerSpec|
        0 <= k < annotations.len() && #[trigger] kept(k, so_far) implies step(
        so_far,
        annotations[k],
    ) is Ok && kept(k + 1, step(so_far, annotations[k])->Ok_0) by {
        let annotation = annotations[k];
        assert(annotation.value is Some);
        if annotation.key == "db"@ {
            if so_far.engine is Some {
                let i = choose|i: int| 0 <= i < k && (#[trigger] annotations[i]).key == "db"@;
                assert(annotations[i].key != annotations[k].key);
            }
        } else {
            if so_far.policy is Some {
                let i = choose|i: int|
                    0 <= i < k && (#[trigger] annotations[i]).key == "rename_all"@;
                assert(annotations[i].key != annotations[k].key);
            }
        }
        let next = step(so_far, annotation)->Ok_0;
        assert(annotations[k].key == annotation.key);
        if next.engine is Some && so_far.engine is Some {
            let i = choose|i: int| 0 <= i < k && (#[trigger] annotations[i]).key == "db"@;
            assert(0 <= i < k + 1 && annotations[i].key == "db"@);
        }
        if next.policy is Some && so_far.policy is Some {
            let i = choose|i: int| 0 <= i < k && (#[trigger] annotations[i]).key == "rename_all"@;
            assert(0 <= i < k + 1 && annotations[i].key == "rename_all"@);
        }
    }
    lemma_fold_succeeds(annotations, spec_blank_container(), step, kept, annotations.len() as int);
    assert(annotations.take(annotations.len() as int) =~= annotations);
}

/// A field whose annotations are free of faults is described without fault.
pub proof fn lemma_well_formed_field_is_described(field: RawFieldSpec)
    requires
        spec_field_well_formed(field),
    ensures
        spec_scan_field(field) is Ok,
{
    lemma_keys_differ();
    let annotations = field.annotations;
    let step = |so_far: FieldSpec, annotation: AnnotationSpec|
        spec_absorb_field(so_far, annotation);
    let kept = |k: int, so_far: FieldSpec|
        {
            &&& 0 <= k <= annotations.len()
            &&& so_far.rename is Some <==> exists|i: int|
                0 <= i < k && (#[trigger] annotations[i]).key == "rename"@
            &&& so_far.decoder is Some <==> exists|i: int|
                0 <= i < k && (#[trigger] annotations[i]).key == "decode"@
            &&& so_far.use_default <==> exists|i: int|
                0 <= i < k && (#[trigger] annotations[i]).key == "default"@
        };
    assert(kept(0, spec_blank_field(field.name)));
    assert forall|k: int, so_far: FieldSpec|
        0 <= k < annotations.len() && #[trigger] kept(k, so_far) implies step(
        so_far,
        annotations[k],
    ) is Ok && kept(k + 1, step(so_far, annotations[k])->Ok_0) by {
        let annotation = annotations[k];
        assert(annotations[k].key == annotation.key);
        if so_far.rename is Some {
            let i = choose|i: int| 0 <= i < k && (#[trigger] annotations[i]).key == "rename"@;
            assert(annotations[i].key != annotations[k].key);
            assert(0 <= i < k + 1 && annotations[i].key == "rename"@);
        }
        if so_far.decoder is Some {
            let i = choose|i: int| 0 <= i < k && (#[trigger] annotations[i]).key == "decode"@;
            assert(annotations[i].key != annotations[k].key);
            assert(0 <= i < k + 1 && annotations[i].key == "decode"@);
        }
        if so_far.use_default {
            let i = choose|i: int| 0 <= i < k && (#[trigger] annotations[i]).key == "default"@;
            assert(annotations[i].key != annotations[k].key);
            assert(0 <= i < k + 1 && annotations[i].key == "default"@);
        }
    }
    lemma_fold_succeeds(
        annotations,
        spec_blank_field(field.name),
        step,
        kept,
        annotations.len() as int,
    );
    assert(annotations.take(annotations.len() as int) =~= annotations);
}

/// A declaration normalises exactly when it is free of faults.
pub proof fn lemma_normalizes_iff_well_formed(raw: RawRecordSpec)
    ensures
        spec_normalize(raw) is Ok <==> spec_well_formed(raw),
{
    if spec_normalize(raw) is Ok {
        let record = spec_normalize(raw)->Ok_0;
        lemma_description_reflects_declaration(raw, record);
        let container = ContainerSpec { engine: Some(record.engine), policy: record.policy };
        assert(spec_container_reflects(raw.annotations, container));
        assert(spec_container_well_formed(raw.annotations));
        assert forall|i: int| 0 <= i < raw.fields.len() implies spec_field_well_formed(
            #[trigger] raw.fields[i],
        ) by {
            assert(spec_field_reflects(raw.fields[i], record.fields[i]));
        }
    }
    if spec_well_formed(raw) {
        lemma_well_formed_container_is_read(raw.annotations);
        let step = |done: Seq<FieldSpec>, field: RawFieldSpec| spec_absorb_raw_field(done, field);
        let kept = |k: int, done: Seq<FieldSpec>| true;
        assert forall|k: int, done: Seq<FieldSpec>|
            0 <= k < raw.fields.len() && #[trigger] kept(k, done) implies step(
            done,
            raw.fields[k],
        ) is Ok && kept(k + 1, step(done, raw.fields[k])->Ok_0) by {
            lemma_well_formed_field_is_described(raw.fields[k]);
        }
        lemma_fold_succeeds(
            raw.fields,
            Seq::<FieldSpec>::empty(),
            step,
            kept,
            raw.fields.len() as int,
        );
        assert(raw.fields.take(raw.fields.len() as int) =~= raw.fields);
    }
}

} // verus!
