//! Attribute normalisation: from a declaration as written to a record
//! description, or to the first fault found.
//!
//! A declaration is read in a fixed order: its shape, then the container's
//! annotations from first to last, then each field in declaration order with
//! its annotations from first to last. The first fault met on that way is
//! the one reported.

use crate::fold::{fold_until_error, lemma_fold_error_persists, lemma_fold_one_more};
use crate::policy::NamingPolicy;
use crate::record::{
    Annotation, AnnotationSpec, Fault, FieldDescription, FieldSpec, GenerationError,
    GenerationErrorSpec, Generics, RawField, RawFieldSpec, RawRecord, RawRecordSpec,
    RecordDescription, RecordSpec, Shape,
};
use crate::text::same_text;
use crate::well_formed::{
    lemma_description_reflects_declaration, lemma_normalizes_iff_well_formed, spec_reflects,
    spec_well_formed,
};
use vstd::prelude::*;

verus! {

/// What the container's annotations have settled so far.
pub ghost struct ContainerSpec {
    pub engine: Option<Seq<char>>,
    pub policy: Option<NamingPolicy>,
}

struct Container {
    engine: Option<String>,
    policy: Option<NamingPolicy>,
}

impl View for Container {
    type V = ContainerSpec;

    closed spec fn view(&self) -> ContainerSpec {
        ContainerSpec { engine: self.engine.deep_view(), policy: self.policy }
    }
}

/// A container before any of its annotations is read.
pub open spec fn spec_blank_container() -> ContainerSpec {
    ContainerSpec { engine: None, policy: None }
}

/// A field before any of its annotations is read.
pub open spec fn spec_blank_field(name: Seq<char>) -> FieldSpec {
    FieldSpec { name, rename: None, use_default: false, decoder: None }
}

/// Takes one container annotation into account. `db` names the storage
/// engine and `rename_all` the naming policy; each needs a value and may be
/// given once. No other key is known.
pub open spec fn spec_absorb_container(
    so_far: ContainerSpec,
    annotation: AnnotationSpec,
) -> Result<ContainerSpec, GenerationErrorSpec> {
    if annotation.key == "db"@ {
        match annotation.value {
            None => Err(
                GenerationErrorSpec::Malformed {
                    field: None,
                    key: annotation.key,
                    fault: Fault::MissingValue,
                },
            ),
            Some(path) => if so_far.engine is Some {
                Err(GenerationErrorSpec::DuplicateEngine)
            } else {
                Ok(ContainerSpec { engine: Some(path), policy: so_far.policy })
            },
        }
    } else if annotation.key == "rename_all"@ {
        match annotation.value {
            None => Err(
                GenerationErrorSpec::Malformed {
                    field: None,
                    key: annotation.key,
                    fault: Fault::MissingValue,
                },
            ),
            Some(token) => if so_far.policy is Some {
                Err(
                    GenerationErrorSpec::Malformed {
                        field: None,
                        key: annotation.key,
                        fault: Fault::Repeated,
                    },
                )
            } else {
                match NamingPolicy::spec_from_token(token) {
                    None => Err(GenerationErrorSpec::UnknownPolicy { token }),
                    Some(policy) => Ok(
                        ContainerSpec { engine: so_far.engine, policy: Some(policy) },
                    ),
                }
            },
        }
    } else {
        Err(
            GenerationErrorSpec::Malformed {
                field: None,
                key: annotation.key,
                fault: Fault::UnknownKey,
            },
        )
    }
}

/// Takes one field annotation into account. `rename` and `decode` need a
/// value, `default` is a bare flag, and each may be given once. No other key
/// is known.
pub open spec fn spec_absorb_field(so_far: FieldSpec, annotation: AnnotationSpec) -> Result<
    FieldSpec,
    GenerationErrorSpec,
> {
    let fault = |fault: Fault|
        GenerationErrorSpec::Malformed { field: Some(so_far.name), key: annotation.key, fault };
    if annotation.key == "rename"@ {
        match annotation.value {
            None => Err(fault(Fault::MissingValue)),
            Some(column) => if so_far.rename is Some {
                Err(fault(Fault::Repeated))
            } else {
                Ok(FieldSpec { rename: Some(column), ..so_far })
            },
        }
    } else if annotation.key == "default"@ {
        if annotation.value is Some {
            Err(fault(Fault::UnexpectedValue))
        } else if so_far.use_default {
            Err(fault(Fault::Repeated))
        } else {
            Ok(FieldSpec { use_default: true, ..so_far })
        }
    } else if annotation.key == "decode"@ {
        match annotation.value {
            None => Err(fault(Fault::MissingValue)),
            Some(path) => if so_far.decoder is Some {
                Err(fault(Fault::Repeated))
            } else {
                Ok(FieldSpec { decoder: Some(path), ..so_far })
            },
        }
    } else {
        Err(fault(Fault::UnknownKey))
    }
}

/// What the container's annotations settle, read from first to last.
pub open spec fn spec_scan_container(annotations: Seq<AnnotationSpec>) -> Result<
    ContainerSpec,
    GenerationErrorSpec,
> {
    fold_until_error(
        annotations,
        spec_blank_container(),
        |so_far: ContainerSpec, annotation: AnnotationSpec|
            spec_absorb_container(so_far, annotation),
    )
}

/// The description of one field, its annotations read from first to last.
pub open spec fn spec_scan_field(field: RawFieldSpec) -> Result<FieldSpec, GenerationErrorSpec> {
    fold_until_error(
        field.annotations,
        spec_blank_field(field.name),
        |so_far: FieldSpec, annotation: AnnotationSpec| spec_absorb_field(so_far, annotation),
    )
}

/// Adds the description of one more field to those already made.
pub open spec fn spec_absorb_raw_field(done: Seq<FieldSpec>, field: RawFieldSpec) -> Result<
    Seq<FieldSpec>,
    GenerationErrorSpec,
> {
    match spec_scan_field(field) {
        Err(e) => Err(e),
        Ok(described) => Ok(done.push(described)),
    }
}

/// The descriptions of all fields, in declaration order.
pub open spec fn spec_scan_fields(fields: Seq<RawFieldSpec>) -> Result<
    Seq<FieldSpec>,
    GenerationErrorSpec,
> {
    fold_until_error(
        fields,
        Seq::<FieldSpec>::empty(),
        |done: Seq<FieldSpec>, field: RawFieldSpec| spec_absorb_raw_field(done, field),
    )
}

/// The description a declaration normalises to, or the first fault in it.
pub open spec fn spec_normalize(raw: RawRecordSpec) -> Result<RecordSpec, GenerationErrorSpec> {
    if raw.shape != Shape::Named {
        Err(GenerationErrorSpec::NotNamedFields)
    } else {
        match spec_scan_container(raw.annotations) {
            Err(e) => Err(e),
            Ok(container) => match container.engine {
                None => Err(GenerationErrorSpec::MissingEngine),
                Some(engine) => match spec_scan_fields(raw.fields) {
                    Err(e) => Err(e),
                    Ok(fields) => Ok(
                        RecordSpec {
                            record_name: raw.record_name,
                            generics: raw.generics,
                            engine,
                            policy: container.policy,
                            fields,
                        },
                    ),
                },
            },
        }
    }
}

fn malformed(field: Option<&String>, key: &String, fault: Fault) -> (error: GenerationError)
    ensures
        error@ == (GenerationErrorSpec::Malformed {
            field: field.deep_view(),
            key: key@,
            fault,
        }),
{
    let field = match field {
        Some(name) => Some(name.clone()),
        None => None,
    };
    GenerationError::Malformed { field, key: key.clone(), fault }
}

fn absorb_container(so_far: Container, annotation: &Annotation) -> (out: Result<
    Container,
    GenerationError,
>)
    ensures
        match out {
            Ok(next) => spec_absorb_container(so_far@, annotation@) == Ok::<
                ContainerSpec,
                GenerationErrorSpec,
            >(next@),
            Err(e) => spec_absorb_container(so_far@, annotation@) == Err::<
                ContainerSpec,
                GenerationErrorSpec,
            >(e@),
        },
{
    if same_text(annotation.key.as_str(), "db") {
        match &annotation.value {
            None => Err(malformed(None, &annotation.key, Fault::MissingValue)),
            Some(path) => {
                if so_far.engine.is_some() {
                    Err(GenerationError::DuplicateEngine)
                } else {
                    Ok(Container { engine: Some(path.clone()), policy: so_far.policy })
                }
            },
        }
    } else if same_text(annotation.key.as_str(), "rename_all") {
        match &annotation.value {
            None => Err(malformed(None, &annotation.key, Fault::MissingValue)),
            Some(token) => {
                if so_far.policy.is_some() {
                    Err(malformed(None, &annotation.key, Fault::Repeated))
                } else {
                    match NamingPolicy::from_token(token.as_str()) {
                        None => Err(GenerationError::UnknownPolicy { token: token.clone() }),
                        Some(policy) => Ok(
                            Container { engine: so_far.engine, policy: Some(policy) },
                        ),
                    }
                }
            },
        }
    } else {
        Err(malformed(None, &annotation.key, Fault::UnknownKey))
    }
}

fn absorb_field(so_far: FieldDescription, annotation: &Annotation) -> (out: Result<
    FieldDescription,
    GenerationError,
>)
    ensures
        match out {
            Ok(next) => spec_absorb_field(so_far@, annotation@) == Ok::<
                FieldSpec,
                GenerationErrorSpec,
            >(next@),
            Err(e) => spec_absorb_field(so_far@, annotation@) == Err::<
                FieldSpec,
                GenerationErrorSpec,
            >(e@),
        },
{
    if same_text(annotation.key.as_str(), "rename") {
        match &annotation.value {
            None => Err(malformed(Some(&so_far.name), &annotation.key, Fault::MissingValue)),
            Some(column) => {
                if so_far.rename.is_some() {
                    Err(malformed(Some(&so_far.name), &annotation.key, Fault::Repeated))
                } else {
                    Ok(
                        FieldDescription {
                            name: so_far.name,
                            rename: Some(column.clone()),
                            use_default: so_far.use_default,
                            decoder: so_far.decoder,
                        },
                    )
                }
            },
        }
    } else if same_text(annotation.key.as_str(), "default") {
        if annotation.value.is_some() {
            Err(malformed(Some(&so_far.name), &annotation.key, Fault::UnexpectedValue))
        } else if so_far.use_default {
            Err(malformed(Some(&so_far.name), &annotation.key, Fault::Repeated))
        } else {
            Ok(
                FieldDescription {
                    name: so_far.name,
                    rename: so_far.rename,
                    use_default: true,
                    decoder: so_far.decoder,
                },
            )
        }
    } else if same_text(annotation.key.as_str(), "decode") {
        match &annotation.value {
            None => Err(malformed(Some(&so_far.name), &annotation.key, Fault::MissingValue)),
            Some(path) => {
                if so_far.decoder.is_some() {
                    Err(malformed(Some(&so_far.name), &annotation.key, Fault::Repeated))
                } else {
                    Ok(
                        FieldDescription {
                            name: so_far.name,
                            rename: so_far.rename,
                            use_default: so_far.use_default,
                            decoder: Some(path.clone()),
                        },
                    )
                }
            },
        }
    } else {
        Err(malformed(Some(&so_far.name), &annotation.key, Fault::UnknownKey))
    }
}

fn scan_container(annotations: &Vec<Annotation>) -> (out: Result<Container, GenerationError>)
    ensures
        match out {
            Ok(container) => spec_scan_container(annotations.deep_view()) == Ok::<
                ContainerSpec,
                GenerationErrorSpec,
            >(container@),
            Err(e) => spec_scan_container(annotations.deep_view()) == Err::<
                ContainerSpec,
                GenerationErrorSpec,
            >(e@),
        },
{
    let ghost all = annotations.deep_view();
    let ghost step = |so_far: ContainerSpec, annotation: AnnotationSpec|
        spec_absorb_container(so_far, annotation);
    let mut so_far = Container { engine: None, policy: None };
    let mut i: usize = 0;
    while i < annotations.len()
        invariant
            i <= annotations.len(),
            all == annotations.deep_view(),
            step == (|so_far: ContainerSpec, annotation: AnnotationSpec|
                spec_absorb_container(so_far, annotation)),
            fold_until_error(all.take(i as int), spec_blank_container(), step) == Ok::<
                ContainerSpec,
                GenerationErrorSpec,
            >(so_far@),
        decreases annotations.len() - i,
    {
        proof {
            lemma_fold_one_more(all, spec_blank_container(), step, i as int);
        }
        match absorb_container(so_far, &annotations[i]) {
            Err(e) => {
                proof {
                    lemma_fold_error_persists(all, spec_blank_container(), step, i + 1);
                }
                return Err(e);
            },
            Ok(next) => {
                so_far = next;
            },
        }
        i += 1;
    }
    proof {
        assert(all.take(i as int) =~= all);
    }
    Ok(so_far)
}

/// Describes one field from its declaration, reading its annotations from
/// first to last.
pub fn scan_field(field: &RawField) -> (out: Result<FieldDescription, GenerationError>)
    ensures
        match out {
            Ok(described) => spec_scan_field(field@) == Ok::<FieldSpec, GenerationErrorSpec>(
                described@,
            ),
            Err(e) => spec_scan_field(field@) == Err::<FieldSpec, GenerationErrorSpec>(e@),
        },
{
    let ghost all = field.annotations.deep_view();
    let ghost blank = spec_blank_field(field.name@);
    let ghost step = |so_far: FieldSpec, annotation: AnnotationSpec|
        spec_absorb_field(so_far, annotation);
    let mut so_far = FieldDescription {
        name: field.name.clone(),
        rename: None,
        use_default: false,
        decoder: None,
    };
    let mut i: usize = 0;
    while i < field.annotations.len()
        invariant
            i <= field.annotations.len(),
            all == field.annotations.deep_view(),
            blank == spec_blank_field(field.name@),
            step == (|so_far: FieldSpec, annotation: AnnotationSpec|
                spec_absorb_field(so_far, annotation)),
            fold_until_error(all.take(i as int), blank, step) == Ok::<
                FieldSpec,
                GenerationErrorSpec,
            >(so_far@),
        decreases field.annotations.len() - i,
    {
        proof {
            lemma_fold_one_more(all, blank, step, i as int);
        }
        match absorb_field(so_far, &field.annotations[i]) {
            Err(e) => {
                proof {
                    lemma_fold_error_persists(all, blank, step, i + 1);
                }
                return Err(e);
            },
            Ok(next) => {
                so_far = next;
            },
        }
        i += 1;
    }
    proof {
        assert(all.take(i as int) =~= all);
    }
    Ok(so_far)
}

fn scan_fields(fields: &Vec<RawField>) -> (out: Result<Vec<FieldDescription>, GenerationError>)
    ensures
        match out {
            Ok(described) => spec_scan_fields(fields.deep_view()) == Ok::<
                Seq<FieldSpec>,
                GenerationErrorSpec,
            >(described.deep_view()),
            Err(e) => spec_scan_fields(fields.deep_view()) == Err::<
                Seq<FieldSpec>,
                GenerationErrorSpec,
            >(e@),
        },
{
    let ghost all = fields.deep_view();
    let ghost step = |done: Seq<FieldSpec>, field: RawFieldSpec|
        spec_absorb_raw_field(done, field);
    let mut done: Vec<FieldDescription> = Vec::new();
    let mut i: usize = 0;
    proof {
        assert(done.deep_view() =~= Seq::<FieldSpec>::empty());
    }
    while i < fields.len()
        invariant
            i <= fields.len(),
            all == fields.deep_view(),
            step == (|done: Seq<FieldSpec>, field: RawFieldSpec|
                spec_absorb_raw_field(done, field)),
            fold_until_error(all.take(i as int), Seq::<FieldSpec>::empty(), step) == Ok::<
                Seq<FieldSpec>,
                GenerationErrorSpec,
            >(done.deep_view()),
        decreases fields.len() - i,
    {
        proof {
            lemma_fold_one_more(all, Seq::<FieldSpec>::empty(), step, i as int);
        }
        let ghost before = done.deep_view();
        match scan_field(&fields[i]) {
            Err(e) => {
                proof {
                    lemma_fold_error_persists(all, Seq::<FieldSpec>::empty(), step, i + 1);
                }
                return Err(e);
            },
            Ok(described) => {
                done.push(described);
                proof {
                    assert(done.deep_view() =~= before.push(described@));
                }
            },
        }
        i += 1;
    }
    proof {
        assert(all.take(i as int) =~= all);
    }
    Ok(done)
}

/// Normalises a declaration: checks that it is a struct with named fields,
/// reads the container's annotations, requires a storage engine, and
/// describes each field in declaration order. The first fault on that way is
/// returned, and then no description is made.
///
/// A description is made exactly for the declarations that are free of
/// faults, and it reflects the declaration it is made for.
pub fn normalize(raw: &RawRecord) -> (out: Result<RecordDescription, GenerationError>)
    ensures
        match out {
            Ok(description) => spec_normalize(raw@) == Ok::<RecordSpec, GenerationErrorSpec>(
                description@,
            ),
            Err(e) => spec_normalize(raw@) == Err::<RecordSpec, GenerationErrorSpec>(e@),
        },
        out is Ok <==> spec_well_formed(raw@),
        out matches Ok(description) ==> spec_reflects(raw@, description@),
{
    proof {
        lemma_normalizes_iff_well_formed(raw@);
        if spec_normalize(raw@) is Ok {
            lemma_description_reflects_declaration(raw@, spec_normalize(raw@)->Ok_0);
        }
    }
    match raw.shape {
        Shape::Named => {},
        _ => {
            return Err(GenerationError::NotNamedFields);
        },
    }
    let container = match scan_container(&raw.annotations) {
        Err(e) => {
            return Err(e);
        },
        Ok(container) => container,
    };
    let engine = match container.engine {
        None => {
            return Err(GenerationError::MissingEngine);
        },
        Some(engine) => engine,
    };
    let fields = match scan_fields(&raw.fields) {
        Err(e) => {
            return Err(e);
        },
        Ok(fields) => fields,
    };
    Ok(
        RecordDescription {
            record_name: raw.record_name.clone(),
            generics: Generics {
                impl_params: raw.generics.impl_params.clone(),
                type_args: raw.generics.type_args.clone(),
                where_clause: raw.generics.where_clause.clone(),
            },
            engine,
            policy: container.policy,
            fields,
        },
    )
}

} // verus!
