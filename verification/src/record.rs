//! The data that describes one record type: the declaration as it is
//! written, the description it normalises to, and the faults that stop the
//! work.

use crate::policy::NamingPolicy;
use vstd::prelude::*;

verus! {

/// One entry of an annotation list: a bare `key`, or `key = "value"`.
#[derive(Clone, Debug, PartialEq, Eq)]
pub struct Annotation {
    pub key: String,
    pub value: Option<String>,
}

/// The mathematical content of an [`Annotation`].
pub ghost struct AnnotationSpec {
    pub key: Seq<char>,
    pub value: Option<Seq<char>>,
}

impl View for Annotation {
    type V = AnnotationSpec;

    open spec fn view(&self) -> AnnotationSpec {
        AnnotationSpec { key: self.key@, value: self.value.deep_view() }
    }
}

impl DeepView for Annotation {
    type V = AnnotationSpec;

    open spec fn deep_view(&self) -> AnnotationSpec {
        self@
    }
}

/// The kind of aggregate a declaration introduces.
#[derive(Clone, Copy, Debug, PartialEq, Eq, Structural)]
pub enum Shape {
    /// A struct with named fields: the only kind a routine is made for.
    Named,
    /// A struct with positional fields.
    Tuple,
    /// A struct without fields or braces.
    Unit,
    /// An enumeration.
    Enum,
    /// A union.
    Union,
}

/// The generic parameters of the record type, each part written as it
/// appears in an `impl` header: after `impl`, after the type's name, and the
/// `where` clause. A part that the type lacks is empty.
#[derive(Clone, Debug, PartialEq, Eq)]
pub struct Generics {
    pub impl_params: String,
    pub type_args: String,
    pub where_clause: String,
}

/// The mathematical content of [`Generics`].
pub ghost struct GenericsSpec {
    pub impl_params: Seq<char>,
    pub type_args: Seq<char>,
    pub where_clause: Seq<char>,
}

impl View for Generics {
    type V = GenericsSpec;

    open spec fn view(&self) -> GenericsSpec {
        GenericsSpec {
            impl_params: self.impl_params@,
            type_args: self.type_args@,
            where_clause: self.where_clause@,
        }
    }
}

/// One field as declared: its identifier and its annotations, in source
/// order.
#[derive(Clone, Debug, PartialEq, Eq)]
pub struct RawField {
    pub name: String,
    pub annotations: Vec<Annotation>,
}

/// The mathematical content of a [`RawField`].
pub ghost struct RawFieldSpec {
    pub name: Seq<char>,
    pub annotations: Seq<AnnotationSpec>,
}

impl View for RawField {
    type V = RawFieldSpec;

    open spec fn view(&self) -> RawFieldSpec {
        RawFieldSpec { name: self.name@, annotations: self.annotations.deep_view() }
    }
}

impl DeepView for RawField {
    type V = RawFieldSpec;

    open spec fn deep_view(&self) -> RawFieldSpec {
        self@
    }
}

/// A record type as declared: its name, generics, shape, container
/// annotations and fields, all in source order.
#[derive(Clone, Debug, PartialEq, Eq)]
pub struct RawRecord {
    pub record_name: String,
    pub generics: Generics,
    pub shape: Shape,
    pub annotations: Vec<Annotation>,
    pub fields: Vec<RawField>,
}

/// The mathematical content of a [`RawRecord`].
pub ghost struct RawRecordSpec {
    pub record_name: Seq<char>,
    pub generics: GenericsSpec,
    pub shape: Shape,
    pub annotations: Seq<AnnotationSpec>,
    pub fields: Seq<RawFieldSpec>,
}

impl View for RawRecord {
    type V = RawRecordSpec;

    open spec fn view(&self) -> RawRecordSpec {
        RawRecordSpec {
            record_name: self.record_name@,
            generics: self.generics@,
            shape: self.shape,
            annotations: self.annotations.deep_view(),
            fields: self.fields.deep_view(),
        }
    }
}

/// One field of a record, with its configuration made explicit.
#[derive(Clone, Debug, PartialEq, Eq)]
pub struct FieldDescription {
    /// The field's identifier.
    pub name: String,
    /// The column name the field asks for, if it asks for one.
    pub rename: Option<String>,
    /// Whether a missing column gives the field type's default value.
    pub use_default: bool,
    /// The path of the function that decodes the field, if it has one.
    pub decoder: Option<String>,
}

/// The mathematical content of a [`FieldDescription`].
pub ghost struct FieldSpec {
    pub name: Seq<char>,
    pub rename: Option<Seq<char>>,
    pub use_default: bool,
    pub decoder: Option<Seq<char>>,
}

impl View for FieldDescription {
    type V = FieldSpec;

    open spec fn view(&self) -> FieldSpec {
        FieldSpec {
            name: self.name@,
            rename: self.rename.deep_view(),
            use_default: self.use_default,
            decoder: self.decoder.deep_view(),
        }
    }
}

impl DeepView for FieldDescription {
    type V = FieldSpec;

    open spec fn deep_view(&self) -> FieldSpec {
        self@
    }
}

/// A record type ready for planning: a struct with named fields, one storage
/// engine, at most one naming policy, and its fields in declaration order.
#[derive(Clone, Debug, PartialEq, Eq)]
pub struct RecordDescription {
    pub record_name: String,
    pub generics: Generics,
    /// The path of the storage engine whose rows the routine decodes.
    pub engine: String,
    pub policy: Option<NamingPolicy>,
    pub fields: Vec<FieldDescription>,
}

/// The mathematical content of a [`RecordDescription`].
pub ghost struct RecordSpec {
    pub record_name: Seq<char>,
    pub generics: GenericsSpec,
    pub engine: Seq<char>,
    pub policy: Option<NamingPolicy>,
    pub fields: Seq<FieldSpec>,
}

impl View for RecordDescription {
    type V = RecordSpec;

    open spec fn view(&self) -> RecordSpec {
        RecordSpec {
            record_name: self.record_name@,
            generics: self.generics@,
            engine: self.engine@,
            policy: self.policy,
            fields: self.fields.deep_view(),
        }
    }
}

/// What is wrong with one annotation.
#[derive(Clone, Copy, Debug, PartialEq, Eq, Structural)]
pub enum Fault {
    /// The key is not one the list recognises.
    UnknownKey,
    /// The key needs a value and has none.
    MissingValue,
    /// The key is a bare flag and was given a value.
    UnexpectedValue,
    /// The key was already given in the same list.
    Repeated,
}

/// Why no routine is made for a declaration.
#[derive(Clone, Debug, PartialEq, Eq)]
pub enum GenerationError {
    /// The declaration is not a struct with named fields.
    NotNamedFields,
    /// The container names no storage engine.
    MissingEngine,
    /// The container names a storage engine more than once.
    DuplicateEngine,
    /// The container's naming policy is not one of the known tokens.
    UnknownPolicy { token: String },
    /// An annotation is malformed. `field` is the field that carries it, or
    /// `None` for an annotation of the container.
    Malformed { field: Option<String>, key: String, fault: Fault },
}

/// The mathematical content of a [`GenerationError`].
pub ghost enum GenerationErrorSpec {
    NotNamedFields,
    MissingEngine,
    DuplicateEngine,
    UnknownPolicy { token: Seq<char> },
    Malformed { field: Option<Seq<char>>, key: Seq<char>, fault: Fault },
}

impl View for GenerationError {
    type V = GenerationErrorSpec;

    open spec fn view(&self) -> GenerationErrorSpec {
        match self {
            GenerationError::NotNamedFields => GenerationErrorSpec::NotNamedFields,
            GenerationError::MissingEngine => GenerationErrorSpec::MissingEngine,
            GenerationError::DuplicateEngine => GenerationErrorSpec::DuplicateEngine,
            GenerationError::UnknownPolicy { token } => GenerationErrorSpec::UnknownPolicy {
                token: token@,
            },
            GenerationError::Malformed { field, key, fault } => GenerationErrorSpec::Malformed {
                field: field.deep_view(),
                key: key@,
                fault: *fault,
            },
        }
    }
}

} // verus!
