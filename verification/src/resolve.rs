//! Column identity resolution: the one column name each field is read from.

use crate::policy::NamingPolicy;
use crate::record::{FieldDescription, FieldSpec};
use vstd::prelude::*;

verus! {

/// The column a field is read from. An explicit rename is used as written;
/// without one the container's policy converts the identifier; without a
/// policy the identifier is the column name.
pub open spec fn spec_column_name(field: FieldSpec, policy: Option<NamingPolicy>) -> Seq<char> {
    match field.rename {
        Some(column) => column,
        None => match policy {
            Some(policy) => policy.spec_convert(field.name),
            None => field.name,
        },
    }
}

/// Resolves the column a field is read from.
pub fn column_name(field: &FieldDescription, policy: Option<NamingPolicy>) -> (column: String)
    ensures
        column@ == spec_column_name(field@, policy),
{
    match &field.rename {
        Some(column) => column.clone(),
        None => match policy {
            Some(policy) => policy.convert(field.name.as_str()),
            None => field.name.clone(),
        },
    }
}

/// Identity law: a field without a rename, in a container without a policy,
/// is read from the column named exactly as the field.
pub proof fn lemma_unconfigured_field_keeps_its_name(field: FieldSpec)
    requires
        field.rename is None,
    ensures
        spec_column_name(field, None) == field.name,
{
}

/// A field without a rename under the identity policy is read from the
/// column named exactly as the field, as if there were no policy.
pub proof fn lemma_identity_policy_keeps_the_name(field: FieldSpec)
    requires
        field.rename is None,
    ensures
        spec_column_name(field, Some(NamingPolicy::Identity)) == field.name,
        spec_column_name(field, Some(NamingPolicy::Identity)) == spec_column_name(field, None),
{
}

/// An explicit rename wins over every container policy, and over the lack of
/// one: the column is the rename as written.
pub proof fn lemma_rename_wins(field: FieldSpec, policy: Option<NamingPolicy>)
    requires
        field.rename is Some,
    ensures
        spec_column_name(field, policy) == field.rename->0,
{
}

/// Without a rename, the column is what the container's policy makes of the
/// identifier.
pub proof fn lemma_policy_applies_without_rename(field: FieldSpec, policy: NamingPolicy)
    requires
        field.rename is None,
    ensures
        spec_column_name(field, Some(policy)) == policy.spec_convert(field.name),
{
}

} // verus!
