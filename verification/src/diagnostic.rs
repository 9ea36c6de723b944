//! The message that tells the author of a declaration what is wrong with it.

use crate::record::{Fault, GenerationError, GenerationErrorSpec};
use vstd::prelude::*;

verus! {

/// What a fault says of the key it was found at.
pub open spec fn spec_fault_text(fault: Fault) -> Seq<char> {
    match fault {
        Fault::UnknownKey => "is not a known key"@,
        Fault::MissingValue => "needs a value"@,
        Fault::UnexpectedValue => "takes no value"@,
        Fault::Repeated => "is given more than once"@,
    }
}

/// Where an annotation stands: on a field, or on the container.
pub open spec fn spec_place_text(field: Option<Seq<char>>) -> Seq<char> {
    match field {
        Some(name) => " on field `"@ + name + "`"@,
        None => " on the container"@,
    }
}

/// The message for an error.
pub open spec fn spec_message(error: GenerationErrorSpec) -> Seq<char> {
    match error {
        GenerationErrorSpec::NotNamedFields =>
            "only structs with named fields are supported; derive `sqlx::FromRow` for any other type"@,
        GenerationErrorSpec::MissingEngine =>
            "missing `db`: name the storage engine, as in `db = \"sqlx::Sqlite\"`"@,
        GenerationErrorSpec::DuplicateEngine => "`db` is given more than once"@,
        GenerationErrorSpec::UnknownPolicy { token } => "unknown `rename_all` policy `"@ + token
            + "`"@,
        GenerationErrorSpec::Malformed { field, key, fault } => "`"@ + key + "` "@
            + spec_fault_text(fault) + spec_place_text(field),
    }
}

fn fault_text(fault: Fault) -> (text: &'static str)
    ensures
        text@ == spec_fault_text(fault),
{
    match fault {
        Fault::UnknownKey => "is not a known key",
        Fault::MissingValue => "needs a value",
        Fault::UnexpectedValue => "takes no value",
        Fault::Repeated => "is given more than once",
    }
}

impl GenerationError {
    /// The message for this error. For a declaration that is not a struct
    /// with named fields it points to the derive that handles such types.
    pub fn message(&self) -> (text: String)
        ensures
            text@ == spec_message(self@),
    {
        match self {
            GenerationError::NotNamedFields => String::from_str(
                "only structs with named fields are supported; derive `sqlx::FromRow` for any other type",
            ),
            GenerationError::MissingEngine => String::from_str(
                "missing `db`: name the storage engine, as in `db = \"sqlx::Sqlite\"`",
            ),
            GenerationError::DuplicateEngine => String::from_str("`db` is given more than once"),
            GenerationError::UnknownPolicy { token } => {
                let mut out = String::from_str("unknown `rename_all` policy `");
                out.append(token.as_str());
                out.append("`");
                out
            },
            GenerationError::Malformed { field, key, fault } => {
                let mut out = String::from_str("`");
                out.append(key.as_str());
                out.append("` ");
                out.append(fault_text(*fault));
                let ghost before = out@;
                match field {
                    Some(name) => {
                        out.append(" on field `");
                        out.append(name.as_str());
                        out.append("`");
                    },
                    None => {
                        out.append(" on the container");
                    },
                }
                proof {
                    assert(out@ =~= before + spec_place_text(field.deep_view()));
                }
                out
            },
        }
    }
}

} // verus!
