//! Row decoding routines for record types, derived from a declarative
//! description of the record.
//!
//! A record is described by its fields and their annotations. From that
//! description the library works out which column each field is read from,
//! how each field is extracted, and renders the routine that builds the whole
//! record from one row, failing on the first field that fails.
//!
//! The work runs in one pass:
//!
//! 1. [`normalize`] turns the declaration as written into a description, or
//!    into the first fault in it; [`well_formed`] says which declarations
//!    are free of faults.
//! 2. [`resolve`] gives each field its one column name, by the naming
//!    rules of [`policy`].
//! 3. [`plan`] assembles the extraction plan, [`emit`] writes the routine
//!    that carries it out, and [`decode`] states what that routine does with
//!    a row.
//!
//! [`expand`] does all of it in one call.

pub mod decode;
pub mod diagnostic;
pub mod emit;
pub mod expand;
pub mod fold;
pub mod normalize;
pub mod plan;
pub mod policy;
pub mod record;
pub mod resolve;
pub mod text;
pub mod well_formed;
