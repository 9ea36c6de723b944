//! Emission: the text of the decoding routine that carries out a plan.

use crate::plan::{ExtractionPlan, FieldPlan, FieldPlanSpec, PlanSpec};
use vstd::prelude::*;

verus! {

/// Calls `String::push`, which appends one character to the end of the
/// string and changes nothing else.
#[verifier::external_body]
fn push_char(text: &mut String, c: char)
    ensures
        final(text)@ == old(text)@.push(c),
{
    text.push(c)
}

/// The hexadecimal digit for a value below sixteen, in lower case.
pub open spec fn spec_hex_digit(value: int) -> char {
    if value == 0 {
        '0'
    } else if value == 1 {
        '1'
    } else if value == 2 {
        '2'
    } else if value == 3 {
        '3'
    } else if value == 4 {
        '4'
    } else if value == 5 {
        '5'
    } else if value == 6 {
        '6'
    } else if value == 7 {
        '7'
    } else if value == 8 {
        '8'
    } else if value == 9 {
        '9'
    } else if value == 10 {
        'a'
    } else if value == 11 {
        'b'
    } else if value == 12 {
        'c'
    } else if value == 13 {
        'd'
    } else if value == 14 {
        'e'
    } else {
        'f'
    }
}

/// A number in hexadecimal, most significant digit first, without leading
/// zeros.
pub open spec fn spec_hex(n: nat) -> Seq<char>
    decreases n,
{
    if n < 16 {
        seq![spec_hex_digit(n as int)]
    } else {
        spec_hex(n / 16).push(spec_hex_digit((n % 16) as int))
    }
}

/// Whether a character stands for itself inside a string literal: the
/// printable ASCII characters other than the quote and the backslash.
pub open spec fn spec_is_plain(c: char) -> bool {
    0x20 <= c as u32 <= 0x7e && c != '"' && c != '\\'
}

/// How one character is written inside a string literal. A plain character
/// stands for itself, quote and backslash get a backslash in front, and any
/// other character is written as `\u{..}` with its code in hexadecimal.
pub open spec fn spec_escape_char(c: char) -> Seq<char> {
    if spec_is_plain(c) {
        seq![c]
    } else if c == '"' {
        seq!['\\', '"']
    } else if c == '\\' {
        seq!['\\', '\\']
    } else {
        seq!['\\', 'u', '{'] + spec_hex(c as nat) + seq!['}']
    }
}

/// A text with every character written as inside a string literal.
pub open spec fn spec_escape(text: Seq<char>) -> Seq<char>
    decreases text.len(),
{
    if text.len() == 0 {
        Seq::empty()
    } else {
        spec_escape(text.drop_last()) + spec_escape_char(text.last())
    }
}

/// The string literal that denotes `text`: its escaped characters between
/// two quotes.
pub open spec fn spec_string_literal(text: Seq<char>) -> Seq<char> {
    seq!['"'] + spec_escape(text) + seq!['"']
}

fn hex_digit(value: u32) -> (digit: char)
    requires
        value < 16,
    ensures
        digit == spec_hex_digit(value as int),
{
    if value == 0 {
        '0'
    } else if value == 1 {
        '1'
    } else if value == 2 {
        '2'
    } else if value == 3 {
        '3'
    } else if value == 4 {
        '4'
    } else if value == 5 {
        '5'
    } else if value == 6 {
        '6'
    } else if value == 7 {
        '7'
    } else if value == 8 {
        '8'
    } else if value == 9 {
        '9'
    } else if value == 10 {
        'a'
    } else if value == 11 {
        'b'
    } else if value == 12 {
        'c'
    } else if value == 13 {
        'd'
    } else if value == 14 {
        'e'
    } else {
        'f'
    }
}

fn push_hex(out: &mut String, n: u32)
    ensures
        final(out)@ == old(out)@ + spec_hex(n as nat),
    decreases n,
{
    if n >= 16 {
        push_hex(out, n / 16);
    }
    let ghost before = out@;
    push_char(out, hex_digit(n % 16));
    proof {
        if n >= 16 {
            assert(before.push(spec_hex_digit((n % 16) as int)) =~= old(out)@ + spec_hex(
                n as nat,
            ));
        } else {
            assert(before.push(spec_hex_digit(n as int)) =~= old(out)@ + spec_hex(n as nat));
        }
    }
}

fn push_escaped(out: &mut String, c: char)
    ensures
        final(out)@ == old(out)@ + spec_escape_char(c),
{
    let code: u32 = c as u32;
    if 0x20 <= code && code <= 0x7e && c != '"' && c != '\\' {
        push_char(out, c);
        proof {
            assert(out@ =~= old(out)@ + spec_escape_char(c));
        }
    } else if c == '"' || c == '\\' {
        push_char(out, '\\');
        push_char(out, c);
        proof {
            assert(out@ =~= old(out)@ + spec_escape_char(c));
        }
    } else {
        push_char(out, '\\');
        push_char(out, 'u');
        push_char(out, '{');
        push_hex(out, code);
        push_char(out, '}');
        proof {
            assert(out@ =~= old(out)@ + spec_escape_char(c));
        }
    }
}

/// Writes `text` as a string literal that denotes it.
pub fn string_literal(text: &str) -> (literal: String)
    ensures
        literal@ == spec_string_literal(text@),
{
    let mut out = String::new();
    push_char(&mut out, '"');
    for c in it: text.chars()
        invariant
            it.seq() == text@,
            out@ == seq!['"'] + spec_escape(text@.take(it.index())),
    {
        let ghost before = out@;
        push_escaped(&mut out, c);
        proof {
            let k = it.index();
            assert(text@.take(k + 1).drop_last() =~= text@.take(k));
            assert(text@.take(k + 1).last() == c);
            assert(out@ =~= seq!['"'] + spec_escape(text@.take(k + 1)));
        }
    }
    proof {
        assert(text@.take(text@.len() as int) =~= text@);
    }
    push_char(&mut out, '"');
    out
}

/// The expression that asks the row for a field's value. A field with a
/// custom decoder calls it with the column name and the row, and makes no
/// lookup of its own; any other field looks its column up directly.
pub open spec fn spec_request_text(plan: FieldPlanSpec) -> Seq<char> {
    match plan.decoder {
        Some(decoder) => decoder + "("@ + spec_string_literal(plan.column) + ", row)"@,
        None => "row.try_get("@ + spec_string_literal(plan.column) + ")"@,
    }
}

/// The expression that yields a field's value or leaves the routine with the
/// field's error. Where the field asks for its default, the missing-column
/// error, and no other, is replaced by the default value first.
pub open spec fn spec_value_text(plan: FieldPlanSpec) -> Seq<char> {
    if plan.use_default {
        "match "@ + spec_request_text(plan)
            + " { ::std::result::Result::Err(::sqlx::Error::ColumnNotFound(_)) => ::std::result::Result::Ok(::std::default::Default::default()), val => val, }?"@
    } else {
        spec_request_text(plan) + "?"@
    }
}

/// One entry of the record expression: the field, its value, and a comma.
pub open spec fn spec_entry_text(plan: FieldPlanSpec) -> Seq<char> {
    plan.field + ": "@ + spec_value_text(plan) + ", "@
}

/// The entries of all fields, in declaration order.
pub open spec fn spec_entries_text(fields: Seq<FieldPlanSpec>) -> Seq<char>
    decreases fields.len(),
{
    if fields.len() == 0 {
        Seq::empty()
    } else {
        spec_entries_text(fields.drop_last()) + spec_entry_text(fields.last())
    }
}

/// The expression that builds the record. Its fields are evaluated from
/// first to last, and the first error leaves the routine.
pub open spec fn spec_record_text(fields: Seq<FieldPlanSpec>) -> Seq<char> {
    "Self { "@ + spec_entries_text(fields) + "}"@
}

/// The whole routine: an implementation of the row-decoding contract of the
/// plan's storage engine for the record type, with the type's own generics.
pub open spec fn spec_routine_text(plan: PlanSpec) -> Seq<char> {
    "impl "@ + plan.generics.impl_params + " ::sqlx::FromRow<'_, <"@ + plan.engine
        + " as ::sqlx::Database>::Row> for "@ + plan.record_name + " "@ + plan.generics.type_args
        + " "@ + plan.generics.where_clause + " { fn from_row(row: &<"@ + plan.engine
        + " as ::sqlx::Database>::Row) -> ::sqlx::Result<Self> { use ::sqlx::Row; Ok("@
        + spec_record_text(plan.fields) + ") } }"@
}

/// Writes the expression that asks the row for a field's value.
pub fn request_text(plan: &FieldPlan) -> (text: String)
    ensures
        text@ == spec_request_text(plan@),
{
    let literal = string_literal(plan.column.as_str());
    match &plan.decoder {
        Some(decoder) => {
            let mut out = decoder.clone();
            out.append("(");
            out.append(literal.as_str());
            out.append(", row)");
            out
        },
        None => {
            let mut out = String::from_str("row.try_get(");
            out.append(literal.as_str());
            out.append(")");
            out
        },
    }
}

/// Writes the expression that yields a field's value or leaves the routine
/// with the field's error.
pub fn value_text(plan: &FieldPlan) -> (text: String)
    ensures
        text@ == spec_value_text(plan@),
{
    let request = request_text(plan);
    if plan.use_default {
        let mut out = String::from_str("match ");
        out.append(request.as_str());
        out.append(
            " { ::std::result::Result::Err(::sqlx::Error::ColumnNotFound(_)) => ::std::result::Result::Ok(::std::default::Default::default()), val => val, }?",
        );
        out
    } else {
        let mut out = request;
        out.append("?");
        out
    }
}

/// Writes the expression that builds the record from its fields, in
/// declaration order.
pub fn record_text(fields: &Vec<FieldPlan>) -> (text: String)
    ensures
        text@ == spec_record_text(fields.deep_view()),
{
    let ghost all = fields.deep_view();
    let mut entries = String::new();
    let mut i: usize = 0;
    while i < fields.len()
        invariant
            i <= fields.len(),
            all == fields.deep_view(),
            entries@ == spec_entries_text(all.take(i as int)),
        decreases fields.len() - i,
    {
        let value = value_text(&fields[i]);
        let ghost before = entries@;
        entries.append(fields[i].field.as_str());
        entries.append(": ");
        entries.append(value.as_str());
        entries.append(", ");
        proof {
            assert(all.take(i + 1).drop_last() =~= all.take(i as int));
            assert(all.take(i + 1).last() == fields[i as int]@);
            assert(entries@ =~= before + spec_entry_text(fields[i as int]@));
        }
        i += 1;
    }
    proof {
        assert(all.take(i as int) =~= all);
    }
    let mut out = String::from_str("Self { ");
    out.append(entries.as_str());
    out.append("}");
    out
}

/// Writes the decoding routine that carries out `plan`.
pub fn routine_text(plan: &ExtractionPlan) -> (text: String)
    ensures
        text@ == spec_routine_text(plan@),
{
    let record = record_text(&plan.fields);
    let mut out = String::from_str("impl ");
    out.append(plan.generics.impl_params.as_str());
    out.append(" ::sqlx::FromRow<'_, <");
    out.append(plan.engine.as_str());
    out.append(" as ::sqlx::Database>::Row> for ");
    out.append(plan.record_name.as_str());
    out.append(" ");
    out.append(plan.generics.type_args.as_str());
    out.append(" ");
    out.append(plan.generics.where_clause.as_str());
    out.append(" { fn from_row(row: &<");
    out.append(plan.engine.as_str());
    out.append(" as ::sqlx::Database>::Row) -> ::sqlx::Result<Self> { use ::sqlx::Row; Ok(");
    out.append(record.as_str());
    out.append(") } }");
    out
}

} // verus!
