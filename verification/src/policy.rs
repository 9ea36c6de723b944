//! Naming policies: the case conversions a container may apply to every
//! field identifier to obtain its column name.

use crate::text::same_text;
use vstd::prelude::*;

verus! {

/// The text `heck::ToSnakeCase::to_snake_case` makes of `text`.
pub uninterp spec fn snake_case_of(text: Seq<char>) -> Seq<char>;

/// The text `heck::ToShoutySnakeCase::to_shouty_snake_case` makes of `text`.
pub uninterp spec fn shouty_snake_case_of(text: Seq<char>) -> Seq<char>;

/// The text `heck::ToLowerCamelCase::to_lower_camel_case` makes of `text`.
pub uninterp spec fn lower_camel_case_of(text: Seq<char>) -> Seq<char>;

/// The text `heck::ToUpperCamelCase::to_upper_camel_case` makes of `text`.
pub uninterp spec fn upper_camel_case_of(text: Seq<char>) -> Seq<char>;

/// The text `heck::ToKebabCase::to_kebab_case` makes of `text`.
pub uninterp spec fn kebab_case_of(text: Seq<char>) -> Seq<char>;

/// The text `str::to_lowercase` makes of `text`.
pub uninterp spec fn lowercase_of(text: Seq<char>) -> Seq<char>;

/// The text `str::to_uppercase` makes of `text`.
pub uninterp spec fn uppercase_of(text: Seq<char>) -> Seq<char>;

/// Calls `heck::ToSnakeCase::to_snake_case` on a string slice. The result is
/// a function of the input alone; nothing more is claimed of it.
#[verifier::external_body]
fn heck_snake_case(text: &str) -> (out: String)
    ensures
        out@ == snake_case_of(text@),
{
    heck::ToSnakeCase::to_snake_case(text)
}

/// Calls `heck::ToShoutySnakeCase::to_shouty_snake_case` on a string slice.
/// The result is a function of the input alone; nothing more is claimed of it.
#[verifier::external_body]
fn heck_shouty_snake_case(text: &str) -> (out: String)
    ensures
        out@ == shouty_snake_case_of(text@),
{
    heck::ToShoutySnakeCase::to_shouty_snake_case(text)
}

/// Calls `heck::ToLowerCamelCase::to_lower_camel_case` on a string slice.
/// The result is a function of the input alone; nothing more is claimed of it.
#[verifier::external_body]
fn heck_lower_camel_case(text: &str) -> (out: String)
    ensures
        out@ == lower_camel_case_of(text@),
{
    heck::ToLowerCamelCase::to_lower_camel_case(text)
}

/// Calls `heck::ToUpperCamelCase::to_upper_camel_case` on a string slice.
/// The result is a function of the input alone; nothing more is claimed of it.
#[verifier::external_body]
fn heck_upper_camel_case(text: &str) -> (out: String)
    ensures
        out@ == upper_camel_case_of(text@),
{
    heck::ToUpperCamelCase::to_upper_camel_case(text)
}

/// Calls `heck::ToKebabCase::to_kebab_case` on a string slice. The result is
/// a function of the input alone; nothing more is claimed of it.
#[verifier::external_body]
fn heck_kebab_case(text: &str) -> (out: String)
    ensures
        out@ == kebab_case_of(text@),
{
    heck::ToKebabCase::to_kebab_case(text)
}

/// Calls `str::to_lowercase`, which maps the text to lower case by the
/// Unicode tables of the standard library, whatever the locale. The result is
/// a function of the input alone; nothing more is claimed of it.
#[verifier::external_body]
fn std_lowercase(text: &str) -> (out: String)
    ensures
        out@ == lowercase_of(text@),
{
    text.to_lowercase()
}

/// Calls `str::to_uppercase`, which maps the text to upper case by the
/// Unicode tables of the standard library, whatever the locale. The result is
/// a function of the input alone; nothing more is claimed of it.
#[verifier::external_body]
fn std_uppercase(text: &str) -> (out: String)
    ensures
        out@ == uppercase_of(text@),
{
    text.to_uppercase()
}

/// A case conversion applied to every field identifier of a record, unless a
/// field names its column itself.
#[derive(Clone, Copy, Debug, PartialEq, Eq, Structural)]
pub enum NamingPolicy {
    /// Keeps the identifier as it is written.
    Identity,
    /// `lowercase`: every letter in lower case, nothing else changed.
    Lower,
    /// `UPPERCASE`: every letter in upper case, nothing else changed.
    Upper,
    /// `snake_case`: lower-case words joined by `_`.
    Snake,
    /// `SCREAMING_SNAKE_CASE`: upper-case words joined by `_`.
    ScreamingSnake,
    /// `camelCase`: capitalised words, the first in lower case.
    LowerCamel,
    /// `PascalCase`: capitalised words.
    UpperCamel,
    /// `kebab-case`: lower-case words joined by `-`.
    Kebab,
}

impl NamingPolicy {
    /// The token that selects this policy in a container annotation. The
    /// identity policy has none: it is what a container without a policy gets.
    pub open spec fn spec_token(self) -> Option<Seq<char>> {
        match self {
            NamingPolicy::Identity => None,
            NamingPolicy::Lower => Some("lowercase"@),
            NamingPolicy::Upper => Some("UPPERCASE"@),
            NamingPolicy::Snake => Some("snake_case"@),
            NamingPolicy::ScreamingSnake => Some("SCREAMING_SNAKE_CASE"@),
            NamingPolicy::LowerCamel => Some("camelCase"@),
            NamingPolicy::UpperCamel => Some("PascalCase"@),
            NamingPolicy::Kebab => Some("kebab-case"@),
        }
    }

    /// The policy a token selects, if it selects one.
    pub open spec fn spec_from_token(token: Seq<char>) -> Option<NamingPolicy> {
        if token == "snake_case"@ {
            Some(NamingPolicy::Snake)
        } else if token == "lowercase"@ {
            Some(NamingPolicy::Lower)
        } else if token == "UPPERCASE"@ {
            Some(NamingPolicy::Upper)
        } else if token == "camelCase"@ {
            Some(NamingPolicy::LowerCamel)
        } else if token == "PascalCase"@ {
            Some(NamingPolicy::UpperCamel)
        } else if token == "SCREAMING_SNAKE_CASE"@ {
            Some(NamingPolicy::ScreamingSnake)
        } else if token == "kebab-case"@ {
            Some(NamingPolicy::Kebab)
        } else {
            None
        }
    }

    /// The column name this policy derives from a field identifier.
    pub open spec fn spec_convert(self, identifier: Seq<char>) -> Seq<char> {
        match self {
            NamingPolicy::Identity => identifier,
            NamingPolicy::Lower => lowercase_of(identifier),
            NamingPolicy::Upper => uppercase_of(identifier),
            NamingPolicy::Snake => snake_case_of(identifier),
            NamingPolicy::ScreamingSnake => shouty_snake_case_of(identifier),
            NamingPolicy::LowerCamel => lower_camel_case_of(identifier),
            NamingPolicy::UpperCamel => upper_camel_case_of(identifier),
            NamingPolicy::Kebab => kebab_case_of(identifier),
        }
    }

    /// Reads a policy token. Only the seven tokens of the case conversions
    /// are recognised; any other text selects nothing.
    pub fn from_token(token: &str) -> (policy: Option<NamingPolicy>)
        ensures
            policy == Self::spec_from_token(token@),
    {
        if same_text(token, "snake_case") {
            Some(NamingPolicy::Snake)
        } else if same_text(token, "lowercase") {
            Some(NamingPolicy::Lower)
        } else if same_text(token, "UPPERCASE") {
            Some(NamingPolicy::Upper)
        } else if same_text(token, "camelCase") {
            Some(NamingPolicy::LowerCamel)
        } else if same_text(token, "PascalCase") {
            Some(NamingPolicy::UpperCamel)
        } else if same_text(token, "SCREAMING_SNAKE_CASE") {
            Some(NamingPolicy::ScreamingSnake)
        } else if same_text(token, "kebab-case") {
            Some(NamingPolicy::Kebab)
        } else {
            None
        }
    }

    /// The token that selects this policy, if it has one.
    pub fn token(&self) -> (token: Option<&'static str>)
        ensures
            token is Some <==> self.spec_token() is Some,
            token matches Some(text) ==> self.spec_token() == Some(text@),
    {
        match self {
            NamingPolicy::Identity => None,
            NamingPolicy::Lower => Some("lowercase"),
            NamingPolicy::Upper => Some("UPPERCASE"),
            NamingPolicy::Snake => Some("snake_case"),
            NamingPolicy::ScreamingSnake => Some("SCREAMING_SNAKE_CASE"),
            NamingPolicy::LowerCamel => Some("camelCase"),
            NamingPolicy::UpperCamel => Some("PascalCase"),
            NamingPolicy::Kebab => Some("kebab-case"),
        }
    }

    /// Derives a column name from a field identifier.
    pub fn convert(&self, identifier: &str) -> (column: String)
        ensures
            column@ == self.spec_convert(identifier@),
    {
        match self {
            NamingPolicy::Identity => String::from_str(identifier),
            NamingPolicy::Lower => std_lowercase(identifier),
            NamingPolicy::Upper => std_uppercase(identifier),
            NamingPolicy::Snake => heck_snake_case(identifier),
            NamingPolicy::ScreamingSnake => heck_shouty_snake_case(identifier),
            NamingPolicy::LowerCamel => heck_lower_camel_case(identifier),
            NamingPolicy::UpperCamel => heck_upper_camel_case(identifier),
            NamingPolicy::Kebab => heck_kebab_case(identifier),
        }
    }
}

/// Every policy that has a token is the policy its token selects.
pub proof fn lemma_token_selects_its_policy(policy: NamingPolicy)
    ensures
        policy.spec_token() matches Some(token) ==> NamingPolicy::spec_from_token(token) == Some(
            policy,
        ),
{
    reveal_strlit("snake_case");
    reveal_strlit("lowercase");
    reveal_strlit("UPPERCASE");
    reveal_strlit("camelCase");
    reveal_strlit("PascalCase");
    reveal_strlit("SCREAMING_SNAKE_CASE");
    reveal_strlit("kebab-case");
    assert("snake_case"@.len() == 10 && "snake_case"@[0] == 's');
    assert("lowercase"@.len() == 9 && "lowercase"@[0] == 'l');
    assert("UPPERCASE"@.len() == 9 && "UPPERCASE"@[0] == 'U');
    assert("camelCase"@.len() == 9 && "camelCase"@[0] == 'c');
    assert("PascalCase"@.len() == 10 && "PascalCase"@[0] == 'P');
    assert("SCREAMING_SNAKE_CASE"@.len() == 20);
    assert("kebab-case"@.len() == 10 && "kebab-case"@[0] == 'k');
}

/// No token selects the identity policy.
pub proof fn lemma_no_token_selects_identity(token: Seq<char>)
    ensures
        NamingPolicy::spec_from_token(token) != Some(NamingPolicy::Identity),
{
}

/// Converting twice under the identity policy gives what converting once
/// gives.
pub proof fn lemma_identity_conversion_is_idempotent(identifier: Seq<char>)
    ensures
        NamingPolicy::Identity.spec_convert(NamingPolicy::Identity.spec_convert(identifier))
            == NamingPolicy::Identity.spec_convert(identifier),
{
}

} // verus!
