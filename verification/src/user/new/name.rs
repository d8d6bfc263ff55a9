//! The name field.

use vstd::prelude::*;
use crate::db::Lookup;
use crate::templates::Markup;
use crate::unicode::byte_len;
use crate::user::new::input::{
    first_bad_name_char, first_rejected, first_rejected_at, first_rejected_none, name_char,
    init_markup, name_chars, Config, Feedback, InputField, Message,
};

verus! {

/// Why a name is turned down.
#[derive(Debug, PartialEq, Eq)]
pub enum NameError {
    TooShort,
    TooLong,
    InvalidChar(char),
    Occupied,
    /// The store could not be asked; its report is kept.
    DBError(String),
}

impl Message for NameError {
    open spec fn text(&self) -> Seq<char> {
        match self {
            NameError::TooShort => "name is too short"@,
            NameError::TooLong => "name is too long"@,
            NameError::InvalidChar(c) => "name has invalid char: "@.push(*c),
            NameError::Occupied => "name is occupied"@,
            NameError::DBError(e) => "Database failed with: "@ + e@,
        }
    }

    fn message(&self) -> (s: String) {
        match self {
            NameError::TooShort => String::from_str("name is too short"),
            NameError::TooLong => String::from_str("name is too long"),
            NameError::InvalidChar(c) => {
                let mut s = String::from_str("name has invalid char: ");
                s.push(*c);
                s
            },
            NameError::Occupied => String::from_str("name is occupied"),
            NameError::DBError(e) => {
                let mut s = String::from_str("Database failed with: ");
                s.append(e.as_str());
                s
            },
        }
    }
}

/// A name, as typed into the form.
#[derive(Debug)]
pub struct NameQuery {
    pub name: String,
}

/// What the name's characters and length say of it.
pub open spec fn name_format_rule(name: Seq<char>) -> Result<(), NameError> {
    match first_rejected(name, name_chars()) {
        Some(c) => Err(NameError::InvalidChar(c)),
        None => if byte_len(name) < NameQuery::MIN {
            Err(NameError::TooShort)
        } else if byte_len(name) > NameQuery::MAX {
            Err(NameError::TooLong)
        } else {
            Ok(())
        },
    }
}

/// What the store's answer says of a well-formed name: it must be nobody's.
pub open spec fn name_store_rule(found: Lookup) -> Result<(), NameError> {
    match found {
        Ok(Some(_)) => Err(NameError::Occupied),
        Ok(None) => Ok(()),
        Err(e) => Err(NameError::DBError(e)),
    }
}

/// The name rule: the first of these that fails decides. Every character is a
/// letter, a number, `_` or `-`; the name is 4 to 32 bytes long; no account
/// has it.
pub open spec fn name_rule(name: Seq<char>, found: Lookup) -> Result<(), NameError> {
    match name_format_rule(name) {
        Err(e) => Err(e),
        Ok(()) => name_store_rule(found),
    }
}

impl NameQuery {
    /// The least and the greatest length of a name, in bytes.
    pub const MIN: usize = 4;

    pub const MAX: usize = 32;

    /// The checks that need no look at the store.
    pub fn check_format(&self) -> (verdict: Result<(), NameError>)
        ensures
            verdict == name_format_rule(self.name@),
    {
        if let Some(c) = first_bad_name_char(self.name.as_str()) {
            return Err(NameError::InvalidChar(c));
        }
        let len = self.name.as_str().as_bytes().len();
        if len < Self::MIN {
            return Err(NameError::TooShort);
        }
        if len > Self::MAX {
            return Err(NameError::TooLong);
        }
        Ok(())
    }
}

impl Feedback<NameError> for NameQuery {
    open spec fn value(&self) -> String {
        self.name
    }

    open spec fn settled(&self) -> Option<Result<(), NameError>> {
        match name_format_rule(self.name@) {
            Err(e) => Some(Err(e)),
            Ok(()) => None,
        }
    }

    open spec fn rule(&self, found: Lookup) -> Result<(), NameError> {
        name_rule(self.name@, found)
    }

    open spec fn cfg_spec() -> Config {
        Config {
            label: "Name",
            name: "name",
            kind: Some("text"),
            placeholder: Some("Alice"),
            validate_api: Some("./name/validate"),
            hyper_script: None,
        }
    }

    proof fn settled_is_final(&self, found: Lookup) {
    }

    fn cfg() -> (cfg: Config) {
        Config {
            label: "Name",
            name: "name",
            kind: Some("text"),
            placeholder: Some("Alice"),
            validate_api: Some("./name/validate"),
            hyper_script: None,
        }
    }

    fn settle(&self) -> (verdict: Option<Result<(), NameError>>) {
        match self.check_format() {
            Err(e) => Some(Err(e)),
            Ok(()) => None,
        }
    }

    fn validate(&self, found: &Lookup) -> (verdict: Result<(), NameError>) {
        if let Err(e) = self.check_format() {
            return Err(e);
        }
        match found {
            Ok(id) => {
                if id.is_some() {
                    return Err(NameError::Occupied);
                }
            },
            Err(e) => {
                return Err(NameError::DBError(e.clone()));
            },
        }
        Ok(())
    }

    fn into_value(self) -> (value: String) {
        self.name
    }
}

/// The name field before anything was typed.
pub fn init_input() -> (m: Markup)
    ensures
        m@ == init_markup(NameQuery::cfg_spec()),
{
    InputField::<NameError>::new(NameQuery::cfg()).into_markup()
}

/// A name of fewer than four bytes, all of them allowed characters, is too
/// short, whatever the store holds; the name alone settles it, so the store
/// is not asked.
pub proof fn short_name_is_too_short(query: NameQuery, found: Lookup)
    requires
        byte_len(query.name@) < 4,
        forall|i: int| 0 <= i < query.name@.len() ==> name_char(query.name@[i]),
    ensures
        query.rule(found) == Err::<(), NameError>(NameError::TooShort),
        query.settled() == Some(Err::<(), NameError>(NameError::TooShort)),
{
    first_rejected_none(query.name@, name_chars());
}

/// A name of more than 32 bytes, all of them allowed characters, is too long,
/// whatever the store holds; the name alone settles it, so the store is not
/// asked.
pub proof fn long_name_is_too_long(query: NameQuery, found: Lookup)
    requires
        byte_len(query.name@) > 32,
        forall|i: int| 0 <= i < query.name@.len() ==> name_char(query.name@[i]),
    ensures
        query.rule(found) == Err::<(), NameError>(NameError::TooLong),
        query.settled() == Some(Err::<(), NameError>(NameError::TooLong)),
{
    first_rejected_none(query.name@, name_chars());
}

/// A name with a character that is not allowed is turned down for the first
/// such character, whatever its length and whatever the store holds.
pub proof fn bad_name_char_is_reported(query: NameQuery, found: Lookup, i: int)
    requires
        0 <= i < query.name@.len(),
        !name_char(query.name@[i]),
        forall|j: int| 0 <= j < i ==> name_char(query.name@[j]),
    ensures
        query.rule(found) == Err::<(), NameError>(NameError::InvalidChar(query.name@[i])),
        query.settled() == Some(Err::<(), NameError>(NameError::InvalidChar(query.name@[i]))),
{
    first_rejected_at(query.name@, name_chars(), i);
}

/// A well-formed name passes exactly when no account has it.
pub proof fn free_name_passes(query: NameQuery, found: Lookup)
    requires
        name_format_rule(query.name@) is Ok,
    ensures
        query.settled() is None,
        query.rule(found) is Ok <==> found == Ok::<Option<i32>, String>(None),
        found matches Ok(Some(_)) ==> query.rule(found) == Err::<(), NameError>(
            NameError::Occupied,
        ),
        found matches Err(e) ==> query.rule(found) == Err::<(), NameError>(NameError::DBError(e)),
{
}

} // verus!
