//! The e-mail field.

use vstd::prelude::*;
use crate::db::Lookup;
use crate::email::{address_fault, parse_address};
use crate::templates::Markup;
use crate::user::new::input::{init_markup, Config, Feedback, InputField, Message};

verus! {

/// Why the e-mail field turns an address down.
#[derive(Debug, PartialEq, Eq)]
pub enum EmailError {
    /// The address does not parse; the parser's objection is kept.
    FormatError(String),
    Occupied,
    /// The store could not be asked; its report is kept.
    DBError(String),
}

impl Message for EmailError {
    open spec fn text(&self) -> Seq<char> {
        match self {
            EmailError::FormatError(e) => e@,
            EmailError::Occupied => "Email is occupied"@,
            EmailError::DBError(e) => "Database failed with: "@ + e@,
        }
    }

    fn message(&self) -> (s: String) {
        match self {
            EmailError::FormatError(e) => e.clone(),
            EmailError::Occupied => String::from_str("Email is occupied"),
            EmailError::DBError(e) => {
                let mut s = String::from_str("Database failed with: ");
                s.append(e.as_str());
                s
            },
        }
    }
}

/// An address, as typed into the form.
#[derive(Debug)]
pub struct EmailQuery {
    pub email: String,
    pub id: Option<u32>,
}

impl EmailQuery {
    /// A query without an asker.
    pub fn new(email: String) -> (query: Self)
        ensures
            query.email == email,
            query.id is None,
    {
        Self { email, id: None }
    }
}

/// What the address itself says: it has to parse.
pub open spec fn email_format_rule(email: Seq<char>) -> Result<(), EmailError> {
    match address_fault(email) {
        Some(fault) => Err(EmailError::FormatError(fault)),
        None => Ok(()),
    }
}

/// What the store's answer says of an address that parses: on this form
/// nobody is signed in, so an address that any account holds is taken.
pub open spec fn email_store_rule(found: Lookup) -> Result<(), EmailError> {
    match found {
        Err(e) => Err(EmailError::DBError(e)),
        Ok(Some(_)) => Err(EmailError::Occupied),
        Ok(None) => Ok(()),
    }
}

/// The rule of the e-mail field: the address parses, and no account has it.
pub open spec fn email_field_rule(email: Seq<char>, found: Lookup) -> Result<(), EmailError> {
    match email_format_rule(email) {
        Err(e) => Err(e),
        Ok(()) => email_store_rule(found),
    }
}

impl Feedback<EmailError> for EmailQuery {
    open spec fn value(&self) -> String {
        self.email
    }

    open spec fn settled(&self) -> Option<Result<(), EmailError>> {
        match email_format_rule(self.email@) {
            Err(e) => Some(Err(e)),
            Ok(()) => None,
        }
    }

    open spec fn rule(&self, found: Lookup) -> Result<(), EmailError> {
        email_field_rule(self.email@, found)
    }

    open spec fn cfg_spec() -> Config {
        Config {
            label: "Email",
            name: "email",
            kind: Some("text"),
            placeholder: Some("alice@example.org"),
            validate_api: Some("./email/validate"),
            hyper_script: None,
        }
    }

    proof fn settled_is_final(&self, found: Lookup) {
    }

    fn cfg() -> (cfg: Config) {
        Config {
            label: "Email",
            name: "email",
            kind: Some("text"),
            placeholder: Some("alice@example.org"),
            validate_api: Some("./email/validate"),
            hyper_script: None,
        }
    }

    fn settle(&self) -> (verdict: Option<Result<(), EmailError>>) {
        match parse_address(self.email.as_str()) {
            Some(fault) => Some(Err(EmailError::FormatError(fault))),
            None => None,
        }
    }

    fn validate(&self, found: &Lookup) -> (verdict: Result<(), EmailError>) {
        if let Some(fault) = parse_address(self.email.as_str()) {
            return Err(EmailError::FormatError(fault));
        }
        let id = match found {
            Ok(id) => id,
            Err(e) => return Err(EmailError::DBError(e.clone())),
        };
        match id {
            Some(_) => Err(EmailError::Occupied),
            None => Ok(()),
        }
    }

    fn into_value(self) -> (value: String) {
        self.email
    }
}

/// The e-mail field before anything was typed.
pub fn init_input() -> (m: Markup)
    ensures
        m@ == init_markup(EmailQuery::cfg_spec()),
{
    InputField::<EmailError>::new(EmailQuery::cfg()).into_markup()
}

} // verus!
