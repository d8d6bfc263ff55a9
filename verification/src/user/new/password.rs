//! The password field.

use vstd::prelude::*;
use crate::db::Lookup;
use crate::templates::Markup;
use crate::user::new::input::{init_markup, Config, Feedback, InputField};
use crate::user::{check_password, password_rule, PasswordFormatError};

verus! {

/// Why the password field turns a password down.
pub type PasswordError = PasswordFormatError;

/// A password, as typed into the form.
#[derive(Debug)]
pub struct PasswordQuery {
    pub password: String,
}

/// What the password field does as the user types: it has the confirmation
/// checked again.
pub const PASSWORD_SCRIPT: &'static str =
    "on change or keyup debounced at 350ms\n            send newpass to #confirm-password\n        end";

impl Feedback<PasswordError> for PasswordQuery {
    open spec fn value(&self) -> String {
        self.password
    }

    /// The password rule asks nothing of the store: the value settles it.
    open spec fn settled(&self) -> Option<Result<(), PasswordError>> {
        Some(password_rule(self.password@))
    }

    open spec fn rule(&self, found: Lookup) -> Result<(), PasswordError> {
        password_rule(self.password@)
    }

    open spec fn cfg_spec() -> Config {
        Config {
            label: "Password",
            name: "password",
            kind: Some("password"),
            placeholder: None,
            validate_api: Some("./password/validate"),
            hyper_script: Some(PASSWORD_SCRIPT),
        }
    }

    proof fn settled_is_final(&self, found: Lookup) {
    }

    fn cfg() -> (cfg: Config) {
        Config {
            label: "Password",
            name: "password",
            kind: Some("password"),
            placeholder: None,
            validate_api: Some("./password/validate"),
            hyper_script: Some(PASSWORD_SCRIPT),
        }
    }

    fn settle(&self) -> (verdict: Option<Result<(), PasswordError>>) {
        Some(check_password(self.password.as_str()))
    }

    fn validate(&self, _found: &Lookup) -> (verdict: Result<(), PasswordError>) {
        check_password(self.password.as_str())
    }

    fn into_value(self) -> (value: String) {
        self.password
    }
}

/// The password field before anything was typed.
pub fn init_input() -> (m: Markup)
    ensures
        m@ == init_markup(PasswordQuery::cfg_spec()),
{
    InputField::<PasswordError>::new(PasswordQuery::cfg()).into_markup()
}

} // verus!
