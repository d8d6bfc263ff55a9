//! Plain inputs for an address and a password, each with the span that
//! takes its feedback.

use vstd::prelude::*;
use crate::templates::{escaped, push_escaped, Markup};

verus! {

/// What the span beside an input is made of.
pub const ERROR_OPEN: &'static str = "<span class=\"alert alert-danger inline-err\" role=\"alert\">";

pub const ERROR_CLOSE: &'static str = "</span>";

pub const NO_ERROR: &'static str = "<span></span>";

/// The span beside an input: the error in it where there is one, else
/// empty.
pub open spec fn error_span(error_msg: Option<&str>) -> Seq<char> {
    match error_msg {
        Some(e) => ERROR_OPEN@ + escaped(e@) + ERROR_CLOSE@,
        None => NO_ERROR@,
    }
}

/// Appends the span beside an input.
fn push_error_span(out: &mut String, error_msg: Option<&str>)
    ensures
        final(out)@ == old(out)@ + error_span(error_msg),
{
    match error_msg {
        Some(e) => {
            out.append(ERROR_OPEN);
            push_escaped(out, e);
            out.append(ERROR_CLOSE);
        },
        None => {
            out.append(NO_ERROR);
        },
    }
}

/// What the input for an address is made of.
pub const EMAIL_INPUT_OPEN: &'static str =
    "<input id=\"email\" name=\"email\" type=\"email\" placeholder=\"name@example.org\" value=\"";

pub const EMAIL_INPUT_GET: &'static str = "\" hx-get=\"";

pub const EMAIL_INPUT_CLOSE: &'static str =
    "\" hx-params=\"*\" hx-trigger=\"change, keyup delay:350ms changed\" hx-target=\"next span\" hx-target-500=\"next span\" hx-target-406=\"next span\" hx-swap=\"outerHTML\">";

/// An input for an address that has itself checked at `validation_url`
/// while the user types.
pub open spec fn email_input_markup(
    init_value: Seq<char>,
    validation_url: Seq<char>,
    error_msg: Option<&str>,
) -> Seq<char> {
    EMAIL_INPUT_OPEN@ + escaped(init_value) + EMAIL_INPUT_GET@ + escaped(validation_url)
        + EMAIL_INPUT_CLOSE@ + error_span(error_msg)
}

/// Renders an input for an address.
pub fn email_input(init_value: &str, validation_url: &str, error_msg: Option<&str>) -> (m: Markup)
    ensures
        m@ == email_input_markup(init_value@, validation_url@, error_msg),
{
    let mut out = String::from_str(EMAIL_INPUT_OPEN);
    push_escaped(&mut out, init_value);
    out.append(EMAIL_INPUT_GET);
    push_escaped(&mut out, validation_url);
    out.append(EMAIL_INPUT_CLOSE);
    push_error_span(&mut out, error_msg);
    Markup::new(out)
}

/// What the input for a password is made of.
pub const PASSWORD_INPUT_OPEN: &'static str =
    "<input id=\"password\" name=\"password\" type=\"password\" value=\"";

pub const PASSWORD_INPUT_CLOSE: &'static str =
    "\" hx-get=\"./password/validate\" hx-params=\"*\" hx-trigger=\"change, keyup delay:350ms changed\" hx-target=\"next span\" hx-swap=\"outerHTML\" _=\"on change or keyup debounced at 350ms\n                send newpass to #confirm-password\">";

/// An input for a password that has itself checked while the user types.
pub open spec fn password_input_markup(init_value: Seq<char>, error_msg: Option<&str>) -> Seq<
    char,
> {
    PASSWORD_INPUT_OPEN@ + escaped(init_value) + PASSWORD_INPUT_CLOSE@ + error_span(error_msg)
}

/// Renders an input for a password.
pub fn password_input(init_value: &str, error_msg: Option<&str>) -> (m: Markup)
    ensures
        m@ == password_input_markup(init_value@, error_msg),
{
    let mut out = String::from_str(PASSWORD_INPUT_OPEN);
    push_escaped(&mut out, init_value);
    out.append(PASSWORD_INPUT_CLOSE);
    push_error_span(&mut out, error_msg);
    Markup::new(out)
}

} // verus!
