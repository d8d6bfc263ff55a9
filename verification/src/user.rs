//! Accounts: creating one, and the rule a password obeys.

use vstd::prelude::*;
use vstd::std_specs::convert::FromSpecImpl;
use crate::templates::{escaped, push_escaped, Markup};
use crate::unicode::{alphabetic, byte_len, lowercase, numeric, uppercase};
use crate::user::new::input::{first_rejected, first_rejected_at, first_rejected_none, Message};

pub mod login;
pub mod new;
pub mod templates;

verus! {

/// An account, as the store holds it.
#[derive(Debug, Default, Clone, PartialEq, Eq)]
pub struct User {
    pub id: i32,
    pub password_hash: String,
    pub name: String,
    pub email: String,
}

/// The id of an account among `users` that has the name `name`, if one has:
/// what the store answers when asked for the name.
pub open spec fn holder_of_name(users: Seq<User>, name: Seq<char>) -> Option<i32> {
    if exists|i: int| 0 <= i < users.len() && (#[trigger] users[i]).name@ == name {
        Some(users[choose|i: int| 0 <= i < users.len() && (#[trigger] users[i]).name@ == name].id)
    } else {
        None
    }
}

/// The id of an account among `users` that has the address `email`, if one
/// has: what the store answers when asked for the address.
pub open spec fn holder_of_email(users: Seq<User>, email: Seq<char>) -> Option<i32> {
    if exists|i: int| 0 <= i < users.len() && (#[trigger] users[i]).email@ == email {
        Some(
            users[choose|i: int| 0 <= i < users.len() && (#[trigger] users[i]).email@ == email].id,
        )
    } else {
        None
    }
}

/// The punctuation that a password may hold, the space among it.
pub const SPECIAL_CHARS: &'static str = " !\"#$%&'()*+,-./:;<=>?@[\\]^_`{|}~";

/// Why a password is turned down.
#[derive(Debug, PartialEq, Eq, Hash, Clone, Copy)]
pub enum PasswordFormatError {
    InvalidChar(char),
    TooShort,
    TooLong,
    NoUpper,
    NoLower,
    NoNumeric,
}

impl Message for PasswordFormatError {
    open spec fn text(&self) -> Seq<char> {
        match self {
            PasswordFormatError::InvalidChar(c) => "Forbidden: "@.push(*c),
            PasswordFormatError::TooShort => "Too short"@,
            PasswordFormatError::TooLong => "Too long"@,
            PasswordFormatError::NoUpper => "No upper-case"@,
            PasswordFormatError::NoLower => "No lower-case"@,
            PasswordFormatError::NoNumeric => "No number"@,
        }
    }

    fn message(&self) -> (s: String) {
        match self {
            PasswordFormatError::InvalidChar(c) => {
                let mut s = String::from_str("Forbidden: ");
                s.push(*c);
                s
            },
            PasswordFormatError::TooShort => String::from_str("Too short"),
            PasswordFormatError::TooLong => String::from_str("Too long"),
            PasswordFormatError::NoUpper => String::from_str("No upper-case"),
            PasswordFormatError::NoLower => String::from_str("No lower-case"),
            PasswordFormatError::NoNumeric => String::from_str("No number"),
        }
    }
}

/// A character that a password may hold: a letter, a number, or one of
/// [`SPECIAL_CHARS`].
pub open spec fn password_char(c: char) -> bool {
    alphabetic(c) || numeric(c) || SPECIAL_CHARS@.contains(c)
}

/// The characters that a password is made of, as a predicate.
pub open spec fn password_chars() -> spec_fn(char) -> bool {
    |c: char| password_char(c)
}

/// Whether some character of `text` is of the class `class`.
pub open spec fn holds_some(text: Seq<char>, class: spec_fn(char) -> bool) -> bool {
    exists|i: int| 0 <= i < text.len() && class(#[trigger] text[i])
}

/// The lowercase letters, as a predicate.
pub open spec fn lowercase_letters() -> spec_fn(char) -> bool {
    |c: char| lowercase(c)
}

/// The uppercase letters, as a predicate.
pub open spec fn uppercase_letters() -> spec_fn(char) -> bool {
    |c: char| uppercase(c)
}

/// The numbers, as a predicate.
pub open spec fn numbers() -> spec_fn(char) -> bool {
    |c: char| numeric(c)
}

/// Whether `text` holds a lowercase letter.
pub open spec fn has_lowercase(text: Seq<char>) -> bool {
    holds_some(text, lowercase_letters())
}

/// Whether `text` holds an uppercase letter.
pub open spec fn has_uppercase(text: Seq<char>) -> bool {
    holds_some(text, uppercase_letters())
}

/// Whether `text` holds a number.
pub open spec fn has_numeric(text: Seq<char>) -> bool {
    holds_some(text, numbers())
}

/// One character more holds the class if the characters before it do, or if
/// it is of the class itself.
proof fn holds_some_step(text: Seq<char>, n: int, class: spec_fn(char) -> bool)
    requires
        0 <= n < text.len(),
    ensures
        holds_some(text.take(n + 1), class) == (holds_some(text.take(n), class) || class(text[n])),
{
    let seen = text.take(n);
    let next = text.take(n + 1);
    if holds_some(next, class) {
        let j = choose|j: int| 0 <= j < next.len() && class(#[trigger] next[j]);
        if j < n {
            assert(class(seen[j]));
        }
    }
    if holds_some(seen, class) {
        let j = choose|j: int| 0 <= j < seen.len() && class(#[trigger] seen[j]);
        assert(class(next[j]));
    }
    if class(text[n]) {
        assert(class(next[n]));
    }
}

/// The password rule: the first of these that fails decides. Every character
/// is allowed; the password is 6 to 64 bytes long; it holds a lowercase
/// letter, an uppercase letter and a number.
pub open spec fn password_rule(password: Seq<char>) -> Result<(), PasswordFormatError> {
    match first_rejected(password, password_chars()) {
        Some(c) => Err(PasswordFormatError::InvalidChar(c)),
        None => if byte_len(password) < PasswordQuery::MIN {
            Err(PasswordFormatError::TooShort)
        } else if byte_len(password) > PasswordQuery::MAX {
            Err(PasswordFormatError::TooLong)
        } else if !has_lowercase(password) {
            Err(PasswordFormatError::NoLower)
        } else if !has_uppercase(password) {
            Err(PasswordFormatError::NoUpper)
        } else if !has_numeric(password) {
            Err(PasswordFormatError::NoNumeric)
        } else {
            Ok(())
        },
    }
}

/// The kinds of character that a password must hold, each found or not.
struct Kinds {
    lower: bool,
    upper: bool,
    numeric: bool,
}

/// Whether `c` is one of [`SPECIAL_CHARS`].
fn is_special(c: char) -> (found: bool)
    ensures
        found == SPECIAL_CHARS@.contains(c),
{
    for x in it: SPECIAL_CHARS.chars()
        invariant
            it.seq() == SPECIAL_CHARS@,
            forall|j: int| 0 <= j < it.index() ==> SPECIAL_CHARS@[j] != c,
    {
        if x == c {
            return true;
        }
    }
    false
}

/// The first character of `text` that a password may not hold.
fn first_bad_password_char(text: &str) -> (bad: Option<char>)
    ensures
        bad == first_rejected(text@, password_chars()),
{
    assert(text@.skip(0) =~= text@);
    for c in it: text.chars()
        invariant
            it.seq() == text@,
            first_rejected(text@, password_chars()) == first_rejected(
                text@.skip(it.index() as int),
                password_chars(),
            ),
    {
        if !PasswordQuery::validate_char(&c) {
            return Some(c);
        }
        assert(text@.skip(it.index() as int).skip(1) =~= text@.skip(it.index() + 1));
    }
    None
}

/// Looks for each kind of character that a password must hold.
fn kinds_in(text: &str) -> (kinds: Kinds)
    ensures
        kinds.lower == has_lowercase(text@),
        kinds.upper == has_uppercase(text@),
        kinds.numeric == has_numeric(text@),
{
    let mut kinds = Kinds { lower: false, upper: false, numeric: false };
    for c in it: text.chars()
        invariant
            it.seq() == text@,
            kinds.lower == has_lowercase(text@.take(it.index() as int)),
            kinds.upper == has_uppercase(text@.take(it.index() as int)),
            kinds.numeric == has_numeric(text@.take(it.index() as int)),
    {
        proof {
            holds_some_step(text@, it.index() as int, lowercase_letters());
            holds_some_step(text@, it.index() as int, uppercase_letters());
            holds_some_step(text@, it.index() as int, numbers());
        }
        if c.is_lowercase() {
            kinds.lower = true;
        }
        if c.is_uppercase() {
            kinds.upper = true;
        }
        if c.is_numeric() {
            kinds.numeric = true;
        }
    }
    assert(text@.take(text@.len() as int) =~= text@);
    kinds
}

/// The rule applied to a password as text.
pub fn check_password(password: &str) -> (verdict: Result<(), PasswordFormatError>)
    ensures
        verdict == password_rule(password@),
{
    if let Some(c) = first_bad_password_char(password) {
        return Err(PasswordFormatError::InvalidChar(c));
    }
    let len = password.as_bytes().len();
    if len < PasswordQuery::MIN {
        return Err(PasswordFormatError::TooShort);
    }
    if len > PasswordQuery::MAX {
        return Err(PasswordFormatError::TooLong);
    }
    let kinds = kinds_in(password);
    if !kinds.lower {
        return Err(PasswordFormatError::NoLower);
    }
    if !kinds.upper {
        return Err(PasswordFormatError::NoUpper);
    }
    if !kinds.numeric {
        return Err(PasswordFormatError::NoNumeric);
    }
    Ok(())
}

/// A password, as it arrives with a request.
#[derive(Debug)]
pub struct PasswordQuery {
    pub password: String,
}

impl From<&str> for PasswordQuery {
    /// A query for the password `value`.
    fn from(value: &str) -> (query: Self)
        ensures
            query.password@ == value@,
    {
        Self { password: String::from_str(value) }
    }
}

impl FromSpecImpl<&str> for PasswordQuery {
    open spec fn obeys_from_spec() -> bool {
        false
    }

    open spec fn from_spec(v: &str) -> Self {
        arbitrary()
    }
}

/// What the feedback on a password is made of.
pub const FEEDBACK_OK: &'static str =
    "<span class=\"ok\" id=\"password-feedback\" _=\"\n                    on load send password(ok:true) to next &lt;button/&gt;\">✅</span>";

pub const FEEDBACK_ERR_OPEN: &'static str =
    "<span class=\"alert alert-danger inline-err\" id=\"password-feedback\" role=\"alert\" _=\"\n                    on load send password(ok:false) to next &lt;button/&gt;\">";

pub const FEEDBACK_ERR_CLOSE: &'static str = "</span>";

/// The fragment that answers a password check: a mark where the password
/// passes, otherwise the error in words. Either way it tells the form's
/// button whether the password will do.
pub open spec fn password_feedback(verdict: Result<(), PasswordFormatError>) -> Seq<char> {
    match verdict {
        Ok(()) => FEEDBACK_OK@,
        Err(e) => FEEDBACK_ERR_OPEN@ + escaped(e.text()) + FEEDBACK_ERR_CLOSE@,
    }
}

impl PasswordQuery {
    /// The least and the greatest length of a password, in bytes.
    pub const MIN: usize = 6;

    pub const MAX: usize = 64;

    /// Whether a password may hold `c`.
    pub fn validate_char(c: &char) -> (ok: bool)
        ensures
            ok == password_char(*c),
    {
        if c.is_alphabetic() {
            return true;
        }
        if c.is_numeric() {
            return true;
        }
        if is_special(*c) {
            return true;
        }
        false
    }

    /// Applies the password rule.
    pub fn validate(&self) -> (verdict: Result<(), PasswordFormatError>)
        ensures
            verdict == password_rule(self.password@),
    {
        check_password(self.password.as_str())
    }

    /// Renders what the rule says of the password.
    pub fn get_feedback(&self) -> (m: Markup)
        ensures
            m@ == password_feedback(password_rule(self.password@)),
    {
        match self.validate() {
            Ok(_) => Markup::new(String::from_str(FEEDBACK_OK)),
            Err(e) => {
                let mut out = String::from_str(FEEDBACK_ERR_OPEN);
                let text = e.message();
                push_escaped(&mut out, text.as_str());
                out.append(FEEDBACK_ERR_CLOSE);
                Markup::new(out)
            },
        }
    }
}

/// A password with a character that is not allowed is turned down for the
/// first such character, whatever else holds of it.
pub proof fn bad_password_char_is_reported(password: Seq<char>, i: int)
    requires
        0 <= i < password.len(),
        !password_char(password[i]),
        forall|j: int| 0 <= j < i ==> password_char(password[j]),
    ensures
        password_rule(password) == Err::<(), PasswordFormatError>(
            PasswordFormatError::InvalidChar(password[i]),
        ),
{
    first_rejected_at(password, password_chars(), i);
}

/// A password passes exactly when all its characters are allowed, it is 6 to
/// 64 bytes long, and it holds a lowercase letter, an uppercase letter and a
/// number.
pub proof fn password_passes_iff(password: Seq<char>)
    ensures
        password_rule(password) is Ok <==> {
            &&& forall|i: int| 0 <= i < password.len() ==> password_char(password[i])
            &&& 6 <= byte_len(password) <= 64
            &&& has_lowercase(password)
            &&& has_uppercase(password)
            &&& has_numeric(password)
        },
{
    first_rejected_none(password, password_chars());
}

} // verus!
