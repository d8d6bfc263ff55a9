//! The rule for an e-mail address: it has to parse, and it has to be free or
//! the asker's own.

use email_address::EmailAddress;
use vstd::prelude::*;
use crate::db::Lookup;
use crate::templates::{escaped, push_escaped, Markup};
use crate::user::new::input::Message;

verus! {

/// What the address parser objects to in `email`, in its own words; `None`
/// where it accepts `email`.
pub uninterp spec fn address_fault(email: Seq<char>) -> Option<String>;

/// Parses `email` as an address and hands back the parser's objection.
///
/// Calls `EmailAddress::from_str`, which parses with the crate's default
/// options and returns the address or an `email_address::Error`; the error
/// is turned into text by its `Display`. The parser reads nothing but its
/// argument, so the outcome is a function of `email`: that is all that is
/// claimed.
#[verifier::external_body]
pub(crate) fn parse_address(email: &str) -> (fault: Option<String>)
    ensures
        fault == address_fault(email@),
{
    match <EmailAddress as std::str::FromStr>::from_str(email) {
        Ok(_) => None,
        Err(e) => Some(format!("{}", e)),
    }
}

/// An address to check, with the id of whoever asks, if they have one.
#[derive(Debug)]
pub struct EmailQuery {
    pub email: String,
    pub id: Option<u32>,
}

impl EmailQuery {
    /// A query without an asker.
    pub fn new(email: String) -> (query: Self)
        ensures
            query.email == email,
            query.id is None,
    {
        Self { email, id: None }
    }
}

/// Why an address is turned down.
#[derive(Debug, PartialEq, Eq)]
pub enum EmailError {
    /// The address does not parse; the parser's objection is kept.
    FormatError(String),
    Occupied,
}

impl Message for EmailError {
    open spec fn text(&self) -> Seq<char> {
        match self {
            EmailError::FormatError(e) => e@,
            EmailError::Occupied => "Email is occupied"@,
        }
    }

    fn message(&self) -> (s: String) {
        match self {
            EmailError::FormatError(e) => e.clone(),
            EmailError::Occupied => String::from_str("Email is occupied"),
        }
    }
}

/// Whether an address is new to the store.
#[derive(Debug)]
pub struct IsNew(pub bool);

impl Message for IsNew {
    open spec fn text(&self) -> Seq<char> {
        if self.0 {
            "✅"@
        } else {
            Seq::empty()
        }
    }

    fn message(&self) -> (s: String) {
        if self.0 {
            String::from_str("✅")
        } else {
            String::new()
        }
    }
}

/// The verdict on an address.
#[derive(Debug, PartialEq, Eq)]
pub struct EmailFeedBack(pub Result<(), EmailError>);

/// What the feedback on an address is made of.
pub const EMAIL_OK: &'static str = "<span>✅</span>";

pub const EMAIL_ERR_OPEN: &'static str = "<span class=\"alert alert-danger inline-err\" role=\"alert\">";

pub const EMAIL_ERR_CLOSE: &'static str = "</span>";

impl EmailFeedBack {
    /// The fragment that shows the feedback, as a mark or as the error in words.
    pub open spec fn markup(&self) -> Seq<char> {
        match self.0 {
            Ok(()) => EMAIL_OK@,
            Err(e) => EMAIL_ERR_OPEN@ + escaped(e.text()) + EMAIL_ERR_CLOSE@,
        }
    }

    /// Feedback that accepts the address.
    pub fn ok(new: bool) -> (feedback: Self)
        ensures
            feedback.0 == Ok::<(), EmailError>(()),
    {
        Self(Ok(()))
    }

    /// Feedback that turns the address down.
    pub fn err(e: EmailError) -> (feedback: Self)
        ensures
            feedback.0 == Err::<(), EmailError>(e),
    {
        Self(Err(e))
    }

    /// Renders the feedback.
    pub fn into_markup(self) -> (m: Markup)
        ensures
            m@ == self.markup(),
    {
        match self.0 {
            Ok(_) => Markup::new(String::from_str(EMAIL_OK)),
            Err(e) => {
                let mut out = String::from_str(EMAIL_ERR_OPEN);
                let text = e.message();
                push_escaped(&mut out, text.as_str());
                out.append(EMAIL_ERR_CLOSE);
                Markup::new(out)
            },
        }
    }
}

impl Default for EmailFeedBack {
    fn default() -> (feedback: Self)
        ensures
            feedback.0 == Ok::<(), EmailError>(()),
    {
        Self(Ok(()))
    }
}

/// Whether the address is free to take for the asker: nobody holds it, or
/// the asker does.
pub open spec fn free_or_own(owner: Option<i32>, user_id: Option<u32>) -> bool {
    match owner {
        None => true,
        Some(owner) => user_id matches Some(id) && id as int == owner as int,
    }
}

/// The address rule: the address parses, and it is free or the asker's own.
/// `owner` is the account that holds the address, if one does.
pub open spec fn email_rule(email: Seq<char>, user_id: Option<u32>, owner: Option<i32>) -> Result<
    (),
    EmailError,
> {
    match address_fault(email) {
        Some(fault) => Err(EmailError::FormatError(fault)),
        None => if free_or_own(owner, user_id) {
            Ok(())
        } else {
            Err(EmailError::Occupied)
        },
    }
}

/// The feedback that the address alone settles: an address that does not
/// parse is turned down without a look at the store.
pub open spec fn email_settled(email: Seq<char>) -> Option<EmailFeedBack> {
    match address_fault(email) {
        Some(fault) => Some(EmailFeedBack(Err(EmailError::FormatError(fault)))),
        None => None,
    }
}

/// The verdict on an address, `found` being the store's answer about it. A
/// store that could not answer fails the check as a whole, with its report,
/// unless the address did not parse to begin with.
pub open spec fn email_verdict(email: Seq<char>, user_id: Option<u32>, found: Lookup) -> Result<
    EmailFeedBack,
    String,
> {
    match email_settled(email) {
        Some(feedback) => Ok(feedback),
        None => match found {
            Err(e) => Err(e),
            Ok(owner) => Ok(EmailFeedBack(email_rule(email, user_id, owner))),
        },
    }
}

/// The first step of a check: what the address alone settles. On `None` the
/// store has to be asked who holds the address.
pub fn settle_email(email: &str) -> (feedback: Option<EmailFeedBack>)
    ensures
        feedback == email_settled(email@),
{
    match parse_address(email) {
        Some(fault) => Some(EmailFeedBack::err(EmailError::FormatError(fault))),
        None => None,
    }
}

/// Whether the asker may have the address.
fn is_free_or_own(owner: Option<i32>, user_id: Option<u32>) -> (free: bool)
    ensures
        free == free_or_own(owner, user_id),
{
    match owner {
        None => true,
        Some(owner) => match user_id {
            Some(id) => owner >= 0 && owner as u32 == id,
            None => false,
        },
    }
}

/// check if email string is formated proparly and if occupied
pub fn validate_email(q: EmailQuery, found: &Lookup) -> (verdict: Result<EmailFeedBack, String>)
    ensures
        verdict == email_verdict(q.email@, q.id, *found),
{
    validate_user_email(found, q.email.as_str(), q.id)
}

/// check if email string is formated proparly and if occupied
pub fn validate_user_email(found: &Lookup, email: &str, user_id: Option<u32>) -> (verdict: Result<
    EmailFeedBack,
    String,
>)
    ensures
        verdict == email_verdict(email@, user_id, *found),
{
    if let Some(fault) = parse_address(email) {
        return Ok(EmailFeedBack::err(EmailError::FormatError(fault)));
    }
    match found {
        Err(e) => Err(e.clone()),
        Ok(owner) => {
            if is_free_or_own(*owner, user_id) {
                Ok(EmailFeedBack::ok(true))
            } else {
                Ok(EmailFeedBack::err(EmailError::Occupied))
            }
        },
    }
}

/// An address that parses and is the asker's own passes: whoever edits their
/// account may keep their address.
pub proof fn own_email_passes(email: Seq<char>, id: u32, owner: i32)
    requires
        address_fault(email) is None,
        id as int == owner as int,
    ensures
        email_rule(email, Some(id), Some(owner)) is Ok,
{
}

/// An address that parses and that another account holds is occupied; for
/// an asker without an id every holder is another.
pub proof fn taken_email_is_occupied(email: Seq<char>, user_id: Option<u32>, owner: i32)
    requires
        address_fault(email) is None,
        user_id matches Some(id) ==> id as int != owner as int,
    ensures
        email_rule(email, user_id, Some(owner)) == Err::<(), EmailError>(EmailError::Occupied),
{
}

} // verus!
