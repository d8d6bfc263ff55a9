//! Markup as text, and the pieces every fragment is built from.

use vstd::prelude::*;
use crate::db::Contact;

pub mod base;
pub mod contact;

verus! {

/// A block of markup: text that needs no further escaping.
#[derive(Clone, Debug, PartialEq, Eq)]
pub struct Markup {
    html: String,
}

impl View for Markup {
    type V = Seq<char>;

    closed spec fn view(&self) -> Seq<char> {
        self.html@
    }
}

impl Markup {
    /// Takes `html` as markup, as it stands.
    pub fn new(html: String) -> (m: Self)
        ensures
            m@ == html@,
    {
        Markup { html }
    }

    /// The markup as text.
    pub fn as_str(&self) -> (s: &str)
        ensures
            s@ == self@,
    {
        self.html.as_str()
    }

    /// The markup as text, handed over.
    pub fn into_string(self) -> (s: String)
        ensures
            s@ == self@,
    {
        self.html
    }
}

/// What stands for one character of text inside markup.
pub open spec fn escape_char(c: char) -> Seq<char> {
    if c == '&' {
        seq!['&', 'a', 'm', 'p', ';']
    } else if c == '<' {
        seq!['&', 'l', 't', ';']
    } else if c == '>' {
        seq!['&', 'g', 't', ';']
    } else if c == '"' {
        seq!['&', 'q', 'u', 'o', 't', ';']
    } else {
        seq![c]
    }
}

/// Text made safe for markup: `&`, `<`, `>` and `"` become entities, every
/// other character stays.
pub open spec fn escaped(text: Seq<char>) -> Seq<char>
    decreases text.len(),
{
    if text.len() == 0 {
        Seq::empty()
    } else {
        escaped(text.drop_last()) + escape_char(text.last())
    }
}

/// ` name="value"`, the value escaped.
pub open spec fn attr(name: Seq<char>, value: Seq<char>) -> Seq<char> {
    seq![' '] + name + seq!['=', '"'] + escaped(value) + seq!['"']
}

/// An attribute that is left out when it has no value.
pub open spec fn opt_attr(name: Seq<char>, value: Option<&'static str>) -> Seq<char> {
    match value {
        Some(v) => attr(name, v@),
        None => Seq::empty(),
    }
}

/// Appends `text` to `out`, escaped.
///
/// Calls maud's `Render::render_to` for `str`, which walks the bytes of
/// `text` and writes `&amp;`, `&lt;`, `&gt;` or `&quot;` for the four special
/// characters and every other byte unchanged. The four are ASCII, so no byte
/// of a longer character is taken for one of them.
#[verifier::external_body]
pub(crate) fn push_escaped(out: &mut String, text: &str)
    ensures
        final(out)@ == old(out)@ + escaped(text@),
{
    maud::Render::render_to(text, out);
}

/// The decimal digit for `d`.
pub open spec fn digit(d: nat) -> char {
    ('0' as nat + d) as char
}

/// A natural number in decimal, without leading zeros.
pub open spec fn digits(n: nat) -> Seq<char>
    decreases n,
{
    if n < 10 {
        seq![digit(n)]
    } else {
        digits(n / 10).push(digit(n % 10))
    }
}

/// An integer in decimal: a minus sign before the digits of a negative one.
pub open spec fn decimal(n: int) -> Seq<char> {
    if n < 0 {
        seq!['-'] + digits((-n) as nat)
    } else {
        digits(n as nat)
    }
}

/// Appends `n` to `out`, in decimal.
///
/// Calls maud's `Render::render_to` for `i64`, which writes the number as
/// `itoa` formats it: the decimal digits, most significant first, behind a
/// minus sign where the number is negative.
#[verifier::external_body]
pub(crate) fn push_number(out: &mut String, n: i64)
    ensures
        final(out)@ == old(out)@ + decimal(n as int),
{
    maud::Render::render_to(&n, out);
}

/// `String::push` appends one character.
pub assume_specification[ String::push ](s: &mut String, ch: char)
    ensures
        final(s)@ == old(s)@.push(ch),
;

/// Appends an attribute to `out`.
pub(crate) fn push_attr(out: &mut String, name: &str, value: &str)
    ensures
        final(out)@ == old(out)@ + attr(name@, value@),
{
    out.push(' ');
    out.append(name);
    out.push('=');
    out.push('"');
    push_escaped(out, value);
    out.push('"');
}

/// Appends an attribute to `out`, where it has a value.
pub(crate) fn push_opt_attr(out: &mut String, name: &str, value: Option<&'static str>)
    ensures
        final(out)@ == old(out)@ + opt_attr(name@, value),
{
    match value {
        Some(v) => push_attr(out, name, v),
        None => {},
    }
}

/// What the greeting is made of.
pub const HELLO_OPEN: &'static str = "<h2>Hello, ";

pub const HELLO_WORLD: &'static str = "World!";

pub const HELLO_CLOSE: &'static str = "</h2>";

/// A greeting for `name`, or for the world where no name is given.
pub open spec fn hello_markup(name: Option<String>) -> Seq<char> {
    HELLO_OPEN@ + escaped(
        match name {
            Some(name) => name@,
            None => HELLO_WORLD@,
        },
    ) + HELLO_CLOSE@
}

/// Greets `name`.
pub fn hello_world(name: Option<String>) -> (m: Markup)
    ensures
        m@ == hello_markup(name),
{
    let mut out = String::from_str(HELLO_OPEN);
    match name {
        Some(name) => push_escaped(&mut out, name.as_str()),
        None => push_escaped(&mut out, HELLO_WORLD),
    }
    out.append(HELLO_CLOSE);
    Markup::new(out)
}

/// What the list of contacts is drawn from.
pub struct ContactsTemplate<'a> {
    pub page: u32,
    pub messages: &'a [&'a str],
    pub contacts: &'a [Contact],
    pub more_pages: bool,
}

/// What the form for a new contact is drawn from.
pub struct NewTemplate<'a> {
    pub messages: &'a [&'a str],
    pub name: &'a str,
    pub email: &'a str,
    pub email_error: Option<String>,
}

impl<'a> NewTemplate<'a> {
    /// The data for an empty page: no messages yet.
    pub fn new(name: &'a str, email: &'a str, email_error: Option<String>) -> (t: Self)
        ensures
            t.name == name,
            t.email == email,
            t.messages@.len() == 0,
            t.email_error == email_error,
    {
        Self { name, email, messages: &[], email_error }
    }
}

/// What the form that edits a contact is drawn from.
pub struct EditTemplate<'a> {
    pub messages: &'a [&'a str],
    pub email_error: Option<String>,
    pub contact: Contact,
}

impl<'a> EditTemplate<'a> {
    /// The data as given.
    pub fn new(messages: &'a [&'a str], email_error: Option<String>, contact: Contact) -> (t: Self)
        ensures
            t.messages == messages,
            t.email_error == email_error,
            t.contact == contact,
    {
        Self { messages, email_error, contact }
    }
}

} // verus!
