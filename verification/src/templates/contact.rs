//! The pages of the contact list.

use vstd::prelude::*;
use crate::db::Contact;
use crate::templates::base::{layout, layout_markup, Msg};
use crate::templates::{decimal, escaped, push_escaped, push_number, Markup};

verus! {

// What the pages are made of, in the order in which they use it.
pub const ERROR_OPEN: &'static str =
    "<span class=\"alert alert-danger\" role=\"alert\">";

pub const ERROR_CLOSE: &'static str =
    "</span>";

pub const NO_ERROR: &'static str =
    "<span></span>";

pub const NEW_OPEN: &'static str =
    "<div id=\"main\"><form action=\"/contacts/new\" method=\"post\"><legend>Contact Values</legend><p><label for=\"name\">Name</label><input id=\"name\" name=\"name\" placeholder=\"Name Surname\" value=\"";

pub const NEW_EMAIL: &'static str =
    "\"></p><p><label for=\"email\">Email</label><input id=\"email\" name=\"email\" type=\"email\" placeholder=\"name@example.org\" value=\"";

pub const NEW_CHECK: &'static str =
    "\" hx-get=\"/contacts/email\" hx-params=\"*\" hx-trigger=\"change, keyup delay:350ms changed\" hx-target=\"next span\" hx-swap=\"outerHTML\">";

pub const NEW_CLOSE: &'static str =
    "</p><button>Saveasdasd</button></form></div><p><a href=\"/contacts\">Back</a></p>";

pub const EDIT_OPEN: &'static str =
    "<div id=\"main\"><p><a href=\"contacts/";

pub const EDIT_TITLE: &'static str =
    "\">View</a><a href=\"/contacts\"> back</a></p><h1>Editing ";

pub const EDIT_FORM: &'static str =
    "</h1><form action=\"/contacts/";

pub const EDIT_NAME: &'static str =
    "/edit\" method=\"post\"><fieldset><legend>Contact values</legend><p><label for=\"name\">Name</label><input id=\"name\" name=\"name\" type=\"text\" placeholder=\"name\" value=\"";

pub const EDIT_EMAIL: &'static str =
    "\"></p><p><label for=\"email\">Email</label><input id=\"email\" name=\"email\" type=\"email\" placeholder=\"name@example.org\" value=\"";

pub const EDIT_VALS: &'static str =
    "\" hx-get=\"/contacts/email\" hx-params=\"*\" hx-vals=\"'id': '";

pub const EDIT_CHECK: &'static str =
    "'\" hx-trigger=\"change, keyup delay:350ms changed\" hx-target=\"next span\" hx-swap=\"outerHTML\">";

pub const EDIT_DELETE: &'static str =
    "</p><button>save</button></fieldset><hr><button hx-delete=\"contacts/";

pub const EDIT_CLOSE: &'static str =
    "\" hx-confirm=\"Are you sure?\" hx-push-url=\"true\" hx-target=\"body\">Delete Contact</button></form></div>";

pub const DETAILS_OPEN: &'static str =
    "<div id=\"main\"><p><a href=\"/contacts/";

pub const DETAILS_NAME: &'static str =
    "/edit\">Edit</a><a href=\"/contacts\">Back</a></p><h1>";

pub const DETAILS_EMAIL: &'static str =
    "</h1><div><div>email";

pub const DETAILS_CLOSE: &'static str =
    "</div></div></div>";

pub const LIST_OPEN: &'static str =
    "<div id=\"main\"><form id=\"tool-bar\" action=\"/contacts\" method=\"get\"><label for=\"search\">Search Term</label><input class=\"search\" type=\"search\" name=\"name\" value=\"\"><input type=\"submit\" value=\"Search\"></form><table><thead><th>Name</th><th>Email</th><th>Links</th></thead>";

pub const ROW_OPEN: &'static str =
    "<tr><td>";

pub const ROW_EMAIL: &'static str =
    "</td><td>";

pub const ROW_VIEW: &'static str =
    "</td><td><a href=\"/contacts/";

pub const ROW_EDIT: &'static str =
    "\">View</a><a href=\"/contacts/";

pub const ROW_DELETE: &'static str =
    "/edit\">Edit</a><a href=\"\" hx-confirm=\"Are you sure?\" hx-delete=\"/contacts/";

pub const ROW_CLOSE: &'static str =
    "\" hx-target=\"body\">Delete</a></td></tr>";

pub const PAGER_OPEN: &'static str =
    "</table><span style=\"float: right\"><div id=\"pager\">";

pub const PREVIOUS_OPEN: &'static str =
    "<a href=\"/contacts?page=";

pub const PREVIOUS_CLOSE: &'static str =
    "\">Previous</a>";

pub const PAGE_OPEN: &'static str =
    " (";

pub const PAGE_CLOSE: &'static str =
    ") ";

pub const NEXT_OPEN: &'static str =
    "<a href=\"/contacts?page=";

pub const NEXT_CLOSE: &'static str =
    "\">Next</a>";

pub const LIST_CLOSE: &'static str =
    "</div></span><div><a href=\"/contacts/new\">Create New</a>, <a href=\"/contacts/download\" hx-boost=\"false\">Download Contacts</a></div></div>";

/// The span beside the address: the error in it where there is one, else
/// empty.
pub open spec fn email_error_span(email_error: Option<&str>) -> Seq<char> {
    match email_error {
        Some(e) => ERROR_OPEN@ + escaped(e@) + ERROR_CLOSE@,
        None => NO_ERROR@,
    }
}

/// Appends the span beside the address.
fn push_email_error(out: &mut String, email_error: Option<&str>)
    ensures
        final(out)@ == old(out)@ + email_error_span(email_error),
{
    match email_error {
        Some(e) => {
            out.append(ERROR_OPEN);
            push_escaped(out, e);
            out.append(ERROR_CLOSE);
        },
        None => {
            out.append(NO_ERROR);
        },
    }
}

/// The form for a new contact, holding what was typed so far.
pub open spec fn new_contact_markup(
    name: Seq<char>,
    email: Seq<char>,
    email_error: Option<&str>,
) -> Seq<char> {
    NEW_OPEN@ + escaped(name) + NEW_EMAIL@ + escaped(email) + NEW_CHECK@ + email_error_span(
        email_error,
    ) + NEW_CLOSE@
}

/// Renders the page with the form for a new contact.
pub fn new_contact(name: &str, email: &str, email_error: Option<&str>, flashes: &[Msg]) -> (m:
    Markup)
    ensures
        m@ == layout_markup(new_contact_markup(name@, email@, email_error), flashes@),
{
    let mut content = String::from_str(NEW_OPEN);
    push_escaped(&mut content, name);
    content.append(NEW_EMAIL);
    push_escaped(&mut content, email);
    content.append(NEW_CHECK);
    push_email_error(&mut content, email_error);
    content.append(NEW_CLOSE);
    layout(Markup::new(content), flashes)
}

/// The form that edits a contact.
pub open spec fn edit_contact_markup(contact: Contact, email_error: Option<&str>) -> Seq<char> {
    EDIT_OPEN@ + decimal(contact.id as int) + EDIT_TITLE@ + escaped(contact.name@) + EDIT_FORM@
        + decimal(contact.id as int) + EDIT_NAME@ + escaped(contact.name@) + EDIT_EMAIL@ + escaped(
        contact.email@,
    ) + EDIT_VALS@ + decimal(contact.id as int) + EDIT_CHECK@ + email_error_span(email_error)
        + EDIT_DELETE@ + decimal(contact.id as int) + EDIT_CLOSE@
}

/// Renders the page with the form that edits `contact`.
pub fn edit_contact(contact: &Contact, flashes: &[Msg], email_error: Option<&str>) -> (m: Markup)
    ensures
        m@ == layout_markup(edit_contact_markup(*contact, email_error), flashes@),
{
    let id = contact.id as i64;
    let mut content = String::from_str(EDIT_OPEN);
    push_number(&mut content, id);
    content.append(EDIT_TITLE);
    push_escaped(&mut content, contact.name.as_str());
    content.append(EDIT_FORM);
    push_number(&mut content, id);
    content.append(EDIT_NAME);
    push_escaped(&mut content, contact.name.as_str());
    content.append(EDIT_EMAIL);
    push_escaped(&mut content, contact.email.as_str());
    content.append(EDIT_VALS);
    push_number(&mut content, id);
    content.append(EDIT_CHECK);
    push_email_error(&mut content, email_error);
    content.append(EDIT_DELETE);
    push_number(&mut content, id);
    content.append(EDIT_CLOSE);
    layout(Markup::new(content), flashes)
}

/// One contact, shown alone.
pub open spec fn contact_details_markup(contact: Contact) -> Seq<char> {
    DETAILS_OPEN@ + decimal(contact.id as int) + DETAILS_NAME@ + escaped(contact.name@)
        + DETAILS_EMAIL@ + escaped(contact.email@) + DETAILS_CLOSE@
}

/// Renders the page that shows `contact`.
pub fn contact_details(flashes: &[Msg], contact: &Contact) -> (m: Markup)
    ensures
        m@ == layout_markup(contact_details_markup(*contact), flashes@),
{
    let mut content = String::from_str(DETAILS_OPEN);
    push_number(&mut content, contact.id as i64);
    content.append(DETAILS_NAME);
    push_escaped(&mut content, contact.name.as_str());
    content.append(DETAILS_EMAIL);
    push_escaped(&mut content, contact.email.as_str());
    content.append(DETAILS_CLOSE);
    layout(Markup::new(content), flashes)
}

/// The row of the list for one contact: its name, its address, and the
/// links to view, edit and delete it.
pub open spec fn row_markup(contact: Contact) -> Seq<char> {
    ROW_OPEN@ + escaped(contact.name@) + ROW_EMAIL@ + escaped(contact.email@) + ROW_VIEW@ + decimal(
        contact.id as int,
    ) + ROW_EDIT@ + decimal(contact.id as int) + ROW_DELETE@ + decimal(contact.id as int)
        + ROW_CLOSE@
}

/// The rows for `contacts`, in their order.
pub open spec fn rows_markup(contacts: Seq<Contact>) -> Seq<char>
    decreases contacts.len(),
{
    if contacts.len() == 0 {
        Seq::empty()
    } else {
        rows_markup(contacts.drop_last()) + row_markup(contacts.last())
    }
}

/// The link to the page before `page`; the first page has none.
pub open spec fn previous_markup(page: u32) -> Seq<char> {
    if page > 1 {
        PREVIOUS_OPEN@ + decimal(page - 1) + PREVIOUS_CLOSE@
    } else {
        Seq::empty()
    }
}

/// The link to the page after `page`, where there is one.
pub open spec fn next_markup(page: u32, more_pages: bool) -> Seq<char> {
    if more_pages {
        NEXT_OPEN@ + decimal(page + 1) + NEXT_CLOSE@
    } else {
        Seq::empty()
    }
}

/// One page of the list: the search form, a row for each contact, and the
/// way to the pages before and after.
pub open spec fn contact_list_markup(contacts: Seq<Contact>, page: u32, more_pages: bool) -> Seq<
    char,
> {
    LIST_OPEN@ + rows_markup(contacts) + PAGER_OPEN@ + previous_markup(page) + PAGE_OPEN@ + decimal(
        page as int,
    ) + PAGE_CLOSE@ + next_markup(page, more_pages) + LIST_CLOSE@
}

/// Appends the row for one contact.
fn push_row(out: &mut String, contact: &Contact)
    ensures
        final(out)@ == old(out)@ + row_markup(*contact),
{
    let id = contact.id as i64;
    out.append(ROW_OPEN);
    push_escaped(out, contact.name.as_str());
    out.append(ROW_EMAIL);
    push_escaped(out, contact.email.as_str());
    out.append(ROW_VIEW);
    push_number(out, id);
    out.append(ROW_EDIT);
    push_number(out, id);
    out.append(ROW_DELETE);
    push_number(out, id);
    out.append(ROW_CLOSE);
}

/// Renders the rows for `contacts`.
fn rows(contacts: &[Contact]) -> (out: String)
    ensures
        out@ == rows_markup(contacts@),
{
    let mut out = String::new();
    let n = contacts.len();
    let mut i: usize = 0;
    assert(contacts@.take(0) =~= Seq::<Contact>::empty());
    while i < n
        invariant
            i <= n,
            n == contacts@.len(),
            out@ == rows_markup(contacts@.take(i as int)),
        decreases n - i,
    {
        assert(contacts@.take(i + 1).drop_last() =~= contacts@.take(i as int));
        assert(contacts@.take(i + 1).last() == contacts@[i as int]);
        push_row(&mut out, &contacts[i]);
        i = i + 1;
    }
    assert(contacts@.take(n as int) =~= contacts@);
    out
}

/// Renders one page of the list.
pub fn contact_list(flashes: &[Msg], contacts: &[Contact], page: u32, more_pages: bool) -> (m:
    Markup)
    ensures
        m@ == layout_markup(contact_list_markup(contacts@, page, more_pages), flashes@),
{
    let mut content = String::from_str(LIST_OPEN);
    content.append(rows(contacts).as_str());
    content.append(PAGER_OPEN);
    let mut previous = String::new();
    if page > 1 {
        previous.append(PREVIOUS_OPEN);
        push_number(&mut previous, page as i64 - 1);
        previous.append(PREVIOUS_CLOSE);
    }
    content.append(previous.as_str());
    content.append(PAGE_OPEN);
    push_number(&mut content, page as i64);
    content.append(PAGE_CLOSE);
    let mut next = String::new();
    if more_pages {
        next.append(NEXT_OPEN);
        push_number(&mut next, page as i64 + 1);
        next.append(NEXT_CLOSE);
    }
    content.append(next.as_str());
    content.append(LIST_CLOSE);
    layout(Markup::new(content), flashes)
}

} // verus!
