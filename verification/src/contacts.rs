//! The contact list by pages, and as a file to download.

use vstd::prelude::*;
use crate::db::Contact;

verus! {

/// How many contacts a page shows.
pub const PAGE_SIZE: usize = 10;

/// The page asked for; the first where none is named.
pub fn page_or_first(page: Option<u32>) -> (p: u32)
    ensures
        p == match page {
            Some(page) => page,
            None => 1u32,
        },
{
    match page {
        Some(page) => page,
        None => 1,
    }
}

/// How many contacts stand before `page`. Pages count from one; before page
/// zero stand fewer than none, and the store is left to refuse that.
pub fn page_offset(page: u32) -> (skipped: i64)
    ensures
        skipped == (page - 1) * PAGE_SIZE,
{
    (page as i64 - 1) * 10
}

/// Cuts what the store handed over down to one page, and says whether there
/// was more: the store is asked for one contact more than a page shows.
pub fn take_page(contacts: &mut Vec<Contact>) -> (has_more: bool)
    ensures
        has_more == (old(contacts)@.len() > PAGE_SIZE),
        final(contacts)@ == if has_more {
            old(contacts)@.take(PAGE_SIZE as int)
        } else {
            old(contacts)@
        },
{
    let has_more = contacts.len() > 10;
    contacts.truncate(10);
    has_more
}

/// What a line of the file is made of.
pub const ARCHIVE_NAME: &'static str = "name: '";

pub const ARCHIVE_EMAIL: &'static str = "'\temail: '";

pub const ARCHIVE_END: &'static str = "'\n";

/// The line that stands for one contact in the file to download.
pub open spec fn archive_line_text(contact: Contact) -> Seq<char> {
    ARCHIVE_NAME@ + contact.name@ + ARCHIVE_EMAIL@ + contact.email@ + ARCHIVE_END@
}

/// Writes the line for one contact. Nothing in it is escaped.
pub fn archive_line(contact: &Contact) -> (line: String)
    ensures
        line@ == archive_line_text(*contact),
{
    let mut line = String::from_str(ARCHIVE_NAME);
    line.append(contact.name.as_str());
    line.append(ARCHIVE_EMAIL);
    line.append(contact.email.as_str());
    line.append(ARCHIVE_END);
    line
}

} // verus!
