//! The page frame and the alerts shown in it.

use vstd::prelude::*;
use crate::templates::{escaped, push_escaped, Markup};

verus! {

/// How grave a message is.
#[derive(Clone, Copy, Debug, PartialEq, Eq, Structural)]
pub enum Level {
    Debug,
    Info,
    Success,
    Warning,
    Error,
}

/// A message with its level.
pub type Msg = (Level, String);

/// The style class that an alert of this level carries.
pub open spec fn alert_class(lvl: Level) -> Seq<char> {
    match lvl {
        Level::Debug => "alert-danger"@,
        Level::Info => "alert-info"@,
        Level::Success => "alert-success"@,
        Level::Warning => "alert-warning"@,
        Level::Error => "alert-danger"@,
    }
}

/// The style class for `lvl`.
pub fn lvl2alert_class(lvl: &Level) -> (class: String)
    ensures
        class@ == alert_class(*lvl),
{
    match lvl {
        Level::Debug => String::from_str("alert-danger"),
        Level::Info => String::from_str("alert-info"),
        Level::Success => String::from_str("alert-success"),
        Level::Warning => String::from_str("alert-warning"),
        Level::Error => String::from_str("alert-danger"),
    }
}

/// A message set into the line it belongs to.
pub open spec fn inline_msg_markup(lvl: Level, text: Seq<char>) -> Seq<char> {
    "<span class=\"alert inline-err "@ + alert_class(lvl) + "\">"@ + escaped(text) + "</span>"@
}

/// Renders a message to stand in a line.
pub fn inline_msg(msg: (Level, &str)) -> (m: Markup)
    ensures
        m@ == inline_msg_markup(msg.0, msg.1@),
{
    let mut out = String::from_str("<span class=\"alert inline-err ");
    let class = lvl2alert_class(&msg.0);
    out.append(class.as_str());
    out.append("\">");
    push_escaped(&mut out, msg.1);
    out.append("</span>");
    Markup::new(out)
}

/// One alert that the reader can dismiss.
pub open spec fn alert_markup(lvl: Level, text: Seq<char>) -> Seq<char> {
    ALERT_OPEN@ + alert_class(lvl) + ALERT_ROLE@ + escaped(text) + ALERT_CLOSE@
}

/// The alerts for `msgs`, in their order.
pub open spec fn alerts_markup(msgs: Seq<Msg>) -> Seq<char>
    decreases msgs.len(),
{
    if msgs.len() == 0 {
        Seq::empty()
    } else {
        alerts_markup(msgs.drop_last()) + alert_markup(msgs.last().0, msgs.last().1@)
    }
}

/// What an alert is made of, around its class and its text.
pub const ALERT_OPEN: &'static str = "<div class=\"alert alert-dismissible fade show ";

pub const ALERT_ROLE: &'static str = "\" role=\"alert\">";

pub const ALERT_CLOSE: &'static str =
    "<button class=\"btn-close\" type=\"button\" data-bs-dismiss=\"alert\" aria-label=\"Close\"></button></div>";

/// Appends one alert to `out`.
pub(crate) fn push_alert(out: &mut String, lvl: Level, text: &str)
    ensures
        final(out)@ == old(out)@ + alert_markup(lvl, text@),
{
    let class = lvl2alert_class(&lvl);
    out.append(ALERT_OPEN);
    out.append(class.as_str());
    out.append(ALERT_ROLE);
    push_escaped(out, text);
    out.append(ALERT_CLOSE);
}

/// Renders the alerts for `msgs`.
pub fn dismissible_alerts(msgs: &[Msg]) -> (m: Markup)
    ensures
        m@ == alerts_markup(msgs@),
{
    let mut out = String::new();
    let n = msgs.len();
    let mut i: usize = 0;
    assert(msgs@.take(0) =~= Seq::<Msg>::empty());
    while i < n
        invariant
            i <= n,
            n == msgs@.len(),
            out@ == alerts_markup(msgs@.take(i as int)),
        decreases n - i,
    {
        assert(msgs@.take(i + 1).drop_last() =~= msgs@.take(i as int));
        assert(msgs@.take(i + 1).last() == msgs@[i as int]);
        push_alert(&mut out, msgs[i].0, msgs[i].1.as_str());
        i = i + 1;
    }
    assert(msgs@.take(n as int) =~= msgs@);
    Markup::new(out)
}

/// A single alert, as [`dismissible_alerts`] shows it.
pub fn dismissible_alert(lvl: Level, text: &str) -> (m: Markup)
    ensures
        m@ == alert_markup(lvl, text@),
{
    let mut out = String::new();
    push_alert(&mut out, lvl, text);
    Markup::new(out)
}

/// What the head is made of, around the title.
pub const HEAD_OPEN: &'static str = "<head><meta charset=\"UTF-8\"><title>";

pub const HEAD_CLOSE: &'static str =
    "</title><link rel=\"stylesheet\" href=\"https://cdn.jsdelivr.net/npm/bootstrap@5.3.2/dist/css/bootstrap.min.css\" integrity=\"sha384-T3c6CoIi6uLrA9TneNEoa7RxnatzjcDSCmG1MXxSR1GAsXEV/Dwwykc2MPK8M2HN\" crossorigin=\"anonymous\"><script src=\"https://unpkg.com/htmx.org@1.9.5\" integrity=\"sha384-xcuj3WpfgjlKF+FXhSQFQ0ZNr39ln+hwjN3npfM9VBnUskLolQAcN80McRIVOPuO\" crossorigin=\"anonymous\"></script><script src=\"https://unpkg.com/htmx.org@1.9.3/dist/ext/response-targets.js\"></script><script src=\"https://unpkg.com/hyperscript.org@0.9.12\"></script><style>body {padding-left: 1em}td {padding-right: 1em}input {margin: 0.3em}.inline-err {padding: 0.3em 1em}</style></head>";

/// The page's head, with its title.
pub open spec fn head_markup(title: Seq<char>) -> Seq<char> {
    HEAD_OPEN@ + escaped(title) + HEAD_CLOSE@
}

/// Renders the head of a page.
pub fn head(title: &str) -> (m: Markup)
    ensures
        m@ == head_markup(title@),
{
    let mut out = String::from_str(HEAD_OPEN);
    push_escaped(&mut out, title);
    out.append(HEAD_CLOSE);
    Markup::new(out)
}

/// What a page is made of, around the head, the alerts and the content.
pub const PAGE_OPEN: &'static str = "<!DOCTYPE html><html lang=\"en\">";

/// The title of every page.
pub const PAGE_TITLE: &'static str = "Contacts";

pub const BODY_OPEN: &'static str =
    "<body hx-ext=\"response-targets\"><h1>Contact App</h1><h2>A HTMX Demo</h2><div id=\"flashes\">";

pub const FLASHES_CLOSE: &'static str = "</div><hr>";

pub const PAGE_CLOSE: &'static str =
    "<script src=\"https://cdn.jsdelivr.net/npm/bootstrap@5.3.2/dist/js/bootstrap.bundle.min.js\" integrity=\"sha384-C6RzsynM9kWDrMNeT87bh95OGNyZPhcTNXj1NW7RuBCsyN/o0jlpcV8Qyq46cDfL\" crossorigin=\"anonymous\"></script></body></html>";

/// A whole page: the frame, the alerts for `msgs` in the place kept for
/// them, then `content` as it stands.
pub open spec fn layout_markup(content: Seq<char>, msgs: Seq<Msg>) -> Seq<char> {
    PAGE_OPEN@ + head_markup(PAGE_TITLE@) + BODY_OPEN@ + alerts_markup(msgs) + FLASHES_CLOSE@
        + content + PAGE_CLOSE@
}

/// Renders a page around `content`.
pub fn layout(content: Markup, msgs: &[Msg]) -> (m: Markup)
    ensures
        m@ == layout_markup(content@, msgs@),
{
    let mut out = String::from_str(PAGE_OPEN);
    out.append(head(PAGE_TITLE).as_str());
    out.append(BODY_OPEN);
    out.append(dismissible_alerts(msgs).as_str());
    out.append(FLASHES_CLOSE);
    out.append(content.as_str());
    out.append(PAGE_CLOSE);
    Markup::new(out)
}

} // verus!
