//! A form field: its state, the rule that settles the state, and its markup.

use vstd::prelude::*;
use crate::db::Lookup;
use crate::templates::base::{inline_msg, inline_msg_markup, Level};
use crate::templates::{attr, escaped, opt_attr, push_attr, push_escaped, push_opt_attr, Markup};
use crate::unicode::{alphabetic, numeric};

verus! {

/// A character that a name may hold: a letter, a number, `_` or `-`.
pub open spec fn name_char(c: char) -> bool {
    alphabetic(c) || numeric(c) || c == '_' || c == '-'
}

/// Whether a name may hold `c`.
pub fn validate_char(c: &char) -> (ok: bool)
    ensures
        ok == name_char(*c),
{
    if c.is_alphabetic() {
        return true;
    }
    if c.is_numeric() {
        return true;
    }
    *c == '_' || *c == '-'
}

/// The first character of `text` that `allowed` does not hold of, if there is
/// one.
pub open spec fn first_rejected(text: Seq<char>, allowed: spec_fn(char) -> bool) -> Option<char>
    decreases text.len(),
{
    if text.len() == 0 {
        None
    } else if !allowed(text[0]) {
        Some(text[0])
    } else {
        first_rejected(text.skip(1), allowed)
    }
}

/// The first rejected character is the one at the first index whose
/// character is not allowed.
pub proof fn first_rejected_at(text: Seq<char>, allowed: spec_fn(char) -> bool, i: int)
    requires
        0 <= i < text.len(),
        !allowed(text[i]),
        forall|j: int| 0 <= j < i ==> allowed(text[j]),
    ensures
        first_rejected(text, allowed) == Some(text[i]),
    decreases i,
{
    if i > 0 {
        let rest = text.skip(1);
        assert forall|j: int| 0 <= j < i - 1 implies allowed(rest[j]) by {
            assert(rest[j] == text[j + 1]);
        }
        first_rejected_at(rest, allowed, i - 1);
    }
}

/// No character is rejected exactly when all are allowed.
pub proof fn first_rejected_none(text: Seq<char>, allowed: spec_fn(char) -> bool)
    ensures
        first_rejected(text, allowed) is None <==> forall|j: int|
            0 <= j < text.len() ==> allowed(text[j]),
    decreases text.len(),
{
    if text.len() > 0 {
        let rest = text.skip(1);
        first_rejected_none(rest, allowed);
        if allowed(text[0]) {
            if first_rejected(rest, allowed) is None {
                assert forall|j: int| 0 <= j < text.len() implies allowed(text[j]) by {
                    if j > 0 {
                        assert(rest[j - 1] == text[j]);
                    }
                }
            } else {
                let k = choose|k: int| 0 <= k < rest.len() && !allowed(rest[k]);
                assert(text[k + 1] == rest[k]);
            }
        }
    }
}

/// The characters that a name is made of, as a predicate.
pub open spec fn name_chars() -> spec_fn(char) -> bool {
    |c: char| name_char(c)
}

/// The first character of `text` that a name may not hold.
pub fn first_bad_name_char(text: &str) -> (bad: Option<char>)
    ensures
        bad == first_rejected(text@, name_chars()),
{
    assert(text@.skip(0) =~= text@);
    for c in it: text.chars()
        invariant
            it.seq() == text@,
            first_rejected(text@, name_chars()) == first_rejected(
                text@.skip(it.index() as int),
                name_chars(),
            ),
    {
        if !validate_char(&c) {
            return Some(c);
        }
        assert(text@.skip(it.index() as int).skip(1) =~= text@.skip(it.index() + 1));
    }
    None
}

/// An error that can tell the user what is wrong.
pub trait Message {
    /// The words shown to the user.
    spec fn text(&self) -> Seq<char>;

    /// Says what is wrong.
    fn message(&self) -> (s: String)
        ensures
            s@ == self.text(),
    ;
}

/// What a field looks like, whatever its state.
#[derive(Clone, Copy, Debug)]
pub struct Config {
    pub label: &'static str,
    pub name: &'static str,
    /// used for type attr
    pub kind: Option<&'static str>,
    pub placeholder: Option<&'static str>,
    pub validate_api: Option<&'static str>,
    pub hyper_script: Option<&'static str>,
}

impl Default for Config {
    fn default() -> (cfg: Self)
        ensures
            cfg.label@.len() == 0,
            cfg.name@.len() == 0,
            cfg.kind is None,
            cfg.placeholder is None,
            cfg.validate_api is None,
            cfg.hyper_script is None,
    {
        let empty = "";
        proof {
            reveal_strlit("");
        }
        Config {
            label: empty,
            name: empty,
            kind: None,
            placeholder: None,
            validate_api: None,
            hyper_script: None,
        }
    }
}

/// The state of a field: untouched, or holding a value that its rule
/// rejected or accepted.
#[derive(Debug, PartialEq, Eq)]
pub enum InputState<E> {
    Init,
    Invalid { value: String, error: E },
    Valid(String),
}

/// The borders and scripts that go with the three states.
pub const STYLE_INIT: &'static str = "";

pub const STYLE_INVALID: &'static str = "box-shadow: 0 0 3px #CC0000";

pub const STYLE_VALID: &'static str = "box-shadow: 0 0 3px #36cc00;";

pub const SCRIPT_INVALID: &'static str =
    "on load \n                    add .nok to previous <input/> \n                    then remove .ok from previous <input/>";

pub const SCRIPT_VALID: &'static str =
    "on load \n                    add .ok to previous <input/> \n                    then remove .nok from previous <input/>";

impl<E: Message> InputState<E> {
    /// The value that the input shows: none while untouched.
    pub open spec fn value(&self) -> Seq<char> {
        match self {
            InputState::Init => Seq::empty(),
            InputState::Invalid { value, error } => value@,
            InputState::Valid(value) => value@,
        }
    }

    /// The error, where the rule found one.
    pub open spec fn error(&self) -> Option<E> {
        match self {
            InputState::Invalid { value, error } => Some(*error),
            _ => None,
        }
    }

    /// The border of the input: it goes by the state's tag alone.
    pub open spec fn style(&self) -> &'static str {
        match self {
            InputState::Init => STYLE_INIT,
            InputState::Invalid { .. } => STYLE_INVALID,
            InputState::Valid(_) => STYLE_VALID,
        }
    }

    /// What the page does when the fragment arrives: it marks the input as
    /// good or bad, and does nothing for an untouched field.
    pub open spec fn script(&self) -> Option<&'static str> {
        match self {
            InputState::Init => None,
            InputState::Invalid { .. } => Some(SCRIPT_INVALID),
            InputState::Valid(_) => Some(SCRIPT_VALID),
        }
    }

    /// What stands beside the input: the error in words where there is one,
    /// nothing otherwise.
    pub open spec fn feedback(&self) -> Seq<char> {
        match self {
            InputState::Invalid { value, error } => inline_msg_markup(Level::Error, error.text()),
            _ => Seq::empty(),
        }
    }
}

/// The state that a verdict on `value` puts a field in.
pub open spec fn state_for<E>(value: String, verdict: Result<(), E>) -> InputState<E> {
    match verdict {
        Ok(()) => InputState::Valid(value),
        Err(error) => InputState::Invalid { value, error },
    }
}

/// What the fragment for a field is made of.
pub const FIELD_OPEN: &'static str = "<div class=\"input_field\"><label for=\"";

pub const LABEL_OPEN: &'static str = "\">";

pub const LABEL_CLOSE: &'static str = "</label><input";

pub const INPUT_TARGET: &'static str =
    " hx-target=\"next &lt;span/&gt;\" hx-select=\"#feedback\" hx-swap=\"innerHTML\"";

pub const INPUT_TRIGGER: &'static str =
    " hx-params=\"*\" hx-trigger=\"change, keyup delay:350ms changed, htmx:validation:validate\"";

pub const INPUT_CLOSE: &'static str = "></input><span id=\"feedback\"";

pub const FEEDBACK_OPEN: &'static str = ">";

pub const FIELD_CLOSE: &'static str = "</span></div>";

/// The fragment for one field: its label, the input with the value and the
/// border given, and beside it the feedback.
pub open spec fn field_markup(
    cfg: Config,
    value: Seq<char>,
    style: Seq<char>,
    script: Option<&'static str>,
    feedback: Seq<char>,
) -> Seq<char> {
    FIELD_OPEN@ + escaped(cfg.name@) + LABEL_OPEN@ + escaped(
        cfg.label@,
    ) + LABEL_CLOSE@ + attr("id"@, cfg.name@) + INPUT_TARGET@ + attr("name"@, cfg.name@) + opt_attr(
        "type"@,
        cfg.kind,
    ) + opt_attr("placeholder"@, cfg.placeholder) + attr("value"@, value) + opt_attr(
        "hx-post"@,
        cfg.validate_api,
    ) + attr("style"@, style) + INPUT_TRIGGER@ + opt_attr("_"@, cfg.hyper_script) + INPUT_CLOSE@
        + opt_attr("_"@, script) + FEEDBACK_OPEN@ + feedback + FIELD_CLOSE@
}

/// The fragment for a field that nothing was typed into yet.
pub open spec fn init_markup(cfg: Config) -> Seq<char> {
    field_markup(cfg, Seq::empty(), STYLE_INIT@, None, Seq::empty())
}

/// A field of the form: what it looks like and the state it is in.
#[derive(Debug)]
pub struct InputField<E> {
    state: InputState<E>,
    cfg: Config,
}

impl<E: Message> InputField<E> {
    /// The state the field is in.
    pub closed spec fn state(&self) -> InputState<E> {
        self.state
    }

    /// What the field looks like.
    pub closed spec fn config(&self) -> Config {
        self.cfg
    }

    /// The fragment that shows this field.
    pub open spec fn markup(&self) -> Seq<char> {
        field_markup(
            self.config(),
            self.state().value(),
            self.state().style()@,
            self.state().script(),
            self.state().feedback(),
        )
    }

    /// A field that nothing was typed into yet.
    pub fn new(cfg: Config) -> (field: Self)
        ensures
            field.state() == InputState::<E>::Init,
            field.config() == cfg,
    {
        Self { state: InputState::Init, cfg }
    }

    /// A field in the state given.
    pub fn with_state(cfg: Config, state: InputState<E>) -> (field: Self)
        ensures
            field.state() == state,
            field.config() == cfg,
    {
        Self { state, cfg }
    }

    /// The state the field is in, handed over.
    pub fn into_state(self) -> (state: InputState<E>)
        ensures
            state == self.state(),
    {
        self.state
    }

    /// The error that the field shows, if it shows one.
    pub fn error(&self) -> (e: Option<&E>)
        ensures
            e is Some == self.state().error() is Some,
            e matches Some(found) ==> *found == self.state().error()->0,
    {
        match &self.state {
            InputState::Invalid { value, error } => Some(error),
            _ => None,
        }
    }

    /// The border of the input.
    pub fn style(&self) -> (s: &'static str)
        ensures
            s == self.state().style(),
    {
        match self.state {
            InputState::Init => STYLE_INIT,
            InputState::Invalid { .. } => STYLE_INVALID,
            InputState::Valid(_) => STYLE_VALID,
        }
    }

    /// Renders the field.
    pub fn into_markup(self) -> (m: Markup)
        ensures
            m@ == self.markup(),
    {
        let cfg = self.cfg;
        let style = self.style();
        let (value, feedback, script) = match self.state {
            InputState::Init => (String::new(), String::new(), None),
            InputState::Invalid { value, error } => {
                let text = error.message();
                let msg = inline_msg((Level::Error, text.as_str()));
                (value, msg.into_string(), Some(SCRIPT_INVALID))
            },
            InputState::Valid(value) => (value, String::new(), Some(SCRIPT_VALID)),
        };
        let mut out = String::from_str(FIELD_OPEN);
        push_escaped(&mut out, cfg.name);
        out.append(LABEL_OPEN);
        push_escaped(&mut out, cfg.label);
        out.append(LABEL_CLOSE);
        push_attr(&mut out, "id", cfg.name);
        out.append(INPUT_TARGET);
        push_attr(&mut out, "name", cfg.name);
        push_opt_attr(&mut out, "type", cfg.kind);
        push_opt_attr(&mut out, "placeholder", cfg.placeholder);
        push_attr(&mut out, "value", value.as_str());
        push_opt_attr(&mut out, "hx-post", cfg.validate_api);
        push_attr(&mut out, "style", style);
        out.append(INPUT_TRIGGER);
        push_opt_attr(&mut out, "_", cfg.hyper_script);
        out.append(INPUT_CLOSE);
        push_opt_attr(&mut out, "_", script);
        out.append(FEEDBACK_OPEN);
        out.append(feedback.as_str());
        out.append(FIELD_CLOSE);
        Markup::new(out)
    }
}

/// Whether `field` is what a check leaves: the field that looks as `cfg`
/// says, in the state that `verdict` on `value` puts it in.
pub open spec fn is_checked<E: Message>(
    field: InputField<E>,
    cfg: Config,
    value: String,
    verdict: Result<(), E>,
) -> bool {
    &&& field.state() == state_for(value, verdict)
    &&& field.config() == cfg
}

/// What a first look at a value comes to.
#[derive(Debug)]
pub enum Checked<Q, E> {
    /// The value alone settles the field's state: the store is not asked.
    Settled(InputField<E>),
    /// The value is well formed; the store has to say who holds it.
    Ask(Q),
}

/// A value typed into a field, with the rule it has to pass.
///
/// A check runs in two steps, so that whoever talks to the store asks it only
/// when needed: [`Feedback::check`] looks at the value alone, and
/// [`Feedback::into_input`] takes the store's answer.
pub trait Feedback<E: Message>: Sized {
    /// The value as it was typed.
    spec fn value(&self) -> String;

    /// The verdict that the value alone gives, where it gives one.
    spec fn settled(&self) -> Option<Result<(), E>>;

    /// The field's rule: the verdict on the value, `found` being the store's
    /// answer about it.
    spec fn rule(&self, found: Lookup) -> Result<(), E>;

    /// What the field looks like.
    spec fn cfg_spec() -> Config;

    /// A verdict that the value alone gives is the rule's verdict, whatever
    /// the store would answer.
    proof fn settled_is_final(&self, found: Lookup)
        requires
            self.settled() is Some,
        ensures
            self.rule(found) == self.settled()->0,
    ;

    /// What the field looks like.
    fn cfg() -> (cfg: Config)
        ensures
            cfg == Self::cfg_spec(),
    ;

    /// Judges the value alone; `None` where the store has to be asked.
    fn settle(&self) -> (verdict: Option<Result<(), E>>)
        ensures
            verdict == self.settled(),
    ;

    /// Judges the value, given the store's answer about it.
    fn validate(&self, found: &Lookup) -> (verdict: Result<(), E>)
        ensures
            verdict == self.rule(*found),
    ;

    /// The value again, as it was typed.
    fn into_value(self) -> (value: String)
        ensures
            value == self.value(),
    ;

    /// The second step of a check, and the whole of it where the store was
    /// asked beforehand: the field in the state that the rule puts it in.
    fn into_input(self, found: &Lookup) -> (field: InputField<E>)
        ensures
            is_checked(field, Self::cfg_spec(), self.value(), self.rule(*found)),
    {
        match self.validate(found) {
            Err(error) => InputField::with_state(
                Self::cfg(),
                InputState::Invalid { value: self.into_value(), error },
            ),
            _ => InputField::with_state(Self::cfg(), InputState::Valid(self.into_value())),
        }
    }

    /// The first step of a check: the field, where the value alone settles
    /// its state, or the value handed back for the store to be asked.
    fn check(self) -> (checked: Checked<Self, E>)
        ensures
            match checked {
                Checked::Settled(field) => {
                    &&& self.settled() matches Some(verdict)
                    &&& is_checked(field, Self::cfg_spec(), self.value(), verdict)
                },
                Checked::Ask(query) => self.settled() is None && query == self,
            },
    {
        match self.settle() {
            Some(Err(error)) => Checked::Settled(
                InputField::with_state(
                    Self::cfg(),
                    InputState::Invalid { value: self.into_value(), error },
                ),
            ),
            Some(Ok(())) => Checked::Settled(
                InputField::with_state(Self::cfg(), InputState::Valid(self.into_value())),
            ),
            None => Checked::Ask(self),
        }
    }
}

/// A field is valid only when its rule found no error, and invalid only
/// with the error that the rule found; a check never leaves it untouched.
pub proof fn state_follows_verdict<E>(value: String, verdict: Result<(), E>)
    ensures
        state_for(value, verdict) is Valid <==> verdict is Ok,
        verdict matches Err(error) ==> state_for(value, verdict) == (InputState::Invalid {
            value,
            error,
        }),
        !(state_for(value, verdict) is Init),
{
}

/// A check keeps nothing between calls: two checks of one value against one
/// answer of the store leave two fields in the same state, which show the
/// same fragment.
pub proof fn live_check_repeats<E: Message, Q: Feedback<E>>(
    query: Q,
    found: Lookup,
    first: InputField<E>,
    second: InputField<E>,
)
    requires
        is_checked(first, Q::cfg_spec(), query.value(), query.rule(found)),
        is_checked(second, Q::cfg_spec(), query.value(), query.rule(found)),
    ensures
        first.state() == second.state(),
        first.markup() == second.markup(),
{
}

/// Only an invalid field says anything, and what it says is its error; an
/// untouched field shows no value.
pub proof fn feedback_follows_state<E: Message>(state: InputState<E>)
    ensures
        state is Invalid <==> state.error() is Some,
        state.error() matches Some(error) ==> state.feedback() == inline_msg_markup(
            Level::Error,
            error.text(),
        ),
        state.error() is None ==> state.feedback().len() == 0,
        state is Init ==> state.value().len() == 0,
{
}

} // verus!
