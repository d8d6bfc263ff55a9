//! The signup form: its three fields, and a submission on its way from the
//! request to the store.

use vstd::prelude::*;
use crate::db::{Lookup, QueryResult};
use crate::email::{address_fault, email_verdict, validate_user_email, EmailError, EmailFeedBack};
use crate::templates::base::{alert_markup, dismissible_alert, layout, layout_markup, Level, Msg};
use crate::templates::{escaped, push_escaped, Markup};
use crate::user::login::{create_hash, is_hash_of};
use crate::user::new::input::{init_markup, Feedback, Message};
use crate::user::new::name::{name_format_rule, name_rule, name_store_rule, NameError, NameQuery};
use crate::user::{
    check_password, holder_of_email, holder_of_name, password_rule, PasswordFormatError,
    PasswordQuery, User,
};

pub mod email;
pub mod input;
pub mod name;
pub mod password;

verus! {

/// Said while the password and its confirmation differ.
pub const NOT_CONFIRMED: &'static str = "Passwords do not match";

/// What the form is made of.
pub const FORM_SCRIPT_OPEN: &'static str =
    "on htmx:beforeRequest(srcElement)\n                log the event then\n                if #password.value is #confirm-password.value\n                    log 'password confirmed'\n                else\n                    log srcElement.id\n                    if srcElement.id is 'newUser'\n                        send newPass to #confirm-password\n                        then set #flashes's innerHTML to '";

pub const FORM_SCRIPT_CLOSE: &'static str =
    "'\n                        then halt the event";

pub const FORM_OPEN: &'static str =
    "<h2>Create a Account</h2><form id=\"newUser\" method=\"post\" novalidate hx-post=\"/user/new\" hx-target=\"closest &lt;body/&gt;\" hx-ext=\"morph\" hx-target-500=\"#flashes\" hx-target-406=\"#flashes\" _=\"";

pub const FIELDS_OPEN: &'static str = "\"><fieldset>";

pub const FORM_CLOSE: &'static str =
    "<div class=\"form-group\"><label for=\"confirm-password\">Confirm Password</label><input class=\"form-control\" id=\"confirm-password\" type=\"password\" _=\"\n                        on newpass or change or keyup debounced at 350ms  \n                        if my value equals #password.value \n                            add @hidden to #repeat-nok then\n                            remove .is-invalid from me\n                            then if my value is not ''\n                                -- remove @hidden from #repeat-ok\n                                add .is-valid to me\n                            end\n                        else \n                            -- add @hidden to #repeat-ok\n                            add .is-invalid to me then remove .is-valid from me\n                            then remove @hidden from #repeat-nok\n                    \n                    \"><span id=\"repeat-ok\" hidden>✅</span><span class=\"alert alert-danger inline-err\" id=\"repeat-nok\" hidden role=\"alert\">Passwords do not match</span></div><button>save</button></fieldset></form>";

/// What the form does before it sends itself: it holds the request back and
/// shows an alert while the two passwords differ.
pub open spec fn form_script() -> Seq<char> {
    FORM_SCRIPT_OPEN@ + alert_markup(Level::Error, NOT_CONFIRMED@) + FORM_SCRIPT_CLOSE@
}

/// The form: the three fields, untouched, then the field that confirms the
/// password and the button.
pub open spec fn form_markup() -> Seq<char> {
    FORM_OPEN@ + escaped(form_script()) + FIELDS_OPEN@ + init_markup(NameQuery::cfg_spec())
        + init_markup(email::EmailQuery::cfg_spec()) + init_markup(
        password::PasswordQuery::cfg_spec(),
    ) + FORM_CLOSE@
}

/// The page with the signup form, under the messages given.
pub fn create_form_template(msgs: &[Msg]) -> (m: Markup)
    ensures
        m@ == layout_markup(form_markup(), msgs@),
{
    let not_firm_msg = dismissible_alert(Level::Error, NOT_CONFIRMED);
    let mut form_script = String::from_str(FORM_SCRIPT_OPEN);
    form_script.append(not_firm_msg.as_str());
    form_script.append(FORM_SCRIPT_CLOSE);

    let mut content = String::from_str(FORM_OPEN);
    push_escaped(&mut content, form_script.as_str());
    content.append(FIELDS_OPEN);
    content.append(name::init_input().as_str());
    content.append(email::init_input().as_str());
    content.append(password::init_input().as_str());
    content.append(FORM_CLOSE);
    layout(Markup::new(content), msgs)
}

/// What the signup form sends.
#[derive(Clone, Debug, Default, PartialEq, Eq)]
pub struct CreateUserRequest {
    pub name: String,
    pub password: String,
    pub email: String,
}

/// Why a submission is turned down.
#[derive(Debug, PartialEq, Eq)]
pub enum NewUserError {
    PasswordError(PasswordFormatError),
    EmailError(EmailError),
    NameError(NameError),
    /// The store could not be asked; its report is kept.
    DBError(String),
}

impl Message for NewUserError {
    open spec fn text(&self) -> Seq<char> {
        match self {
            NewUserError::PasswordError(e) => "Password: "@ + e.text(),
            NewUserError::EmailError(e) => "Email: "@ + e.text(),
            NewUserError::NameError(e) => "Name: "@ + e.text(),
            NewUserError::DBError(e) => e@,
        }
    }

    fn message(&self) -> (s: String) {
        match self {
            NewUserError::PasswordError(e) => {
                let mut s = String::from_str("Password: ");
                s.append(e.message().as_str());
                s
            },
            NewUserError::EmailError(e) => {
                let mut s = String::from_str("Email: ");
                s.append(e.message().as_str());
                s
            },
            NewUserError::NameError(e) => {
                let mut s = String::from_str("Name: ");
                s.append(e.message().as_str());
                s
            },
            NewUserError::DBError(e) => e.clone(),
        }
    }
}

/// Whether the three values pass every check that needs no look at the
/// store.
pub open spec fn passes_format(req: CreateUserRequest) -> bool {
    &&& name_format_rule(req.name@) is Ok
    &&& address_fault(req.email@) is None
    &&& password_rule(req.password@) is Ok
}

/// The error that turns a submission down, if there is one: the name is
/// judged first, then the address, then the password, and the first error
/// is the one reported. `name_found` and `email_found` are the store's
/// answers about the name and the address.
pub open spec fn validation_error(
    req: CreateUserRequest,
    name_found: Lookup,
    email_found: Lookup,
) -> Option<NewUserError> {
    match name_rule(req.name@, name_found) {
        Err(e) => Some(NewUserError::NameError(e)),
        Ok(()) => match email_verdict(req.email@, None, email_found) {
            Err(e) => Some(NewUserError::DBError(e)),
            Ok(EmailFeedBack(Err(e))) => Some(NewUserError::EmailError(e)),
            Ok(EmailFeedBack(Ok(()))) => match password_rule(req.password@) {
                Err(e) => Some(NewUserError::PasswordError(e)),
                Ok(()) => None,
            },
        },
    }
}

impl CreateUserRequest {
    /// Judges the request, given the store's answers about its name and its
    /// address. Nothing the sender claims is taken on trust.
    pub fn validate(self, name_found: &Lookup, email_found: &Lookup) -> (verdict: Result<
        ValidNewUser,
        (Self, NewUserError),
    >)
        ensures
            match validation_error(self, *name_found, *email_found) {
                Some(error) => verdict == Err::<ValidNewUser, _>((self, error)),
                None => verdict matches Ok(valid) && valid.request() == self,
            },
    {
        let name = NameQuery { name: self.name.clone() };
        if let Err(error) = name.validate(name_found) {
            return Err((self, NewUserError::NameError(error)));
        }
        let feedback = validate_user_email(email_found, self.email.as_str(), None);
        match feedback {
            Ok(v) => match v.0 {
                Ok(_) => (),
                Err(e) => return Err((self, NewUserError::EmailError(e))),
            },
            Err(e) => return Err((self, NewUserError::DBError(e))),
        };
        let q: PasswordQuery = PasswordQuery::from(self.password.as_str());
        match q.validate() {
            Ok(_) => (),
            Err(e) => return Err((self, NewUserError::PasswordError(e))),
        };
        Ok(ValidNewUser(self))
    }
}

/// A request whose three values passed their format checks. Only validation
/// makes one.
#[derive(Debug, PartialEq, Eq)]
pub struct ValidNewUser(CreateUserRequest);

/// The row that a new account adds to the store.
#[derive(Debug, PartialEq, Eq)]
pub struct NewUser {
    pub name: String,
    pub email: String,
    pub password_hash: String,
}

impl ValidNewUser {
    #[verifier::type_invariant]
    spec fn checked(self) -> bool {
        passes_format(self.0)
    }

    /// The request that was found valid.
    pub closed spec fn request(&self) -> CreateUserRequest {
        self.0
    }

    /// The request again, as it came in.
    pub fn demote(self) -> (req: CreateUserRequest)
        ensures
            req == self.request(),
            passes_format(req),
    {
        proof {
            use_type_invariant(&self);
        }
        self.0
    }

    /// The row to insert for this request, the password hashed. `None` where
    /// it could not be hashed; [`ValidNewUser::row_with`] says the rest.
    pub fn insert(&self) -> (row: Option<NewUser>)
        ensures
            row matches Some(row) ==> {
                &&& row.name == self.request().name
                &&& row.email == self.request().email
                &&& is_hash_of(row.password_hash, self.request().password@)
            },
    {
        let hash = create_hash(self.0.password.as_str());
        self.row_with(hash)
    }

    /// The row to insert for this request once its password went through the
    /// hasher: the request's name and address beside the hash, and no row
    /// where there is no hash.
    pub fn row_with(&self, hash: Option<String>) -> (row: Option<NewUser>)
        ensures
            row == row_of(self.request(), hash),
    {
        let input = &self.0;
        match hash {
            Some(hash) => Some(
                NewUser { name: input.name.clone(), email: input.email.clone(), password_hash: hash },
            ),
            None => None,
        }
    }

    /// What the store's answer to the insert makes of the submission: the
    /// store's report, or the request handed back with the store's error.
    pub fn inserted(self, res: Result<QueryResult, String>) -> (outcome: Result<
        QueryResult,
        (CreateUserRequest, String),
    >)
        ensures
            outcome == match res {
                Ok(v) => Ok::<QueryResult, (CreateUserRequest, String)>(v),
                Err(e) => Err((self.request(), e)),
            },
    {
        match res {
            Ok(v) => Ok(v),
            Err(e) => Err((self.demote(), e)),
        }
    }
}

/// The row for `req` with its password hashed to `hash`; none without a
/// hash.
pub open spec fn row_of(req: CreateUserRequest, hash: Option<String>) -> Option<NewUser> {
    match hash {
        Some(hash) => Some(NewUser { name: req.name, email: req.email, password_hash: hash }),
        None => None,
    }
}

/// Said of a submission whose password could not be hashed.
pub const HASH_FAILED: &'static str = "password could not be hashed";

/// Where a submission stands.
#[derive(Debug, PartialEq, Eq)]
pub enum Stage {
    Received(CreateUserRequest),
    /// The name is well formed; the store has to say who holds it.
    ValidatingName(CreateUserRequest),
    /// The name is free and the address parses; the store has to say who
    /// holds the address.
    ValidatingEmail(CreateUserRequest),
    /// All three values passed; the store has to take the row.
    Inserting(ValidNewUser),
    Committed(QueryResult),
    /// The store did not take the row: an error that no field is to blame
    /// for.
    InsertFailed(CreateUserRequest, String),
    Rejected(CreateUserRequest, NewUserError),
}

/// A submission, on its way from the request to the store.
///
/// It is received, has its name judged, then its address, then its password,
/// and is inserted if all three pass. It ends committed, failed at the
/// insert, or rejected with the first error found. Nothing is tried twice.
#[derive(Debug)]
pub struct Submission {
    stage: Stage,
}

/// What happened since the last step.
#[derive(Debug)]
pub enum Event {
    /// The request came in.
    Start,
    /// The store answered the lookup that was asked for.
    Found(Lookup),
    /// The store answered the insert that was asked for.
    Inserted(Result<QueryResult, String>),
}

/// What the caller has to do next.
#[derive(Debug, PartialEq, Eq)]
pub enum Action {
    /// Ask the store which account has this name.
    FindName(String),
    /// Ask the store which account has this address.
    FindEmail(String),
    /// Have the store insert this row.
    Insert(NewUser),
    /// The submission is over: answer the request.
    Reply,
    /// The event was not the one waited for: nothing changed.
    Ignore,
}

/// The answer to a request whose submission is over.
#[derive(Debug, PartialEq, Eq)]
pub enum Reply {
    /// The account exists: say so on the next page and go there.
    Created,
    /// A value was turned down; the alert names it.
    NotAcceptable(Markup),
    /// The store failed; the alert carries its report.
    InternalError(Markup),
}

/// Said on the next page once an account exists.
pub const CREATED: &'static str = "created new user";

/// Where the reader is sent once an account exists.
pub const CREATED_AT: &'static str = "/user/new";

impl Stage {
    /// Whether the submission is over.
    pub open spec fn is_over(self) -> bool {
        self is Committed || self is InsertFailed || self is Rejected
    }

    /// The step that `event` makes from this state: the state it leads to
    /// and what it asks of the caller. An event that the state does not wait
    /// for changes nothing.
    pub open spec fn steps_to(self, event: Event, next: Stage, action: Action) -> bool {
        match (self, event) {
            (Stage::Received(req), Event::Start) => match name_format_rule(req.name@) {
                Err(e) => next == Stage::Rejected(req, NewUserError::NameError(e)) && action
                    == Action::Reply,
                Ok(()) => next == Stage::ValidatingName(req) && action == Action::FindName(
                    req.name,
                ),
            },
            (Stage::ValidatingName(req), Event::Found(found)) => match name_store_rule(found) {
                Err(e) => next == Stage::Rejected(req, NewUserError::NameError(e)) && action
                    == Action::Reply,
                Ok(()) => match address_fault(req.email@) {
                    Some(fault) => next == Stage::Rejected(
                        req,
                        NewUserError::EmailError(EmailError::FormatError(fault)),
                    ) && action == Action::Reply,
                    None => next == Stage::ValidatingEmail(req) && action == Action::FindEmail(
                        req.email,
                    ),
                },
            },
            (Stage::ValidatingEmail(req), Event::Found(found)) => match found {
                Err(e) => next == Stage::Rejected(req, NewUserError::DBError(e)) && action
                    == Action::Reply,
                Ok(Some(_)) => next == Stage::Rejected(
                    req,
                    NewUserError::EmailError(EmailError::Occupied),
                ) && action == Action::Reply,
                Ok(None) => match password_rule(req.password@) {
                    Err(e) => next == Stage::Rejected(req, NewUserError::PasswordError(e))
                        && action == Action::Reply,
                    Ok(()) => {
                        ||| {
                            &&& next matches Stage::Inserting(valid)
                            &&& valid.request() == req
                            &&& action matches Action::Insert(row)
                            &&& row.name == req.name
                            &&& row.email == req.email
                            &&& is_hash_of(row.password_hash, req.password@)
                        }
                        ||| {
                            &&& next matches Stage::InsertFailed(failed, why)
                            &&& failed == req
                            &&& why@ == HASH_FAILED@
                            &&& action == Action::Reply
                        }
                    },
                },
            },
            (Stage::Inserting(valid), Event::Inserted(res)) => match res {
                Ok(report) => next == Stage::Committed(report) && action == Action::Reply,
                Err(e) => next == Stage::InsertFailed(valid.request(), e) && action
                    == Action::Reply,
            },
            _ => next == self && action == Action::Ignore,
        }
    }
}

impl Submission {
    #[verifier::type_invariant]
    spec fn sound(self) -> bool {
        match self.stage {
            Stage::ValidatingName(req) => name_format_rule(req.name@) is Ok,
            Stage::ValidatingEmail(req) => name_format_rule(req.name@) is Ok && address_fault(
                req.email@,
            ) is None,
            _ => true,
        }
    }

    /// Where the submission stands.
    pub closed spec fn stage(&self) -> Stage {
        self.stage
    }

    /// A submission as it comes in.
    pub fn new(req: CreateUserRequest) -> (submission: Self)
        ensures
            submission.stage() == Stage::Received(req),
    {
        Submission { stage: Stage::Received(req) }
    }

    /// Where the submission stands.
    pub fn state(&self) -> (stage: &Stage)
        ensures
            *stage == self.stage(),
    {
        &self.stage
    }

    /// Where the submission stands, handed over.
    pub fn into_state(self) -> (stage: Stage)
        ensures
            stage == self.stage(),
    {
        self.stage
    }

    /// Takes the submission one step further.
    pub fn step(self, event: Event) -> (out: (Submission, Action))
        ensures
            self.stage().steps_to(event, out.0.stage(), out.1),
    {
        proof {
            use_type_invariant(&self);
        }
        let (stage, action) = match self.stage {
            Stage::Received(req) => match event {
                Event::Start => {
                    let name = NameQuery { name: req.name.clone() };
                    match name.check_format() {
                        Err(e) => (
                            Stage::Rejected(req, NewUserError::NameError(e)),
                            Action::Reply,
                        ),
                        Ok(()) => {
                            let ask = Action::FindName(name.into_value());
                            (Stage::ValidatingName(req), ask)
                        },
                    }
                },
                _ => (Stage::Received(req), Action::Ignore),
            },
            Stage::ValidatingName(req) => match event {
                Event::Found(found) => match found {
                    Err(e) => (
                        Stage::Rejected(req, NewUserError::NameError(NameError::DBError(e))),
                        Action::Reply,
                    ),
                    Ok(Some(_)) => (
                        Stage::Rejected(req, NewUserError::NameError(NameError::Occupied)),
                        Action::Reply,
                    ),
                    Ok(None) => match crate::email::parse_address(req.email.as_str()) {
                        Some(fault) => (
                            Stage::Rejected(
                                req,
                                NewUserError::EmailError(EmailError::FormatError(fault)),
                            ),
                            Action::Reply,
                        ),
                        None => {
                            let ask = Action::FindEmail(req.email.clone());
                            (Stage::ValidatingEmail(req), ask)
                        },
                    },
                },
                _ => (Stage::ValidatingName(req), Action::Ignore),
            },
            Stage::ValidatingEmail(req) => match event {
                Event::Found(found) => match found {
                    Err(e) => (Stage::Rejected(req, NewUserError::DBError(e)), Action::Reply),
                    Ok(Some(_)) => (
                        Stage::Rejected(req, NewUserError::EmailError(EmailError::Occupied)),
                        Action::Reply,
                    ),
                    Ok(None) => match check_password(req.password.as_str()) {
                        Err(e) => (
                            Stage::Rejected(req, NewUserError::PasswordError(e)),
                            Action::Reply,
                        ),
                        Ok(()) => {
                            let valid = ValidNewUser(req);
                            match valid.insert() {
                                Some(row) => (Stage::Inserting(valid), Action::Insert(row)),
                                None => (
                                    Stage::InsertFailed(
                                        valid.demote(),
                                        String::from_str(HASH_FAILED),
                                    ),
                                    Action::Reply,
                                ),
                            }
                        },
                    },
                },
                _ => (Stage::ValidatingEmail(req), Action::Ignore),
            },
            Stage::Inserting(valid) => match event {
                Event::Inserted(res) => match valid.inserted(res) {
                    Ok(report) => (Stage::Committed(report), Action::Reply),
                    Err((req, e)) => (Stage::InsertFailed(req, e), Action::Reply),
                },
                _ => (Stage::Inserting(valid), Action::Ignore),
            },
            Stage::Committed(report) => (Stage::Committed(report), Action::Ignore),
            Stage::InsertFailed(req, e) => (Stage::InsertFailed(req, e), Action::Ignore),
            Stage::Rejected(req, e) => (Stage::Rejected(req, e), Action::Ignore),
        };
        (Submission { stage }, action)
    }

    /// The answer to the request, once the submission is over: success, or
    /// an alert. A rejection names the field and its error; a failed insert
    /// is an error of its own kind and names no field.
    pub fn reply(&self) -> (reply: Option<Reply>)
        ensures
            match self.stage() {
                Stage::Committed(_) => reply matches Some(Reply::Created),
                Stage::Rejected(_, e) => reply matches Some(Reply::NotAcceptable(m)) && m@
                    == alert_markup(Level::Error, e.text()),
                Stage::InsertFailed(_, e) => reply matches Some(Reply::InternalError(m)) && m@
                    == alert_markup(Level::Error, e@),
                _ => reply is None,
            },
    {
        match &self.stage {
            Stage::Committed(_) => Some(Reply::Created),
            Stage::Rejected(_, e) => {
                let text = e.message();
                Some(Reply::NotAcceptable(dismissible_alert(Level::Error, text.as_str())))
            },
            Stage::InsertFailed(_, e) => Some(
                Reply::InternalError(dismissible_alert(Level::Error, e.as_str())),
            ),
            _ => None,
        }
    }
}

/// A submission whose values pass every check, and whose name and address
/// the store does not know, asks the store twice, inserts one row made of
/// its name, its address and a hash of its password, and is committed when
/// the store takes the row. No other step of the way asks for an insert.
pub proof fn accepted_submission_inserts_once(
    req: CreateUserRequest,
    named: (Stage, Action),
    addressed: (Stage, Action),
    inserting: (Stage, Action),
    report: QueryResult,
    done: (Stage, Action),
)
    requires
        passes_format(req),
        Stage::Received(req).steps_to(Event::Start, named.0, named.1),
        named.0.steps_to(Event::Found(Ok(None)), addressed.0, addressed.1),
        addressed.0.steps_to(Event::Found(Ok(None)), inserting.0, inserting.1),
        inserting.0 is Inserting,
        inserting.0.steps_to(Event::Inserted(Ok(report)), done.0, done.1),
    ensures
        named.1 == Action::FindName(req.name),
        addressed.1 == Action::FindEmail(req.email),
        inserting.1 matches Action::Insert(row) && row.name == req.name && row.email == req.email
            && is_hash_of(row.password_hash, req.password@),
        done.0 == Stage::Committed(report),
        done.1 == Action::Reply,
{
}

/// A submission whose name some account has is rejected for the name as soon
/// as the store says so: the address is not looked up and nothing is
/// inserted. So it goes with a submission sent a second time, once the first
/// was committed.
pub proof fn taken_name_is_rejected(
    req: CreateUserRequest,
    holder: i32,
    named: (Stage, Action),
    done: (Stage, Action),
)
    requires
        name_format_rule(req.name@) is Ok,
        Stage::Received(req).steps_to(Event::Start, named.0, named.1),
        named.0.steps_to(Event::Found(Ok(Some(holder))), done.0, done.1),
    ensures
        named.1 == Action::FindName(req.name),
        done.0 == Stage::Rejected(req, NewUserError::NameError(NameError::Occupied)),
        done.1 == Action::Reply,
        validation_error(req, Ok(Some(holder)), Ok(None)) == Some(
            NewUserError::NameError(NameError::Occupied),
        ),
{
}

/// A submission that is over stays as it is, whatever happens: nothing is
/// tried again.
pub proof fn finished_submission_stays(
    state: Stage,
    event: Event,
    next: Stage,
    action: Action,
)
    requires
        state.is_over(),
        state.steps_to(event, next, action),
    ensures
        next == state,
        action == Action::Ignore,
{
}

/// A submission is rejected exactly with the error that validation finds,
/// given the same answers from the store.
pub proof fn rejection_is_validation_error(
    req: CreateUserRequest,
    name_found: Lookup,
    email_found: Lookup,
    named: (Stage, Action),
    addressed: (Stage, Action),
    judged: (Stage, Action),
)
    requires
        Stage::Received(req).steps_to(Event::Start, named.0, named.1),
        named.0.steps_to(Event::Found(name_found), addressed.0, addressed.1),
        addressed.0.steps_to(Event::Found(email_found), judged.0, judged.1),
    ensures
        match validation_error(req, name_found, email_found) {
            Some(error) => judged.0 == Stage::Rejected(req, error),
            None => judged.0 is Inserting || judged.0 is InsertFailed,
        },
{
}

/// The accounts once the store took `row` and gave it the id `id`.
pub open spec fn with_account(users: Seq<User>, id: i32, row: NewUser) -> Seq<User> {
    users.push(User { id, password_hash: row.password_hash, name: row.name, email: row.email })
}

/// Signing up, then signing up again. Against accounts that hold neither its
/// name nor its address, a submission whose values pass every check is
/// committed with the one row that it inserts. Sent again with the same
/// values, against the accounts with that row among them, it is rejected
/// because the name is occupied, and asks for no insert.
pub proof fn signup_round_trip(
    users: Seq<User>,
    req: CreateUserRequest,
    named: (Stage, Action),
    addressed: (Stage, Action),
    inserting: (Stage, Action),
    id: i32,
    report: QueryResult,
    done: (Stage, Action),
    named_again: (Stage, Action),
    done_again: (Stage, Action),
)
    requires
        passes_format(req),
        holder_of_name(users, req.name@) is None,
        holder_of_email(users, req.email@) is None,
        Stage::Received(req).steps_to(Event::Start, named.0, named.1),
        named.0.steps_to(
            Event::Found(Ok(holder_of_name(users, req.name@))),
            addressed.0,
            addressed.1,
        ),
        addressed.0.steps_to(
            Event::Found(Ok(holder_of_email(users, req.email@))),
            inserting.0,
            inserting.1,
        ),
        inserting.1 is Insert,
        inserting.0.steps_to(Event::Inserted(Ok(report)), done.0, done.1),
        Stage::Received(req).steps_to(Event::Start, named_again.0, named_again.1),
        named_again.0.steps_to(
            Event::Found(
                Ok(holder_of_name(with_account(users, id, inserting.1->Insert_0), req.name@)),
            ),
            done_again.0,
            done_again.1,
        ),
    ensures
        named.1 is FindName && addressed.1 is FindEmail,
        done.0 == Stage::Committed(report),
        with_account(users, id, inserting.1->Insert_0).len() == users.len() + 1,
        with_account(users, id, inserting.1->Insert_0).last().name == req.name,
        with_account(users, id, inserting.1->Insert_0).last().email == req.email,
        named_again.1 is FindName,
        done_again.0 == Stage::Rejected(req, NewUserError::NameError(NameError::Occupied)),
        done_again.1 == Action::Reply,
{
    let after = with_account(users, id, inserting.1->Insert_0);
    assert(after[users.len() as int].name@ == req.name@);
}

} // verus!
