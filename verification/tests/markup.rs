use learn_htmx::email::{EmailError, EmailFeedBack};
use learn_htmx::templates::base::{
    dismissible_alert, dismissible_alerts, head, inline_msg, layout, lvl2alert_class, Level,
};
use learn_htmx::templates::contact::{contact_details, contact_list, edit_contact, new_contact};
use learn_htmx::templates::{hello_world, EditTemplate, Markup, NewTemplate};
use learn_htmx::db::Contact;
use learn_htmx::user::new::input::{Config, InputField, InputState};
use learn_htmx::user::new::name::NameError;
use learn_htmx::user::new::{create_form_template, email, name, password};
use learn_htmx::user::templates::{email_input, password_input};
use learn_htmx::user::PasswordQuery;

const NAME_INPUT: &str = "<input id=\"name\" hx-target=\"next &lt;span/&gt;\" hx-select=\"#feedback\" hx-swap=\"innerHTML\" name=\"name\" type=\"text\" placeholder=\"Alice\"";

const NAME_REST: &str = " hx-params=\"*\" hx-trigger=\"change, keyup delay:350ms changed, htmx:validation:validate\"></input>";

fn name_cfg() -> Config {
    Config {
        label: "Name",
        name: "name",
        kind: Some("text"),
        placeholder: Some("Alice"),
        validate_api: Some("./name/validate"),
        hyper_script: None,
    }
}

#[test]
fn markup_keeps_its_text() {
    let m = Markup::new("<p>hi</p>".to_string());
    assert_eq!(m.as_str(), "<p>hi</p>");
    assert_eq!(m.into_string(), "<p>hi</p>");
}

#[test]
fn alert_classes() {
    assert_eq!(lvl2alert_class(&Level::Debug), "alert-danger");
    assert_eq!(lvl2alert_class(&Level::Info), "alert-info");
    assert_eq!(lvl2alert_class(&Level::Success), "alert-success");
    assert_eq!(lvl2alert_class(&Level::Warning), "alert-warning");
    assert_eq!(lvl2alert_class(&Level::Error), "alert-danger");
}

#[test]
fn inline_message_is_escaped() {
    assert_eq!(
        inline_msg((Level::Error, "a < b & \"c\" > d")).into_string(),
        "<span class=\"alert inline-err alert-danger\">a &lt; b &amp; &quot;c&quot; &gt; d</span>"
    );
    assert_eq!(
        inline_msg((Level::Info, "it's fine")).into_string(),
        "<span class=\"alert inline-err alert-info\">it's fine</span>"
    );
}

#[test]
fn alerts_come_in_order() {
    let msgs = vec![
        (Level::Success, "saved".to_string()),
        (Level::Warning, "<careful>".to_string()),
    ];
    assert_eq!(
        dismissible_alerts(&msgs).into_string(),
        "<div class=\"alert alert-dismissible fade show alert-success\" role=\"alert\">saved<button class=\"btn-close\" type=\"button\" data-bs-dismiss=\"alert\" aria-label=\"Close\"></button></div><div class=\"alert alert-dismissible fade show alert-warning\" role=\"alert\">&lt;careful&gt;<button class=\"btn-close\" type=\"button\" data-bs-dismiss=\"alert\" aria-label=\"Close\"></button></div>"
    );
    assert_eq!(dismissible_alerts(&[]).into_string(), "");
    assert_eq!(
        dismissible_alert(Level::Success, "saved").into_string(),
        dismissible_alerts(&msgs[..1]).into_string()
    );
}

#[test]
fn head_holds_the_title() {
    let h = head("A & B").into_string();
    assert!(h.starts_with("<head><meta charset=\"UTF-8\"><title>A &amp; B</title><link rel=\"stylesheet\""));
    assert!(h.ends_with(".inline-err {padding: 0.3em 1em}</style></head>"));
}

#[test]
fn layout_frames_the_content() {
    let msgs = vec![(Level::Error, "no".to_string())];
    let page = layout(Markup::new("<p>x</p>".to_string()), &msgs).into_string();
    assert!(page.starts_with("<!DOCTYPE html><html lang=\"en\"><head><meta charset=\"UTF-8\"><title>Contacts</title>"));
    assert!(page.contains("<body hx-ext=\"response-targets\"><h1>Contact App</h1><h2>A HTMX Demo</h2><div id=\"flashes\"><div class=\"alert alert-dismissible fade show alert-danger\" role=\"alert\">no<button"));
    assert!(page.contains("</button></div></div><hr><p>x</p><script src=\"https://cdn.jsdelivr.net/npm/bootstrap@5.3.2/dist/js/bootstrap.bundle.min.js\""));
    assert!(page.ends_with("crossorigin=\"anonymous\"></script></body></html>"));
}

#[test]
fn untouched_field() {
    let field: InputField<NameError> = InputField::new(name_cfg());
    assert_eq!(field.style(), "");
    assert!(field.error().is_none());
    let expected = format!(
        "<div class=\"input_field\"><label for=\"name\">Name</label>{NAME_INPUT} value=\"\" hx-post=\"./name/validate\" style=\"\"{NAME_REST}<span id=\"feedback\"></span></div>"
    );
    assert_eq!(field.into_markup().into_string(), expected);
    assert_eq!(name::init_input().into_string(), expected);
}

#[test]
fn valid_field_is_green_and_says_nothing() {
    let field: InputField<NameError> =
        InputField::with_state(name_cfg(), InputState::Valid("alice".to_string()));
    assert_eq!(field.style(), "box-shadow: 0 0 3px #36cc00;");
    assert!(field.error().is_none());
    let expected = format!(
        "<div class=\"input_field\"><label for=\"name\">Name</label>{NAME_INPUT} value=\"alice\" hx-post=\"./name/validate\" style=\"box-shadow: 0 0 3px #36cc00;\"{NAME_REST}<span id=\"feedback\" _=\"on load \n                    add .ok to previous &lt;input/&gt; \n                    then remove .nok from previous &lt;input/&gt;\"></span></div>"
    );
    assert_eq!(field.into_markup().into_string(), expected);
}

#[test]
fn invalid_field_is_red_and_names_the_error() {
    let field = InputField::with_state(
        name_cfg(),
        InputState::Invalid { value: "a<b".to_string(), error: NameError::InvalidChar('<') },
    );
    assert_eq!(field.style(), "box-shadow: 0 0 3px #CC0000");
    assert_eq!(field.error(), Some(&NameError::InvalidChar('<')));
    let expected = format!(
        "<div class=\"input_field\"><label for=\"name\">Name</label>{NAME_INPUT} value=\"a&lt;b\" hx-post=\"./name/validate\" style=\"box-shadow: 0 0 3px #CC0000\"{NAME_REST}<span id=\"feedback\" _=\"on load \n                    add .nok to previous &lt;input/&gt; \n                    then remove .ok from previous &lt;input/&gt;\"><span class=\"alert inline-err alert-danger\">name has invalid char: &lt;</span></span></div>"
    );
    assert_eq!(field.into_markup().into_string(), expected);
}

#[test]
fn field_hands_its_state_back() {
    let field: InputField<NameError> =
        InputField::with_state(name_cfg(), InputState::Valid("alice".to_string()));
    assert_eq!(field.into_state(), InputState::Valid("alice".to_string()));
    let field: InputField<NameError> = InputField::new(name_cfg());
    assert_eq!(field.into_state(), InputState::Init);
}

#[test]
fn optional_attributes_are_left_out() {
    let field: InputField<NameError> = InputField::new(Config::default());
    assert_eq!(
        field.into_markup().into_string(),
        format!("<div class=\"input_field\"><label for=\"\"></label><input id=\"\" hx-target=\"next &lt;span/&gt;\" hx-select=\"#feedback\" hx-swap=\"innerHTML\" name=\"\" value=\"\" style=\"\"{NAME_REST}<span id=\"feedback\"></span></div>")
    );
}

#[test]
fn password_field_carries_its_script() {
    let m = password::init_input().into_string();
    assert!(m.contains("<label for=\"password\">Password</label>"));
    assert!(m.contains(" name=\"password\" type=\"password\" value=\"\" hx-post=\"./password/validate\" style=\"\""));
    assert!(m.contains(" _=\"on change or keyup debounced at 350ms\n            send newpass to #confirm-password\n        end\"></input>"));
    assert!(!m.contains("placeholder"));
}

#[test]
fn email_field_markup() {
    let m = email::init_input().into_string();
    assert!(m.contains("<label for=\"email\">Email</label><input id=\"email\""));
    assert!(m.contains(" name=\"email\" type=\"text\" placeholder=\"alice@example.org\" value=\"\" hx-post=\"./email/validate\""));
}

#[test]
fn signup_form_holds_the_three_fields() {
    let page = create_form_template(&[]).into_string();
    let name_at = page.find(&name::init_input().into_string()).unwrap();
    let email_at = page.find(&email::init_input().into_string()).unwrap();
    let password_at = page.find(&password::init_input().into_string()).unwrap();
    assert!(name_at < email_at && email_at < password_at);
    assert!(page.contains("<h2>Create a Account</h2><form id=\"newUser\" method=\"post\" novalidate hx-post=\"/user/new\" hx-target=\"closest &lt;body/&gt;\" hx-ext=\"morph\" hx-target-500=\"#flashes\" hx-target-406=\"#flashes\" _=\"on htmx:beforeRequest(srcElement)\n"));
    assert!(page.contains("then set #flashes's innerHTML to '&lt;div class=&quot;alert alert-dismissible fade show alert-danger&quot; role=&quot;alert&quot;&gt;Passwords do not match&lt;button class=&quot;btn-close&quot; type=&quot;button&quot; data-bs-dismiss=&quot;alert&quot; aria-label=&quot;Close&quot;&gt;&lt;/button&gt;&lt;/div&gt;'\n                        then halt the event\"><fieldset><div class=\"input_field\">"));
    assert!(page.contains("<div class=\"form-group\"><label for=\"confirm-password\">Confirm Password</label><input class=\"form-control\" id=\"confirm-password\" type=\"password\" _=\"\n                        on newpass or change or keyup debounced at 350ms  \n"));
    assert!(page.contains("<span id=\"repeat-ok\" hidden>✅</span><span class=\"alert alert-danger inline-err\" id=\"repeat-nok\" hidden role=\"alert\">Passwords do not match</span></div><button>save</button></fieldset></form><script"));
    assert!(page.contains("<div id=\"flashes\"></div><hr><h2>Create a Account</h2>"));
}

#[test]
fn signup_form_shows_its_messages() {
    let msgs = vec![(Level::Success, "created new user".to_string())];
    let page = create_form_template(&msgs).into_string();
    assert!(page.contains("<div id=\"flashes\"><div class=\"alert alert-dismissible fade show alert-success\" role=\"alert\">created new user<button"));
}

#[test]
fn email_feedback_markup() {
    assert_eq!(EmailFeedBack::ok(true).into_markup().into_string(), "<span>✅</span>");
    assert_eq!(
        EmailFeedBack::err(EmailError::Occupied).into_markup().into_string(),
        "<span class=\"alert alert-danger inline-err\" role=\"alert\">Email is occupied</span>"
    );
    assert_eq!(
        EmailFeedBack::err(EmailError::FormatError("<".to_string())).into_markup().into_string(),
        "<span class=\"alert alert-danger inline-err\" role=\"alert\">&lt;</span>"
    );
}

#[test]
fn password_feedback_markup() {
    assert_eq!(
        PasswordQuery::from("Abcdefg1").get_feedback().into_string(),
        "<span class=\"ok\" id=\"password-feedback\" _=\"\n                    on load send password(ok:true) to next &lt;button/&gt;\">✅</span>"
    );
    assert_eq!(
        PasswordQuery::from("Ab1").get_feedback().into_string(),
        "<span class=\"alert alert-danger inline-err\" id=\"password-feedback\" role=\"alert\" _=\"\n                    on load send password(ok:false) to next &lt;button/&gt;\">Too short</span>"
    );
}

#[test]
fn plain_inputs() {
    assert_eq!(
        email_input("a\"b@example.org", "/contacts/email?x=1&y=2", None).into_string(),
        "<input id=\"email\" name=\"email\" type=\"email\" placeholder=\"name@example.org\" value=\"a&quot;b@example.org\" hx-get=\"/contacts/email?x=1&amp;y=2\" hx-params=\"*\" hx-trigger=\"change, keyup delay:350ms changed\" hx-target=\"next span\" hx-target-500=\"next span\" hx-target-406=\"next span\" hx-swap=\"outerHTML\"><span></span>"
    );
    assert_eq!(
        password_input("pw", Some("Too <short>")).into_string(),
        "<input id=\"password\" name=\"password\" type=\"password\" value=\"pw\" hx-get=\"./password/validate\" hx-params=\"*\" hx-trigger=\"change, keyup delay:350ms changed\" hx-target=\"next span\" hx-swap=\"outerHTML\" _=\"on change or keyup debounced at 350ms\n                send newpass to #confirm-password\"><span class=\"alert alert-danger inline-err\" role=\"alert\">Too &lt;short&gt;</span>"
    );
}

#[test]
fn template_data() {
    let t = NewTemplate::new("n", "e@x.org", Some("bad".to_string()));
    assert_eq!(t.name, "n");
    assert_eq!(t.email, "e@x.org");
    assert!(t.messages.is_empty());
    assert_eq!(t.email_error, Some("bad".to_string()));
    let messages = ["one", "two"];
    let contact = Contact { id: 3, name: "n".to_string(), email: "e@x.org".to_string() };
    let t = EditTemplate::new(&messages, None, contact);
    assert_eq!(t.messages, &messages);
    assert_eq!(t.email_error, None);
    assert_eq!(t.contact.id, 3);
    assert_eq!(t.contact.name, "n");
    assert_eq!(t.contact.email, "e@x.org");
}

#[test]
fn greeting() {
    assert_eq!(hello_world(None).into_string(), "<h2>Hello, World!</h2>");
    assert_eq!(
        hello_world(Some("<Bob>".to_string())).into_string(),
        "<h2>Hello, &lt;Bob&gt;</h2>"
    );
}

fn contact(id: i32, name: &str, email: &str) -> Contact {
    Contact { id, name: name.to_string(), email: email.to_string() }
}

fn body_of(page: &str) -> &str {
    let from = page.find("<hr>").unwrap() + 4;
    let to = page.find("<script src=\"https://cdn.jsdelivr.net/npm/bootstrap@5.3.2/dist/js").unwrap();
    &page[from..to]
}

#[test]
fn new_contact_page() {
    let page = new_contact("A \"B\"", "a@x.org", None, &[]).into_string();
    assert_eq!(
        body_of(&page),
        "<div id=\"main\"><form action=\"/contacts/new\" method=\"post\"><legend>Contact Values</legend><p><label for=\"name\">Name</label><input id=\"name\" name=\"name\" placeholder=\"Name Surname\" value=\"A &quot;B&quot;\"></p><p><label for=\"email\">Email</label><input id=\"email\" name=\"email\" type=\"email\" placeholder=\"name@example.org\" value=\"a@x.org\" hx-get=\"/contacts/email\" hx-params=\"*\" hx-trigger=\"change, keyup delay:350ms changed\" hx-target=\"next span\" hx-swap=\"outerHTML\"><span></span></p><button>Saveasdasd</button></form></div><p><a href=\"/contacts\">Back</a></p>"
    );
    let msgs = vec![(Level::Error, "Internal Error".to_string())];
    let page = new_contact("", "", Some("Email is occupied"), &msgs).into_string();
    assert!(body_of(&page).contains("hx-swap=\"outerHTML\"><span class=\"alert alert-danger\" role=\"alert\">Email is occupied</span></p>"));
    assert!(page.contains("role=\"alert\">Internal Error<button"));
}

#[test]
fn edit_contact_page() {
    let page = edit_contact(&contact(-7, "Ann & Co", "ann@x.org"), &[], Some("bad")).into_string();
    assert_eq!(
        body_of(&page),
        "<div id=\"main\"><p><a href=\"contacts/-7\">View</a><a href=\"/contacts\"> back</a></p><h1>Editing Ann &amp; Co</h1><form action=\"/contacts/-7/edit\" method=\"post\"><fieldset><legend>Contact values</legend><p><label for=\"name\">Name</label><input id=\"name\" name=\"name\" type=\"text\" placeholder=\"name\" value=\"Ann &amp; Co\"></p><p><label for=\"email\">Email</label><input id=\"email\" name=\"email\" type=\"email\" placeholder=\"name@example.org\" value=\"ann@x.org\" hx-get=\"/contacts/email\" hx-params=\"*\" hx-vals=\"'id': '-7'\" hx-trigger=\"change, keyup delay:350ms changed\" hx-target=\"next span\" hx-swap=\"outerHTML\"><span class=\"alert alert-danger\" role=\"alert\">bad</span></p><button>save</button></fieldset><hr><button hx-delete=\"contacts/-7\" hx-confirm=\"Are you sure?\" hx-push-url=\"true\" hx-target=\"body\">Delete Contact</button></form></div>"
    );
}

#[test]
fn contact_details_page() {
    let page = contact_details(&[], &contact(120, "Ann", "ann@x.org")).into_string();
    assert_eq!(
        body_of(&page),
        "<div id=\"main\"><p><a href=\"/contacts/120/edit\">Edit</a><a href=\"/contacts\">Back</a></p><h1>Ann</h1><div><div>emailann@x.org</div></div></div>"
    );
}

#[test]
fn contact_list_page() {
    let contacts = vec![contact(0, "John", "g0@gmail.com"), contact(2147483647, "<J>", "g1@gmail.com")];
    let page = contact_list(&[], &contacts, 2, true).into_string();
    assert_eq!(
        body_of(&page),
        "<div id=\"main\"><form id=\"tool-bar\" action=\"/contacts\" method=\"get\"><label for=\"search\">Search Term</label><input class=\"search\" type=\"search\" name=\"name\" value=\"\"><input type=\"submit\" value=\"Search\"></form><table><thead><th>Name</th><th>Email</th><th>Links</th></thead><tr><td>John</td><td>g0@gmail.com</td><td><a href=\"/contacts/0\">View</a><a href=\"/contacts/0/edit\">Edit</a><a href=\"\" hx-confirm=\"Are you sure?\" hx-delete=\"/contacts/0\" hx-target=\"body\">Delete</a></td></tr><tr><td>&lt;J&gt;</td><td>g1@gmail.com</td><td><a href=\"/contacts/2147483647\">View</a><a href=\"/contacts/2147483647/edit\">Edit</a><a href=\"\" hx-confirm=\"Are you sure?\" hx-delete=\"/contacts/2147483647\" hx-target=\"body\">Delete</a></td></tr></table><span style=\"float: right\"><div id=\"pager\"><a href=\"/contacts?page=1\">Previous</a> (2) <a href=\"/contacts?page=3\">Next</a></div></span><div><a href=\"/contacts/new\">Create New</a>, <a href=\"/contacts/download\" hx-boost=\"false\">Download Contacts</a></div></div>"
    );
}

#[test]
fn contact_list_pager_ends() {
    let page = contact_list(&[], &[], 1, false).into_string();
    assert!(body_of(&page).contains("</thead></table><span style=\"float: right\"><div id=\"pager\"> (1) </div></span>"));
    let page = contact_list(&[], &[], u32::MAX, true).into_string();
    assert!(body_of(&page).contains("<a href=\"/contacts?page=4294967294\">Previous</a> (4294967295) <a href=\"/contacts?page=4294967296\">Next</a>"));
    let page = contact_list(&[], &[], 0, false).into_string();
    assert!(body_of(&page).contains("<div id=\"pager\"> (0) </div>"));
}
