use learn_htmx::db::Lookup;
use learn_htmx::email::{
    settle_email, validate_email, validate_user_email, EmailError, EmailFeedBack, EmailQuery, IsNew,
};
use learn_htmx::user::new::email::{EmailError as FieldEmailError, EmailQuery as EmailField};
use learn_htmx::user::new::input::{
    first_bad_name_char, validate_char, Checked, Feedback, InputState, Message,
};
use learn_htmx::user::new::name::{NameError, NameQuery};
use learn_htmx::user::new::password::PasswordQuery as PasswordField;
use learn_htmx::user::{check_password, PasswordFormatError, PasswordQuery};

fn name(text: &str) -> NameQuery {
    NameQuery { name: text.to_string() }
}

fn free() -> Lookup {
    Ok(None)
}

fn held(id: i32) -> Lookup {
    Ok(Some(id))
}

fn down() -> Lookup {
    Err("pool timed out".to_string())
}

#[test]
fn name_chars_are_letters_numbers_underscore_hyphen() {
    for c in ['a', 'Z', '7', '_', '-', 'é', '京', '٣'] {
        assert!(validate_char(&c), "{c:?}");
    }
    for c in [' ', '!', '@', '.', '<', '\n', '💝'] {
        assert!(!validate_char(&c), "{c:?}");
    }
}

#[test]
fn short_name_is_too_short_whatever_the_store_says() {
    for text in ["", "a", "ab", "abc", "a_-"] {
        assert_eq!(name(text).check_format(), Err(NameError::TooShort));
        assert_eq!(name(text).validate(&free()), Err(NameError::TooShort));
        assert_eq!(name(text).validate(&held(3)), Err(NameError::TooShort));
        assert_eq!(name(text).validate(&down()), Err(NameError::TooShort));
        assert_eq!(name(text).settle(), Some(Err(NameError::TooShort)));
    }
}

#[test]
fn short_name_is_settled_without_the_store() {
    match name("abc").check() {
        Checked::Settled(field) => assert_eq!(
            field.into_state(),
            InputState::Invalid { value: "abc".to_string(), error: NameError::TooShort }
        ),
        Checked::Ask(_) => panic!("the store must not be asked"),
    }
}

#[test]
fn long_name_is_too_long() {
    let text = "a".repeat(33);
    assert_eq!(name(&text).validate(&free()), Err(NameError::TooLong));
    assert_eq!(name(&text).validate(&held(1)), Err(NameError::TooLong));
    let longer = "b".repeat(260);
    assert_eq!(name(&longer).validate(&free()), Err(NameError::TooLong));
    let longest = "c".repeat(256);
    assert_eq!(name(&longest).validate(&free()), Err(NameError::TooLong));
}

#[test]
fn name_length_bounds_are_inclusive() {
    assert_eq!(name("abcd").validate(&free()), Ok(()));
    assert_eq!(name(&"a".repeat(32)).validate(&free()), Ok(()));
}

#[test]
fn name_length_counts_bytes() {
    // two characters, four bytes
    assert_eq!(name("éé").validate(&free()), Ok(()));
    // seventeen characters, thirty-four bytes
    assert_eq!(name(&"é".repeat(17)).validate(&free()), Err(NameError::TooLong));
}

#[test]
fn bad_name_char_comes_before_length() {
    assert_eq!(name("a!").validate(&free()), Err(NameError::InvalidChar('!')));
    assert_eq!(name("ab cd?").validate(&held(1)), Err(NameError::InvalidChar(' ')));
    let text = format!("{}@", "a".repeat(40));
    assert_eq!(name(&text).validate(&free()), Err(NameError::InvalidChar('@')));
}

#[test]
fn taken_name_is_occupied() {
    assert_eq!(name("alice").validate(&held(7)), Err(NameError::Occupied));
    assert_eq!(name("alice").validate(&free()), Ok(()));
}

#[test]
fn failed_name_lookup_is_reported() {
    assert_eq!(
        name("alice").validate(&down()),
        Err(NameError::DBError("pool timed out".to_string()))
    );
}

#[test]
fn well_formed_name_asks_the_store() {
    assert_eq!(name("alice").settle(), None);
    match name("alice").check() {
        Checked::Ask(q) => assert_eq!(q.name, "alice"),
        Checked::Settled(_) => panic!("the store has to be asked"),
    }
}

#[test]
fn name_error_messages() {
    assert_eq!(NameError::TooShort.message(), "name is too short");
    assert_eq!(NameError::TooLong.message(), "name is too long");
    assert_eq!(NameError::InvalidChar('#').message(), "name has invalid char: #");
    assert_eq!(NameError::Occupied.message(), "name is occupied");
    assert_eq!(NameError::DBError("gone".to_string()).message(), "Database failed with: gone");
}

#[test]
fn password_examples() {
    assert_eq!(check_password("Ab1"), Err(PasswordFormatError::TooShort));
    assert_eq!(check_password("abcdefgh"), Err(PasswordFormatError::NoUpper));
    assert_eq!(check_password("Abcdefg1"), Ok(()));
}

#[test]
fn password_query_validates() {
    assert_eq!(PasswordQuery::from("Ab1").validate(), Err(PasswordFormatError::TooShort));
    assert_eq!(PasswordQuery::from("Abcdefg1").validate(), Ok(()));
    assert_eq!(PasswordQuery::from("Abcdefg1").password, "Abcdefg1");
}

#[test]
fn password_chars() {
    for c in " !\"#$%&'()*+,-./:;<=>?@[\\]^_`{|}~".chars() {
        assert!(PasswordQuery::validate_char(&c), "{c:?}");
    }
    for c in ['a', 'Z', '0', 'ß', '京'] {
        assert!(PasswordQuery::validate_char(&c), "{c:?}");
    }
    for c in ['\n', '\t', '\u{7f}', '\u{0}', '💝', '€', '\u{a0}'] {
        assert!(!PasswordQuery::validate_char(&c), "{c:?}");
    }
}

#[test]
fn first_forbidden_password_char_is_reported() {
    assert_eq!(check_password("Abc1💝def\n"), Err(PasswordFormatError::InvalidChar('💝')));
    assert_eq!(check_password("\tAbcdef1"), Err(PasswordFormatError::InvalidChar('\t')));
    assert_eq!(check_password("Abcdef1\u{7f}"), Err(PasswordFormatError::InvalidChar('\u{7f}')));
    // before the length is looked at
    assert_eq!(check_password("\n"), Err(PasswordFormatError::InvalidChar('\n')));
}

#[test]
fn password_checks_come_in_order() {
    assert_eq!(check_password(""), Err(PasswordFormatError::TooShort));
    assert_eq!(check_password("abcde"), Err(PasswordFormatError::TooShort));
    assert_eq!(check_password(&"a".repeat(65)), Err(PasswordFormatError::TooLong));
    assert_eq!(check_password(&"a".repeat(300)), Err(PasswordFormatError::TooLong));
    assert_eq!(check_password("ABCDEF12"), Err(PasswordFormatError::NoLower));
    assert_eq!(check_password("12345678"), Err(PasswordFormatError::NoLower));
    assert_eq!(check_password("abcdef12"), Err(PasswordFormatError::NoUpper));
    assert_eq!(check_password("Abcdefgh"), Err(PasswordFormatError::NoNumeric));
    assert_eq!(check_password("Abcdefg h!"), Err(PasswordFormatError::NoNumeric));
}

#[test]
fn password_length_bounds_are_inclusive() {
    assert_eq!(check_password("Abcde1"), Ok(()));
    let longest = format!("A1{}", "b".repeat(62));
    assert_eq!(longest.len(), 64);
    assert_eq!(check_password(&longest), Ok(()));
}

#[test]
fn password_error_messages() {
    assert_eq!(PasswordFormatError::InvalidChar('€').message(), "Forbidden: €");
    assert_eq!(PasswordFormatError::TooShort.message(), "Too short");
    assert_eq!(PasswordFormatError::TooLong.message(), "Too long");
    assert_eq!(PasswordFormatError::NoUpper.message(), "No upper-case");
    assert_eq!(PasswordFormatError::NoLower.message(), "No lower-case");
    assert_eq!(PasswordFormatError::NoNumeric.message(), "No number");
}

#[test]
fn password_field_needs_no_store() {
    let q = PasswordField { password: "abcdefgh".to_string() };
    assert_eq!(q.settle(), Some(Err(PasswordFormatError::NoUpper)));
    assert_eq!(q.validate(&held(1)), Err(PasswordFormatError::NoUpper));
    assert_eq!(q.validate(&down()), Err(PasswordFormatError::NoUpper));
    match q.check() {
        Checked::Settled(field) => assert_eq!(
            field.into_state(),
            InputState::Invalid {
                value: "abcdefgh".to_string(),
                error: PasswordFormatError::NoUpper
            }
        ),
        Checked::Ask(_) => panic!("a password is not looked up"),
    }
    let good = PasswordField { password: "Abcdefg1".to_string() };
    assert_eq!(good.into_input(&free()).into_state(), InputState::Valid("Abcdefg1".to_string()));
}

#[test]
fn malformed_email_is_a_format_error() {
    let verdict = validate_user_email(&free(), "not-an-email", None).unwrap();
    match verdict.0 {
        Err(EmailError::FormatError(why)) => assert_eq!(why, "Missing separator character '@'."),
        other => panic!("{other:?}"),
    }
    // the store is not consulted: a failing one changes nothing
    let verdict = validate_user_email(&down(), "not-an-email", None).unwrap();
    assert!(matches!(verdict.0, Err(EmailError::FormatError(_))));
    assert!(matches!(settle_email("not-an-email"), Some(EmailFeedBack(Err(_)))));
}

#[test]
fn taken_email_is_occupied() {
    let verdict = validate_user_email(&held(4), "taken@example.org", None);
    assert_eq!(verdict, Ok(EmailFeedBack(Err(EmailError::Occupied))));
    let verdict = validate_user_email(&held(4), "taken@example.org", Some(5));
    assert_eq!(verdict, Ok(EmailFeedBack(Err(EmailError::Occupied))));
}

#[test]
fn own_email_is_allowed() {
    let verdict = validate_user_email(&held(4), "taken@example.org", Some(4));
    assert_eq!(verdict, Ok(EmailFeedBack(Ok(()))));
    let q = EmailQuery { email: "taken@example.org".to_string(), id: Some(4) };
    assert_eq!(validate_email(q, &held(4)), Ok(EmailFeedBack(Ok(()))));
}

#[test]
fn ids_are_compared_as_numbers() {
    // 4294967295 is no account's id, though it has the bits of -1
    let verdict = validate_user_email(&held(-1), "taken@example.org", Some(u32::MAX));
    assert_eq!(verdict, Ok(EmailFeedBack(Err(EmailError::Occupied))));
}

#[test]
fn free_email_passes() {
    assert_eq!(settle_email("new@example.org"), None);
    let verdict = validate_email(EmailQuery::new("new@example.org".to_string()), &free());
    assert_eq!(verdict, Ok(EmailFeedBack(Ok(()))));
}

#[test]
fn failed_email_lookup_fails_the_check() {
    let verdict = validate_user_email(&down(), "new@example.org", None);
    assert_eq!(verdict, Err("pool timed out".to_string()));
}

#[test]
fn email_query_starts_without_id() {
    let q = EmailQuery::new("a@b.example".to_string());
    assert_eq!(q.email, "a@b.example");
    assert_eq!(q.id, None);
    let q = EmailField::new("a@b.example".to_string());
    assert_eq!(q.email, "a@b.example");
    assert_eq!(q.id, None);
}

#[test]
fn email_messages() {
    assert_eq!(EmailError::Occupied.message(), "Email is occupied");
    assert_eq!(EmailError::FormatError("Domain is empty.".to_string()).message(), "Domain is empty.");
    assert_eq!(FieldEmailError::Occupied.message(), "Email is occupied");
    assert_eq!(FieldEmailError::FormatError("x".to_string()).message(), "x");
    assert_eq!(FieldEmailError::DBError("gone".to_string()).message(), "Database failed with: gone");
    assert_eq!(IsNew(true).message(), "✅");
    assert_eq!(IsNew(false).message(), "");
}

#[test]
fn email_feedback_builders() {
    assert_eq!(EmailFeedBack::ok(true), EmailFeedBack(Ok(())));
    assert_eq!(EmailFeedBack::ok(false), EmailFeedBack(Ok(())));
    assert_eq!(EmailFeedBack::err(EmailError::Occupied), EmailFeedBack(Err(EmailError::Occupied)));
    assert_eq!(EmailFeedBack::default(), EmailFeedBack(Ok(())));
}

#[test]
fn email_field_rule() {
    let q = |text: &str| EmailField { email: text.to_string(), id: None };
    assert!(matches!(q("not-an-email").settle(), Some(Err(FieldEmailError::FormatError(_)))));
    assert!(matches!(
        q("not-an-email").validate(&held(1)),
        Err(FieldEmailError::FormatError(_))
    ));
    assert_eq!(q("a@example.org").settle(), None);
    assert_eq!(q("a@example.org").validate(&free()), Ok(()));
    assert_eq!(q("a@example.org").validate(&held(2)), Err(FieldEmailError::Occupied));
    assert_eq!(
        q("a@example.org").validate(&down()),
        Err(FieldEmailError::DBError("pool timed out".to_string()))
    );
    // on the signup form an id that the sender claims changes nothing
    let claimed = EmailField { email: "a@example.org".to_string(), id: Some(2) };
    assert_eq!(claimed.validate(&held(2)), Err(FieldEmailError::Occupied));
}

#[test]
fn live_check_twice_gives_the_same_state() {
    for found in [free(), held(9), down()] {
        for text in ["al", "alice", "al ice", "éé"] {
            let first = name(text).into_input(&found).into_state();
            let second = name(text).into_input(&found).into_state();
            assert_eq!(first, second);
        }
        for text in ["not-an-email", "a@example.org"] {
            let q = |t: &str| EmailField { email: t.to_string(), id: None };
            assert_eq!(
                q(text).into_input(&found).into_state(),
                q(text).into_input(&found).into_state()
            );
        }
    }
}

#[test]
fn live_check_states() {
    assert_eq!(
        name("alice").into_input(&free()).into_state(),
        InputState::Valid("alice".to_string())
    );
    assert_eq!(
        name("alice").into_input(&held(1)).into_state(),
        InputState::Invalid { value: "alice".to_string(), error: NameError::Occupied }
    );
    assert_eq!(name("alice").into_value(), "alice");
}

#[test]
fn first_bad_name_char_is_the_first() {
    assert_eq!(first_bad_name_char("ab cd!"), Some(' '));
    assert_eq!(first_bad_name_char("abcd!"), Some('!'));
    assert_eq!(first_bad_name_char("abcd"), None);
    assert_eq!(first_bad_name_char(""), None);
}
