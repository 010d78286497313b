use muttr_server::domain::user::credentials::email::{Email, EmailValidationErr, EMAIL_PATTERN};
use muttr_server::domain::user::credentials::handle::{
    check_handle, Handle, HandleValidationErr, ALLOWED_HANDLE_CHARS,
};
use muttr_server::domain::user::credentials::login::{Login, LoginData};
use muttr_server::domain::user::credentials::password::{
    holds_class, is_in_class, CharClass, Password, PasswordValidationErr, ALLOWED_PASSWORD_CHARS,
};
use muttr_server::domain::user::handle::UserHandle;
use muttr_server::utils::credentials::{
    compare_password_hash, hash_valid_password, is_valid_handle, validate_and_hash_password,
    validate_password, CredentialValidationError,
};
use muttr_server::utils::hashing::{hash_password, random_salt, verify_password};
use muttr_server::utils::pattern::is_match;
use muttr_server::utils::text::{find_inside, find_outside, holds, is_blank};

const BLANK_HANDLES: [&str; 5] = [
    "\t",
    " ",
    "   ",
    "\n",
    "
            ",
];

const FORBIDDEN_HANDLES: [&str; 10] = ["/", "(", ")", "'", "\"", "<", ">", "\\", "{", "}"];

#[test]
fn handle_a_20_grapheme_long_handle_is_valid() {
    let handle = "A".repeat(20);
    assert!(Handle::try_from(handle.clone()).is_ok());
    assert!(UserHandle::parse(handle).is_ok());
}

#[test]
fn handle_a_handle_longer_than_20_grapheme_is_rejected() {
    let handle = "A".repeat(21);
    assert!(Handle::try_from(handle.clone()).is_err());
    assert!(UserHandle::parse(handle).is_err());
}

#[test]
fn handle_whitespace_only_handles_rejected() {
    for handle in BLANK_HANDLES {
        assert!(Handle::try_from(handle.to_string()).is_err());
        assert!(UserHandle::parse(handle.to_string()).is_err());
    }
}

#[test]
fn handle_handle_with_forbidden_characters_rejected() {
    for handle in FORBIDDEN_HANDLES {
        assert!(Handle::try_from(handle.to_string()).is_err());
        assert!(UserHandle::parse(handle.to_string()).is_err());
    }
}

#[test]
fn handle_empty_string_handle_rejected() {
    assert!(Handle::try_from("".to_string()).is_err());
    assert!(UserHandle::parse("".to_string()).is_err());
}

#[test]
fn tests_a_20_grapheme_long_handle_is_valid() {
    let handle = "A".repeat(20);
    assert!(Handle::parse(handle).is_ok());
}

#[test]
fn tests_a_handle_longer_than_20_grapheme_is_rejected() {
    let handle = "A".repeat(21);
    assert!(Handle::parse(handle).is_err());
}

#[test]
fn tests_whitespace_only_handles_rejected() {
    for handle in BLANK_HANDLES {
        assert!(Handle::parse(handle.to_string()).is_err());
    }
}

#[test]
fn tests_handle_with_forbidden_characters_rejected() {
    for handle in FORBIDDEN_HANDLES {
        assert!(Handle::parse(handle.to_string()).is_err());
    }
}

#[test]
fn tests_empty_string_handle_rejected() {
    assert!(Handle::parse("".to_string()).is_err());
}

#[test]
fn password_fails_when_less_than_8_grapheme() {
    let password = "P@ssw0r".to_string();
    assert!(Password::try_from(password.clone()).is_err());
    assert!(Password::parse(password).is_err());
}

#[test]
fn password_fails_when_more_than_64_grapheme() {
    let filler = "A".repeat(60);
    let password = format!("P@ss1{}", filler).to_string();
    assert!(Password::try_from(password.clone()).is_err());
    assert!(Password::parse(password).is_err());
}

#[test]
fn password_fails_when_no_uppercase() {
    let password = "n0neofyourbus!ness".to_string();
    assert!(Password::try_from(password.clone()).is_err());
    assert!(Password::parse(password).is_err());
}

#[test]
fn password_fails_when_no_lowercase() {
    let password = "N0NEOFYOURBUS!NESS".to_string();
    assert!(Password::try_from(password.clone()).is_err());
    assert!(Password::parse(password).is_err());
}

#[test]
fn password_fails_when_no_number() {
    let password = "Noneofyourbus!ness".to_string();
    assert!(Password::try_from(password.clone()).is_err());
    assert!(Password::parse(password).is_err());
}

#[test]
fn password_fails_when_no_special_char() {
    let password = "N0neofyourbusiness".to_string();
    assert!(Password::try_from(password.clone()).is_err());
    assert!(Password::parse(password).is_err());
}

#[test]
fn tests_fails_when_less_than_8_grapheme() {
    let password = "P@ssw0r".to_string();
    assert!(Password::parse(password).is_err());
}

#[test]
fn tests_fails_when_more_than_64_grapheme() {
    let filler = "A".repeat(60);
    let password = format!("P@ss1{}", filler).to_string();
    assert!(Password::parse(password).is_err());
}

#[test]
fn tests_fails_when_no_uppercase() {
    let password = "n0neofyourbus!ness".to_string();
    assert!(Password::parse(password).is_err());
}

#[test]
fn tests_fails_when_no_lowercase() {
    let password = "N0NEOFYOURBUS!NESS".to_string();
    assert!(Password::parse(password).is_err());
}

#[test]
fn tests_fails_when_no_number() {
    let password = "Noneofyourbus!ness".to_string();
    assert!(Password::parse(password).is_err());
}

#[test]
fn tests_fails_when_no_special_char() {
    let password = "N0neofyourbusiness".to_string();
    assert!(Password::parse(password).is_err());
}

#[test]
fn invalid_email_rejected() {
    let emails = &[
        "alex",
        "alex.pitsikoulis@test",
        "alex@test.",
        "alex@test.qwertyuiop",
        "_alex@test.com",
        "alex_@test.com",
        "alex@test.com_",
        "alex@_test.com",
    ];
    for email in emails {
        assert!(Email::parse(email.to_string()).is_err());
    }
}

#[test]
fn valid_emails_are_parsed_and_keep_their_text() {
    for email in ["alex@test.com", "a.b-c@mail.example.org", "user1@sub.domain.io"] {
        let parsed = Email::parse(email.to_string()).expect("a valid address");
        assert_eq!(parsed.as_ref(), email);
        let by_str = Email::parse_str(email).expect("a valid address");
        assert!(parsed.same(&by_str));
        assert!(Email::try_from(email).is_ok());
        assert!(Email::try_from(email.to_string()).is_ok());
    }
}

#[test]
fn invalid_email_error_names_the_text() {
    match Email::parse_str("alex") {
        Err(EmailValidationErr::EmailInvalidErr(message)) => {
            assert_eq!(message, "Email alex is invalid")
        }
        Ok(_) => panic!("alex is no address"),
    }
}

#[test]
fn email_parse_option_passes_absence_through() {
    assert!(matches!(Email::parse_option(None), Ok(None)));
    assert!(matches!(Email::parse_option(Some("alex@test.com")), Ok(Some(_))));
    assert!(Email::parse_option(Some("alex")).is_err());
}

#[test]
fn pattern_verdicts() {
    assert_eq!(is_match("^a+$", "aaa"), Some(true));
    assert_eq!(is_match("^a+$", "aab"), Some(false));
    assert_eq!(is_match("b", "aab"), Some(true));
    assert_eq!(is_match("(", "aab"), None);
    assert_eq!(is_match(EMAIL_PATTERN, "alex@test.com"), Some(true));
    assert_eq!(is_match(EMAIL_PATTERN, "alex@test."), Some(false));
}

#[test]
fn handle_faults_come_in_order() {
    assert_eq!(check_handle(""), Some(HandleValidationErr::HandleEmpty));
    assert_eq!(check_handle(" \t\u{3000}"), Some(HandleValidationErr::HandleEmpty));
    // Twenty-one blanks are blank before they are too long.
    assert_eq!(check_handle(&" ".repeat(21)), Some(HandleValidationErr::HandleEmpty));
    // Too long is told before the forbidden character.
    assert_eq!(
        check_handle(&format!("/{}", "a".repeat(20))),
        Some(HandleValidationErr::HandleTooLong)
    );
    // Seven characters of three bytes each are twenty-one bytes.
    assert_eq!(check_handle(&"\u{20ac}".repeat(7)), Some(HandleValidationErr::HandleTooLong));
    assert_eq!(
        check_handle("ab(c)"),
        Some(HandleValidationErr::HandleContainsForbiddenChars('('))
    );
    assert_eq!(
        check_handle("a b"),
        Some(HandleValidationErr::HandleContainsForbiddenChars(' '))
    );
    assert_eq!(
        check_handle("caf\u{e9}"),
        Some(HandleValidationErr::HandleContainsForbiddenChars('\u{e9}'))
    );
    assert_eq!(check_handle("a"), None);
    assert_eq!(check_handle("Anna_99!"), None);
}

#[test]
fn every_allowed_character_is_a_handle() {
    for c in ALLOWED_HANDLE_CHARS {
        let handle = Handle::parse(c.to_string()).expect("one allowed character");
        assert_eq!(handle.as_ref(), c.to_string());
    }
    assert_eq!(ALLOWED_HANDLE_CHARS.len(), 84);
}

#[test]
fn handle_parse_reports_the_fault() {
    assert_eq!(Handle::parse("".to_string()).err(), Some(HandleValidationErr::HandleEmpty));
    assert_eq!(
        Handle::try_from("x".repeat(21)).err(),
        Some(HandleValidationErr::HandleTooLong)
    );
    assert_eq!(
        Handle::try_from("a{b").err(),
        Some(HandleValidationErr::HandleContainsForbiddenChars('{'))
    );
    assert_eq!(
        UserHandle::parse("a<b>".to_string()).err(),
        Some(HandleValidationErr::HandleContainsForbiddenChars('<'))
    );
    let kept = Handle::parse("neo".to_string()).unwrap();
    assert_eq!(kept.as_ref(), "neo");
    assert!(kept.same(&kept.clone()));
    assert!(!kept.same(&Handle::parse("trinity".to_string()).unwrap()));
    assert_eq!(UserHandle::parse("neo".to_string()).unwrap().as_ref(), "neo");
}

#[test]
fn handle_parse_option_passes_absence_through() {
    assert!(matches!(Handle::parse_option(None), Ok(None)));
    assert!(matches!(Handle::parse_option(Some("neo".to_string())), Ok(Some(_))));
    assert_eq!(
        Handle::parse_option(Some("".to_string())).err(),
        Some(HandleValidationErr::HandleEmpty)
    );
}

#[test]
fn plain_handle_rule_reports_the_first_forbidden_character() {
    assert!(matches!(is_valid_handle("neo".to_string()), Ok(())));
    assert!(matches!(
        is_valid_handle("  ".to_string()),
        Err(CredentialValidationError::HandleEmpty)
    ));
    assert!(matches!(
        is_valid_handle("x".repeat(21)),
        Err(CredentialValidationError::HandleTooLong)
    ));
    assert!(matches!(
        is_valid_handle("ab>c<".to_string()),
        Err(CredentialValidationError::HandleContainsForbiddenChars('>'))
    ));
    // The plain rule forbids ten signs and allows everything else.
    assert!(matches!(is_valid_handle("caf\u{e9} au lait".to_string()), Ok(())));
}

#[test]
fn password_validate_reports_each_fault() {
    assert!(matches!(Password::validate("P@ssw0r"), Err(PasswordValidationErr::PwdTooShort)));
    assert!(matches!(
        Password::validate(&format!("P@ss1{}", "A".repeat(60))),
        Err(PasswordValidationErr::PwdTooLong)
    ));
    assert!(matches!(
        Password::validate("N0NEOFYOURBUS!NESS"),
        Err(PasswordValidationErr::PwdMissingLowercase)
    ));
    assert!(matches!(
        Password::validate("n0neofyourbus!ness"),
        Err(PasswordValidationErr::PwdMissingUppercase)
    ));
    assert!(matches!(
        Password::validate("Noneofyourbus!ness"),
        Err(PasswordValidationErr::PwdMissingNumber)
    ));
    assert!(matches!(
        Password::validate("N0neofyourbusiness"),
        Err(PasswordValidationErr::PwdMissingChar)
    ));
    // Nothing but digits: the lower-case letter is missed first.
    assert!(matches!(
        Password::validate("12345678"),
        Err(PasswordValidationErr::PwdMissingLowercase)
    ));
    assert!(matches!(Password::validate("P@ssw0rd"), Ok(())));
    assert!(matches!(Password::validate(&format!("P@ss1{}", "A".repeat(59))), Ok(())));
    // Eight bytes in three characters pass the length, not the rules.
    assert!(matches!(
        Password::validate("\u{20ac}\u{20ac}ab"),
        Err(PasswordValidationErr::PwdMissingUppercase)
    ));
}

#[test]
fn character_classes() {
    assert!(is_in_class('a', CharClass::Lowercase));
    assert!(is_in_class('z', CharClass::Lowercase));
    assert!(!is_in_class('A', CharClass::Lowercase));
    assert!(is_in_class('A', CharClass::Uppercase));
    assert!(is_in_class('0', CharClass::Number));
    assert!(!is_in_class('a', CharClass::Number));
    for c in ALLOWED_PASSWORD_CHARS {
        assert!(is_in_class(c, CharClass::Special));
    }
    assert!(!is_in_class('a', CharClass::Special));
    assert!(!is_in_class('\u{e9}', CharClass::Lowercase));
    assert!(holds_class("abC", CharClass::Uppercase));
    assert!(!holds_class("abc", CharClass::Uppercase));
    assert!(!holds_class("", CharClass::Special));
}

#[test]
fn plain_password_rule_reports_each_fault() {
    assert!(matches!(validate_password("P@ssw0r"), Err(CredentialValidationError::PwdTooShort)));
    assert!(matches!(
        validate_password(&format!("P@ss1{}", "A".repeat(60))),
        Err(CredentialValidationError::PwdTooLong)
    ));
    assert!(matches!(
        validate_password("N0NEOFYOURBUS!NESS"),
        Err(CredentialValidationError::PwdMissingLowercase)
    ));
    assert!(matches!(
        validate_password("n0neofyourbus!ness"),
        Err(CredentialValidationError::PwdMissingUppercase)
    ));
    assert!(matches!(
        validate_password("Noneofyourbus!ness"),
        Err(CredentialValidationError::PwdMissingNumber)
    ));
    assert!(matches!(
        validate_password("N0neofyourbusiness"),
        Err(CredentialValidationError::PwdMissingChar)
    ));
    assert!(matches!(validate_password("P@ssw0rd"), Ok(())));
    assert!(matches!(validate_password("Passw0rd "), Ok(())));
}

#[test]
fn hashing_is_argon2i_with_the_costs_of_this_server() {
    let encoded = hash_password("password", b"somesalt").expect("a hash");
    assert_eq!(
        encoded,
        "$argon2i$v=19$m=4096,t=3,p=1$c29tZXNhbHQ$iWh06vD8Fy27wf9npn6FXWiCX4K6pW6Ue1Bnzz07Z8A"
    );
    assert_eq!(verify_password(&encoded, "password"), Ok(true));
    assert_eq!(verify_password(&encoded, "passwore"), Ok(false));
    assert!(verify_password("password", "password").is_err());
    // A hash with other costs is not looked at, whatever the password.
    assert_eq!(
        verify_password(
            "$argon2i$v=19$m=65536,t=3,p=1$c29tZXNhbHQ$iWh06vD8Fy27wf9npn6FXWiCX4K6pW6Ue1Bnzz07Z8A",
            "password"
        ),
        Err("Hash was not made with the parameters of this server".to_string())
    );
    // Text that begins as a hash of this server and is none gets the hasher's error.
    assert!(verify_password("$argon2i$v=19$m=4096,t=3,p=1$", "password").is_err());
    assert!(verify_password("$argon2i$v=19$m=4096,t=3,p=1$!!$!!", "password").is_err());
    // A salt of fewer than eight bytes is refused by the hasher.
    assert!(hash_password("password", b"salt").is_err());
}

#[test]
fn salts_are_sixteen_bytes_and_differ() {
    let a = random_salt();
    let b = random_salt();
    assert_eq!(a.len(), 16);
    assert_ne!(a, b);
}

#[test]
fn a_parsed_password_is_kept_as_its_hash() {
    let kept = Password::parse_with_salt("P@ssw0rd", b"somesalt").expect("a password");
    assert_eq!(kept.as_ref(), hash_password("P@ssw0rd", b"somesalt").unwrap());
    assert_ne!(kept.as_ref(), "P@ssw0rd");
    assert_eq!(kept.inner(), kept.as_ref());
    assert_eq!(kept.compare("P@ssw0rd"), Ok(true));
    assert_eq!(kept.compare("P@ssw0re"), Ok(false));
    assert!(kept.same(&kept.clone()));

    let fresh = Password::parse("P@ssw0rd".to_string()).expect("a password");
    assert!(fresh.as_ref().starts_with("$argon2i$"));
    assert_eq!(fresh.compare("P@ssw0rd"), Ok(true));
    let again = Password::try_from("P@ssw0rd".to_string()).expect("a password");
    assert!(!fresh.same(&again));
}

#[test]
fn a_raw_password_is_kept_as_it_is() {
    let raw = Password::from_raw("anything at all".to_string());
    assert_eq!(raw.as_ref(), "anything at all");
    assert!(raw.compare("anything at all").is_err());
    assert!(matches!(Password::from_hash(Ok("h".to_string())), Ok(p) if p.as_ref() == "h"));
    assert!(matches!(
        Password::from_hash(Err("no".to_string())),
        Err(PasswordValidationErr::ArgonErr(reason)) if reason == "no"
    ));
}

#[test]
fn wire_passwords_are_kept_or_hashed() {
    let hash = hash_password("P@ssw0rd", b"somesalt").unwrap();
    assert!(hash.len() > 64);
    assert!(Password::is_hashed(&hash));
    assert!(!Password::is_hashed("P@ssw0rd"));
    let kept = Password::from_wire(hash.clone(), b"othersalt").unwrap();
    assert_eq!(kept.as_ref(), hash);
    // A short text that begins as a hash does is a new password.
    assert!(matches!(
        Password::from_wire("$argon2i$".to_string(), b"somesalt"),
        Err(PasswordValidationErr::PwdMissingUppercase)
    ));
    let new = Password::from_wire("$argon2i$Aa1".to_string(), b"somesalt").unwrap();
    assert_eq!(new.as_ref(), hash_password("$argon2i$Aa1", b"somesalt").unwrap());
    // In a change request the beginning alone decides.
    let short = Password::from_wire_option(Some("$argon2id$".to_string()), b"somesalt").unwrap();
    assert_eq!(short.unwrap().as_ref(), "$argon2id$");
    assert!(matches!(Password::from_wire_option(None, b"somesalt"), Ok(None)));
    assert!(matches!(
        Password::from_wire_option(Some("short".to_string()), b"somesalt"),
        Err(PasswordValidationErr::PwdTooShort)
    ));
}

#[test]
fn plain_hashing_follows_the_rules_first() {
    assert!(matches!(
        hash_valid_password("short", b"somesalt"),
        Err(CredentialValidationError::PwdTooShort)
    ));
    assert!(matches!(
        hash_valid_password("P@ssw0rd", b"salt"),
        Err(CredentialValidationError::ArgonErr(_))
    ));
    let hash = hash_valid_password("P@ssw0rd", b"somesalt").unwrap();
    assert_eq!(hash, hash_password("P@ssw0rd", b"somesalt").unwrap());
    assert_eq!(compare_password_hash("P@ssw0rd", &hash), Ok(true));
    assert_eq!(compare_password_hash("P@ssw0re", &hash), Ok(false));
    assert!(compare_password_hash("P@ssw0rd", "no hash").is_err());
    let fresh = validate_and_hash_password("P@ssw0rd").unwrap();
    assert_eq!(compare_password_hash("P@ssw0rd", &fresh), Ok(true));
    assert!(matches!(
        validate_and_hash_password("password"),
        Err(CredentialValidationError::PwdMissingUppercase)
    ));
}

#[test]
fn a_login_is_an_address_first_and_a_handle_second() {
    match Login::parse("alex@test.com") {
        Ok(Login::Email(e)) => assert_eq!(e.as_ref(), "alex@test.com"),
        _ => panic!("an address"),
    }
    // `@` may stand in a handle, so what is no address may still be one.
    match Login::parse("alex@test") {
        Ok(Login::Handle(h)) => assert_eq!(h.as_ref(), "alex@test"),
        _ => panic!("a handle"),
    }
    match Login::parse("neo") {
        Ok(login) => assert_eq!(login.as_ref(), "neo"),
        Err(_) => panic!("a handle"),
    }
    assert_eq!(Login::parse("not a login").err(), Some("Email/Handle invalid".to_string()));
    let data = LoginData::new("neo", "P@ssw0rd".to_string()).unwrap();
    assert_eq!(data.login.as_ref(), "neo");
    assert_eq!(data.password, "P@ssw0rd");
    assert_eq!(
        LoginData::new("", "P@ssw0rd".to_string()).err(),
        Some("Email/Handle invalid".to_string())
    );
}

#[test]
fn text_questions() {
    assert!(is_blank(""));
    assert!(is_blank(" \t\n\r\u{a0}\u{2003}"));
    assert!(!is_blank(" a "));
    assert!(holds(&['a', 'b'], 'b'));
    assert!(!holds(&['a', 'b'], 'c'));
    assert!(!holds(&[], 'c'));
    assert_eq!(find_outside("abca", &['a', 'b']), Some('c'));
    assert_eq!(find_outside("abba", &['a', 'b']), None);
    assert_eq!(find_outside("", &[]), None);
    assert_eq!(find_inside("xyzb", &['a', 'b', 'z']), Some('z'));
    assert_eq!(find_inside("xy", &['a', 'b']), None);
}

#[test]
fn whitespace_is_the_white_space_of_unicode() {
    let listed = |c: char| {
        matches!(
            c,
            '\u{9}'..='\u{d}'
                | ' '
                | '\u{85}'
                | '\u{a0}'
                | '\u{1680}'
                | '\u{2000}'..='\u{200a}'
                | '\u{2028}'
                | '\u{2029}'
                | '\u{202f}'
                | '\u{205f}'
                | '\u{3000}'
        )
    };
    let mut count = 0;
    for code in 0..=0x10ffffu32 {
        if let Some(c) = char::from_u32(code) {
            assert_eq!(is_blank(&c.to_string()), listed(c), "U+{:04X}", code);
            if listed(c) {
                count += 1;
            }
        }
    }
    assert_eq!(count, 25);
    assert_eq!(check_handle("   "), Some(HandleValidationErr::HandleEmpty));
    assert_eq!(check_handle("\u{2003}\u{3000}"), Some(HandleValidationErr::HandleEmpty));
    assert_eq!(
        check_handle("\u{200b}"),
        Some(HandleValidationErr::HandleContainsForbiddenChars('\u{200b}'))
    );
}
