use muttr_server::config::{DatabaseConfig, Env, SslMode};
use muttr_server::consts::headers::{APP_JSON, AUTHORIZATION, CONTENT_TYPE, FORM_URL_ENCODED};
use muttr_server::domain::chat::direct_message::{DMThread, DirectMessage};
use muttr_server::domain::confirmation_token::{ConfirmationToken, ConfirmationTokenInner};
use muttr_server::domain::email::client::Client;
use muttr_server::domain::email::ServerEmail;
use muttr_server::domain::server::update::ServerUpdate;
use muttr_server::domain::server::{CreateServerRequestData, Server, UpdateServerRequestData};
use muttr_server::domain::user::api::GetUserResponse;
use muttr_server::domain::user::credentials::email::{Email, EmailValidationErr};
use muttr_server::domain::user::credentials::handle::{
    check_handle, Handle, HandleValidationErr, ALLOWED_HANDLE_CHARS,
};
use muttr_server::domain::user::credentials::password::{Password, ALLOWED_PASSWORD_CHARS};
use muttr_server::domain::user::User;
use muttr_server::utils::clock::Timestamp;
use muttr_server::utils::identity::Identity;
use muttr_server::utils::test::{
    gen_range, generate_handle, generate_password, handle_generator, password_generator, pick,
    RandomStringGenerator, RandomStringGeneratorError, LOWERCASE, NUMBERS, UPPERCASE,
};
use quickcheck::Gen;

fn id(bits: u128) -> Identity {
    Identity::from_u128(bits)
}

fn at(secs: i64) -> Timestamp {
    Timestamp { secs, nanos: 5 }
}

fn email(text: &str) -> Email {
    Email::parse_str(text).unwrap()
}

fn user() -> User {
    User::new(
        id(1),
        email("alex@test.com"),
        Handle::parse("alex".to_string()).unwrap(),
        Password::from_raw("hash".to_string()),
        Some("Alex".to_string()),
        None,
        Some("hi".to_string()),
        3,
        true,
        at(10),
        at(20),
        None,
    )
}

#[test]
fn environments_have_names() {
    assert_eq!(Env::Local.as_str(), "local");
    assert_eq!(Env::Production.as_str(), "production");
    assert_eq!(Env::Test.as_str(), "test");
    assert_eq!(Env::from("local".to_string()), Env::Local);
    assert_eq!(Env::from("PRODUCTION".to_string()), Env::Production);
    assert_eq!(Env::from("Test".to_string()), Env::Test);
    // A name that is none of the three means the local environment.
    assert_eq!(Env::from("staging".to_string()), Env::Local);
    assert_eq!(Env::from("".to_string()), Env::Local);
    for env in [Env::Local, Env::Production, Env::Test] {
        assert_eq!(Env::from(env.as_str().to_string()), env);
    }
}

#[test]
fn the_database_is_asked_for_encryption_as_the_settings_say() {
    let config = |require_ssl| DatabaseConfig {
        username: "u".to_string(),
        password: "p".to_string(),
        host: "h".to_string(),
        port: 5432,
        database_name: "d".to_string(),
        require_ssl,
    };
    assert_eq!(config(true).ssl_mode(), SslMode::Require);
    assert_eq!(config(false).ssl_mode(), SslMode::Prefer);
    assert_eq!(AUTHORIZATION, "Authorization");
    assert_eq!(CONTENT_TYPE, "Content-Type");
    assert_eq!(FORM_URL_ENCODED, "application/x-www-form-urlencoded");
    assert_eq!(APP_JSON, "application/json");
}

#[test]
fn an_email_for_the_service() {
    let mail = ServerEmail::new(
        email("from@test.com"),
        email("to@test.com"),
        "Subject".to_string(),
        "<b>html</b>".to_string(),
        "text".to_string(),
    );
    assert_eq!(mail.sender, "from@test.com");
    assert_eq!(mail.recipient, "to@test.com");
    assert_eq!(mail.subject, "Subject");
    assert_eq!(mail.body, "<b>html</b>text");

    let client = Client::new("http://mail.test".to_string(), email("from@test.com"));
    assert_eq!(client.send_url(), "http://mail.test/send");
    let mail = client.send_email(email("to@test.com"), "S".to_string(), "".to_string(), "t".to_string());
    assert_eq!(mail.sender, "from@test.com");
    assert_eq!(mail.body, "t");
    let mail = client.send_confirmation_email(email("to@test.com"), "tok.en");
    assert_eq!(mail.sender, "from@test.com");
    assert_eq!(mail.recipient, "to@test.com");
    assert_eq!(mail.subject, "Confirm Your Email");
    assert_eq!(mail.body, "<a href=\"/confirm/tok.en\"");
}

#[test]
fn an_account_keeps_what_it_is_given() {
    let mut u = user();
    assert_eq!(u.id(), id(1));
    assert_eq!(u.email().as_ref(), "alex@test.com");
    assert_eq!(u.handle().as_ref(), "alex");
    assert_eq!(u.password().as_ref(), "hash");
    assert_eq!(u.name().as_deref(), Some("Alex"));
    assert_eq!(u.profile_photo(), None);
    assert_eq!(u.bio().as_deref(), Some("hi"));
    assert_eq!(u.failed_attempts(), 3);
    assert!(u.email_confirmed());
    assert_eq!(u.created_at(), at(10));
    assert_eq!(u.updated_at(), at(20));
    assert_eq!(u.deleted_at(), None);
    assert!(!u.is_deleted());

    u.set_id(id(2));
    u.set_email(email("bo@test.com"));
    u.set_handle(Handle::parse("bo".to_string()).unwrap());
    u.set_name(None);
    u.set_password(Password::from_raw("other".to_string()));
    u.set_profile_photo(Some("p.png".to_string()));
    u.set_bio(None);
    u.set_email_confirmed(false);
    u.set_updated_at(at(30));
    u.set_deleted_at(Some(at(40)));
    assert_eq!(u.id(), id(2));
    assert_eq!(u.email().as_ref(), "bo@test.com");
    assert_eq!(u.handle().as_ref(), "bo");
    assert_eq!(u.name(), None);
    assert_eq!(u.password().as_ref(), "other");
    assert_eq!(u.profile_photo().as_deref(), Some("p.png"));
    assert_eq!(u.bio(), None);
    assert!(!u.email_confirmed());
    assert_eq!(u.updated_at(), at(30));
    assert_eq!(u.deleted_at(), Some(at(40)));
    assert!(u.is_deleted());
    assert_eq!(u.created_at(), at(10));
    assert_eq!(u.failed_attempts(), 3);

    u.increment_failed_attempts();
    assert_eq!(u.failed_attempts(), 4);
    u.reset_failed_attempts();
    assert_eq!(u.failed_attempts(), 0);
}

#[test]
fn an_account_takes_only_texts_that_pass_the_rules() {
    let mut u = user();
    assert!(u.set_email_string("bo@test.com".to_string()).is_ok());
    assert_eq!(u.email().as_ref(), "bo@test.com");
    assert!(matches!(
        u.set_email_string("bo".to_string()),
        Err(EmailValidationErr::EmailInvalidErr(m)) if m == "Email bo is invalid"
    ));
    assert_eq!(u.email().as_ref(), "bo@test.com");
    assert!(u.set_handle_string("bo".to_string()).is_ok());
    assert_eq!(u.handle().as_ref(), "bo");
    assert_eq!(u.set_handle_string("b o".to_string()), Err(HandleValidationErr::HandleContainsForbiddenChars(' ')));
    assert_eq!(u.handle().as_ref(), "bo");
}

#[test]
fn accounts_are_the_same_but_for_password_and_moments() {
    let a = user();
    let mut b = user();
    b.set_password(Password::from_raw("other".to_string()));
    b.set_updated_at(at(99));
    assert!(a.same(&b));
    b.set_bio(None);
    assert!(!a.same(&b));
    let mut c = user();
    c.set_deleted_at(Some(at(1)));
    assert!(!a.same(&c));
    let mut d = user();
    d.increment_failed_attempts();
    assert!(!a.same(&d));

    let shown = GetUserResponse::from_user(&a);
    assert_eq!(shown.id(), id(1));
    assert_eq!(shown.email().as_ref(), "alex@test.com");
    assert_eq!(shown.handle().as_ref(), "alex");
    assert_eq!(shown.name().as_deref(), Some("Alex"));
    assert_eq!(shown.profile_photo(), None);
    assert_eq!(shown.bio().as_deref(), Some("hi"));
    let made = GetUserResponse::new(id(3), email("xy@test.com"), Handle::parse("x".to_string()).unwrap(), None, None, None);
    assert_eq!(made.id(), id(3));
    assert_eq!(made.name(), None);
}

#[test]
fn a_server_keeps_what_it_is_given() {
    let mut s = Server::new(
        id(1),
        "name".to_string(),
        id(2),
        Some("about".to_string()),
        None,
        Some("c.png".to_string()),
        at(1),
        at(2),
        None,
    );
    assert_eq!(s.id(), id(1));
    assert_eq!(s.name(), "name");
    assert_eq!(s.owner_id(), id(2));
    assert_eq!(s.description().as_deref(), Some("about"));
    assert_eq!(s.photo(), None);
    assert_eq!(s.cover_photo().as_deref(), Some("c.png"));
    assert_eq!(s.created_at(), at(1));
    assert_eq!(s.updated_at(), at(2));
    assert_eq!(s.deleted_at(), None);
    assert!(!s.is_deleted());
    s.set_id(id(9));
    s.set_name("other".to_string());
    s.set_owner_id(id(8));
    s.set_description(None);
    s.set_photo(Some("p.png".to_string()));
    s.set_cover_photo(None);
    s.set_updated_at(at(3));
    s.set_deleted_at(Some(at(4)));
    assert_eq!(s.id(), id(9));
    assert_eq!(s.name(), "other");
    assert_eq!(s.owner_id(), id(8));
    assert_eq!(s.description(), None);
    assert_eq!(s.photo().as_deref(), Some("p.png"));
    assert_eq!(s.cover_photo(), None);
    assert_eq!(s.updated_at(), at(3));
    assert_eq!(s.deleted_at(), Some(at(4)));
    assert!(s.is_deleted());

    let body = CreateServerRequestData {
        name: "new".to_string(),
        description: None,
        photo: Some("p".to_string()),
        cover_photo: None,
    };
    let made = Server::from_create_request(body, id(5), id(6), at(7));
    assert_eq!(made.id(), id(5));
    assert_eq!(made.name(), "new");
    assert_eq!(made.owner_id(), id(6));
    assert_eq!(made.photo().as_deref(), Some("p"));
    assert_eq!(made.created_at(), at(7));
    assert_eq!(made.updated_at(), at(7));
    assert_eq!(made.deleted_at(), None);
}

#[test]
fn a_change_to_a_server_names_its_owner_as_an_identity() {
    let body = |owner: Option<&str>| UpdateServerRequestData {
        name: Some("n".to_string()),
        owner_id: owner.map(|o| o.to_string()),
        description: None,
        photo: None,
        cover_photo: Some("c".to_string()),
    };
    let change = ServerUpdate::from_request(&body(Some("00000000-0000-0000-0000-000000000007")), id(1)).unwrap();
    assert_eq!(change.id(), id(1));
    assert_eq!(change.name(), "n");
    assert_eq!(change.owner_id(), id(7));
    assert_eq!(change.description(), None);
    assert_eq!(change.photo(), None);
    assert_eq!(change.cover_photo().as_deref(), Some("c"));
    assert_eq!(change.deleted_at(), None);
    let change = ServerUpdate::from_request(&body(None), id(1)).unwrap();
    assert_eq!(change.owner_id(), Identity::nil());
    assert!(ServerUpdate::from_request(&body(Some("nobody")), id(1)).is_none());
    let bare = ServerUpdate::new(id(2), None, None, None, None, None);
    assert_eq!(bare.name(), "");
    assert_eq!(bare.owner_id(), Identity::nil());
}

#[test]
fn stored_conversations() {
    let mut m = DirectMessage::new(
        id(1),
        id(2),
        id(3),
        "hello".to_string(),
        false,
        Some(":)".to_string()),
        at(1),
        at(2),
        None,
    );
    assert_eq!(m.id(), id(1));
    assert_eq!(m.thread_id(), id(2));
    assert_eq!(m.sender_id(), id(3));
    assert_eq!(m.message(), "hello");
    assert!(!m.is_read());
    assert_eq!(m.reaction().as_deref(), Some(":)"));
    assert_eq!(m.created_at(), at(1));
    assert_eq!(m.updated_at(), at(2));
    assert_eq!(m.deleted_at(), None);
    let other = DirectMessage::new(id(1), id(2), id(3), "hello".to_string(), false, Some(":)".to_string()), at(8), at(9), None);
    assert!(m.same(&other));
    m.set_updated_at(at(5));
    assert_eq!(m.updated_at(), at(5));
    assert!(m.same(&other));
    m.set_deleted_at(Some(at(6)));
    assert_eq!(m.deleted_at(), Some(at(6)));
    assert!(!m.same(&other));
    let read = DirectMessage::new(id(1), id(2), id(3), "hello".to_string(), true, Some(":)".to_string()), at(8), at(9), None);
    assert!(!other.same(&read));

    let mut t = DMThread::new(id(1), id(2), id(3), at(1), at(2), None);
    assert_eq!(t.id(), id(1));
    assert_eq!(t.first_user_id(), id(2));
    assert_eq!(t.second_user_id(), id(3));
    assert_eq!(t.created_at(), at(1));
    assert_eq!(t.updated_at(), at(2));
    assert_eq!(t.deleted_at(), None);
    let later = DMThread::new(id(1), id(2), id(3), at(5), at(6), Some(at(7)));
    assert!(t.same(&later));
    assert!(!t.same(&DMThread::new(id(1), id(3), id(2), at(1), at(2), None)));
    t.set_updated_at(at(3));
    t.set_deleted_at(Some(at(4)));
    assert_eq!(t.updated_at(), at(3));
    assert_eq!(t.deleted_at(), Some(at(4)));
}

#[test]
fn a_confirmation_token_keeps_its_text_and_user() {
    let mut token = ConfirmationToken::new("secret text".to_string(), id(1));
    assert_eq!(token.expose(), "secret text");
    assert_eq!(token.inner(), "secret text");
    assert_eq!(token.user_id(), id(1));
    token.set_inner("other".to_string());
    token.set_user_id(id(2));
    assert_eq!(token.expose(), "other");
    assert_eq!(token.user_id(), id(2));
    let _inner = ConfirmationTokenInner::new("x".to_string());
}

#[test]
fn a_generator_needs_bounds_that_fit_its_demands() {
    let new = |min, max, l, u, n, s| RandomStringGenerator::new(min, max, l, u, n, s, &['!']).map(|_| ());
    assert_eq!(new(2, 1, false, false, false, false), Err(RandomStringGeneratorError::ErrMaxLowerThanMin));
    // The order of the bounds is looked at first.
    assert_eq!(new(3, 2, true, true, true, true), Err(RandomStringGeneratorError::ErrMaxLowerThanMin));
    assert_eq!(new(3, 9, true, true, true, true), Err(RandomStringGeneratorError::ErrMinLowerThanRequired));
    assert_eq!(new(0, 9, false, false, true, false), Err(RandomStringGeneratorError::ErrMinLowerThanRequired));
    assert_eq!(new(-1, 9, false, false, false, false), Err(RandomStringGeneratorError::ErrMinLowerThanRequired));
    assert_eq!(new(4, 4, true, true, true, true), Ok(()));
    assert_eq!(new(0, 0, false, false, false, false), Ok(()));
    assert_eq!(new(1, 1, false, true, false, false), Ok(()));
}

#[test]
fn generated_texts_have_the_wanted_shape() {
    let mut rng = Gen::new(10);
    let generator = RandomStringGenerator::new(4, 7, true, true, true, true, &['!', '?']).unwrap();
    for _ in 0..200 {
        let text: Vec<char> = generator.generate(&mut rng).chars().collect();
        assert!(text.len() >= 4 && text.len() <= 7);
        assert!(LOWERCASE.contains(&text[0]));
        assert!(UPPERCASE.contains(&text[1]));
        assert!(NUMBERS.contains(&text[2]));
        assert!(text[3] == '!' || text[3] == '?');
        for c in text {
            assert!(c.is_ascii_alphanumeric() || c == '!' || c == '?');
        }
    }
    let exact = RandomStringGenerator::new(3, 3, false, false, true, false, &[]).unwrap();
    let text = exact.generate(&mut rng);
    assert_eq!(text.len(), 3);
    assert!(NUMBERS.contains(&text.chars().next().unwrap()));
    let none = RandomStringGenerator::new(0, 0, false, false, false, false, &[]).unwrap();
    assert_eq!(none.generate(&mut rng), "");
}

#[test]
fn picks_are_from_what_is_offered() {
    let mut rng = Gen::new(10);
    let mut seen = [false; 3];
    for _ in 0..200 {
        let n = gen_range(-1, 1, &mut rng);
        assert!((-1..=1).contains(&n));
        seen[(n + 1) as usize] = true;
        assert_eq!(gen_range(7, 7, &mut rng), 7);
        assert!(['x', 'y'].contains(&pick(&mut rng, &['x', 'y'])));
        assert_eq!(pick(&mut rng, &['z']), 'z');
    }
    assert_eq!(seen, [true; 3]);
    assert_eq!(gen_range(i32::MAX, i32::MAX, &mut rng), i32::MAX);
}

#[test]
fn valid_handle_parsed_successfully() {
    let mut rng = Gen::new(10);
    let generator = handle_generator();
    for _ in 0..300 {
        let handle = generator.generate(&mut rng);
        assert_eq!(check_handle(&handle), None, "{}", handle);
        assert!(Handle::try_from(handle.clone()).is_ok());
        assert!(handle.chars().all(|c| ALLOWED_HANDLE_CHARS.contains(&c)));
    }
}

#[test]
fn valid_password_parses_successfully() {
    let mut rng = Gen::new(10);
    let generator = password_generator();
    for _ in 0..300 {
        let password = generator.generate(&mut rng);
        assert!(Password::validate(&password).is_ok(), "{}", password);
        assert!(muttr_server::utils::credentials::validate_password(&password).is_ok());
        assert!(password.chars().any(|c| ALLOWED_PASSWORD_CHARS.contains(&c)));
    }
    let password = generator.generate(&mut rng);
    assert!(Password::parse(password).is_ok());
}

#[test]
fn random_credentials_pass_the_rules() {
    let mut rng = Gen::new(10);
    for _ in 0..100 {
        let password = generate_password(&mut rng);
        assert!(Password::validate(&password).is_ok(), "{}", password);
        assert!(password.len() >= 8 && password.len() <= 64);
        let handle = generate_handle(&mut rng);
        assert_eq!(check_handle(&handle), None, "{}", handle);
        assert!(!handle.is_empty() && handle.chars().count() <= 20);
        assert!(handle.chars().all(|c| ALLOWED_HANDLE_CHARS.contains(&c)));
    }
}
