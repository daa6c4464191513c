use faxtop::auth_handler::{find_user, find_user_checked, handle_sign_in, me, sign_in, AuthData, SignInStep};
use faxtop::error::{AuthError, Body};
use faxtop::password_handler::{create_account, AccountStep};
use faxtop::records::{FieldValue, Lookup, Record};
use faxtop::session::{SessionUser, User};
use faxtop::timestamps::Timestamp;
use faxtop::utils::{get_current_user, hash_password, is_signed_in, verify};

const ID_TEXT: &str = "67e55044-10b1-426f-9247-bb680e5fe0c8";

fn id_value() -> u128 {
    0x67e5504410b1426f9247bb680e5fe0c8
}

fn user_doc(id: &str, email: &str, hash: &str) -> Record {
    Record {
        entries: vec![
            ("id".to_string(), FieldValue::Str(id.to_string())),
            ("email".to_string(), FieldValue::Str(email.to_string())),
            ("hash".to_string(), FieldValue::Str(hash.to_string())),
        ],
    }
}

fn message(e: &AuthError) -> String {
    e.describe()
}

#[test]
fn hashed_password_verifies() {
    let h = hash_password("secret").unwrap();
    assert!(h.starts_with("$rpbkdf2$0$AAAAIA==$"));
    assert!(verify(&h, "secret").is_ok());
    let wrong = verify(&h, "Secret").unwrap_err();
    assert_eq!(message(&wrong), "AuthenticationError: Could not verify password");
    assert!(verify("not a hash", "secret").is_err());
}

#[test]
fn two_hashes_of_one_password_differ_but_both_verify() {
    let a = hash_password("pw").unwrap();
    let b = hash_password("pw").unwrap();
    assert_ne!(a, b);
    assert!(verify(&a, "pw").is_ok() && verify(&b, "pw").is_ok());
}

fn lookup_key(path_id: &str) -> String {
    match create_account(false, path_id) {
        AccountStep::FindConfirmation(id) => id,
        _ => panic!("expected a lookup"),
    }
}

#[test]
fn uuid_text_is_lower_case_hyphenated() {
    assert_eq!(lookup_key("67E55044-10B1-426F-9247-BB680E5FE0C8"), ID_TEXT);
    assert_eq!(lookup_key("67e5504410b1426f9247bb680e5fe0c8"), ID_TEXT);
    assert_eq!(lookup_key("urn:uuid:67e55044-10b1-426f-9247-bb680e5fe0c8"), ID_TEXT);
    assert_eq!(lookup_key("00000000000000000000000000000000"), "00000000-0000-0000-0000-000000000000");
    assert!(matches!(create_account(false, "not-a-uuid"), AccountStep::Respond(Err(AuthError::BadId))));
}

#[test]
fn failed_or_empty_lookup_is_not_found() {
    for lookup in [Lookup::Failed, Lookup::Missing] {
        let e = find_user(&lookup, "pw").unwrap_err();
        assert_eq!(message(&e), "NotFound: Confirmation not found");
    }
}

#[test]
fn lookup_without_hash_is_bad_request() {
    let doc = Record {
        entries: vec![
            ("id".to_string(), FieldValue::Str(ID_TEXT.to_string())),
            ("email".to_string(), FieldValue::Str("a@b.c".to_string())),
            ("hash".to_string(), FieldValue::Int64(3)),
        ],
    };
    let e = find_user(&Lookup::Found(doc), "pw").unwrap_err();
    assert_eq!(message(&e), "GenericError: Bad request");
}

#[test]
fn right_password_finds_user_and_wrong_one_does_not() {
    let h = hash_password("pw").unwrap();
    let doc = user_doc("67E55044-10B1-426F-9247-BB680E5FE0C8", "a@b.c", &h);
    let u = find_user(&Lookup::Found(doc), "pw").unwrap();
    assert_eq!(u.id, id_value());
    assert_eq!(u.email, "a@b.c");
    let doc = user_doc(ID_TEXT, "a@b.c", &h);
    let e = find_user(&Lookup::Found(doc), "nope").unwrap_err();
    assert_eq!(message(&e), "NotFound: User not found");
}

#[test]
fn matching_user_with_broken_id_cannot_go_on() {
    let h = hash_password("pw").unwrap();
    let doc = user_doc("broken", "a@b.c", &h);
    assert!(find_user_checked(&Lookup::Found(doc), "pw").is_none());
    let doc = user_doc("broken", "a@b.c", &h);
    let r = find_user_checked(&Lookup::Found(doc), "other").unwrap();
    assert_eq!(message(&r.unwrap_err()), "NotFound: User not found");
}

#[test]
fn stored_user_signs_in_with_its_password() {
    let h = hash_password("pw").unwrap();
    let user = User { id: id_value(), email: "a@b.c".to_string(), hash: h, created_at: Timestamp { secs: 1614834367, nanos: 0 } };
    let doc = user.to_record();
    assert_eq!(doc.entries[0].0, "id");
    assert!(matches!(&doc.entries[0].1, FieldValue::Str(s) if s == ID_TEXT));
    assert!(matches!(&doc.entries[3].1, FieldValue::Str(s) if s == "2021-03-04 05:06:07 UTC"));
    let u = find_user(&Lookup::Found(doc), "pw").unwrap();
    assert_eq!(u.id, id_value());
    assert_eq!(u.email, "a@b.c");
}

#[test]
fn me_answers_user_or_unauthorized() {
    let r = me(&Ok(SessionUser { id: 7, email: "x@y".to_string() }));
    assert_eq!(r.status, 200);
    assert!(matches!(r.body, Body::User(ref u) if u.id == 7 && u.email == "x@y"));
    let r = me(&Err(AuthError::BadId));
    assert_eq!(r.status, 401);
    assert!(matches!(r.body, Body::Message(ref m) if m == "Unauthorized"));
}

#[test]
fn sign_in_with_session_answers_current_user() {
    let data = AuthData { email: "a@b.c".to_string(), password: "pw".to_string() };
    match sign_in(&data, &Ok(SessionUser { id: 1, email: "old@b.c".to_string() })) {
        SignInStep::Respond(r) => {
            assert_eq!(r.status, 200);
            assert!(matches!(r.body, Body::User(ref u) if u.email == "old@b.c"));
        }
        _ => panic!("expected a reply"),
    }
    match sign_in(&data, &Err(AuthError::BadId)) {
        SignInStep::FindUser(email) => assert_eq!(email, "a@b.c"),
        _ => panic!("expected a lookup"),
    }
}

#[test]
fn handle_sign_in_remembers_or_refuses() {
    let r = handle_sign_in(Ok(SessionUser { id: 2, email: "a@b.c".to_string() }));
    assert_eq!(r.reply.status, 200);
    assert_eq!(r.remember.unwrap().id, 2);
    let r = handle_sign_in(Err(AuthError::NotFound("User not found".to_string())));
    assert_eq!(r.reply.status, 401);
    assert!(matches!(r.reply.body, Body::Message(ref m) if m == "NotFound: User not found"));
    assert!(r.remember.is_none());
}

#[test]
fn session_user_is_read_or_refused() {
    let u = get_current_user(Some(SessionUser { id: 3, email: "s@t".to_string() })).unwrap();
    assert_eq!(u.id, 3);
    let e = get_current_user(None);
    assert!(!is_signed_in(&e));
    assert_eq!(message(&e.unwrap_err()), "AuthenticationError: Could not retrieve user from session");
    assert!(is_signed_in(&Ok(SessionUser { id: 1, email: String::new() })));
}

#[test]
fn errors_answer_their_status_and_message() {
    let cases = vec![
        (AuthError::BadId, 400, "Invalid ID", "BadId"),
        (AuthError::GenericError("g".to_string()), 400, "g", "GenericError: g"),
        (AuthError::ProcessError("p".to_string()), 500, "p", "ProcessFailed: p"),
        (AuthError::AuthenticationError("a".to_string()), 401, "a", "AuthenticationError: a"),
        (AuthError::NotFound("n".to_string()), 404, "n", "NotFound: n"),
    ];
    for (e, status, body, text) in cases {
        let r = e.error_response();
        assert_eq!(r.status, status);
        assert!(matches!(r.body, Body::Message(ref m) if m == body));
        assert_eq!(e.describe(), text);
        assert_eq!(e.duplicate().describe(), text);
    }
    assert_eq!(AuthError::database_error().describe(), "GenericError: Some database error occured");
}
