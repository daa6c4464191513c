use faxtop::email_service::{confirmation_mail, mail_outcome};
use faxtop::error::{AuthError, Body};
use faxtop::password_handler::{
    account_created, account_stored, check_confirmation, check_confirmation_checked, check_confirmation_now,
    create_account, new_account, AccountStep,
};
use faxtop::records::{FieldValue, Lookup, Record};
use faxtop::register_handler::{insert_record, registration_reply, send_confirmation};
use faxtop::session::{Confirmation, SessionUser, User};
use faxtop::timestamps::{timestamp_in_range, Timestamp, EARLIEST_SECS, LATEST_SECS};
use faxtop::utils::verify;

const ID_TEXT: &str = "67e55044-10b1-426f-9247-bb680e5fe0c8";
const ID: u128 = 0x67e5504410b1426f9247bb680e5fe0c8;

fn confirmation_doc(id: &str, expires: i64) -> Record {
    Record {
        entries: vec![
            ("id".to_string(), FieldValue::Str(id.to_string())),
            ("email".to_string(), FieldValue::Str("a@b.c".to_string())),
            ("expiresAt".to_string(), FieldValue::Int64(expires)),
        ],
    }
}

fn at(secs: i64) -> Timestamp {
    Timestamp { secs, nanos: 0 }
}

#[test]
fn create_account_steps() {
    match create_account(true, ID_TEXT) {
        AccountStep::Respond(Ok(r)) => {
            assert_eq!(r.status, 400);
            assert!(matches!(r.body, Body::Empty));
        }
        _ => panic!("expected a bad request"),
    }
    match create_account(false, "nope") {
        AccountStep::Respond(Err(e)) => assert_eq!(e.describe(), "BadId"),
        _ => panic!("expected a bad id"),
    }
    match create_account(false, "67E55044-10B1-426F-9247-BB680E5FE0C8") {
        AccountStep::FindConfirmation(id) => assert_eq!(id, ID_TEXT),
        _ => panic!("expected a lookup"),
    }
}

#[test]
fn confirmation_checks() {
    let now = at(1_000);
    let c = check_confirmation(&Lookup::Found(confirmation_doc(ID_TEXT, 2_000)), &now).unwrap();
    assert_eq!(c.id, ID);
    assert_eq!(c.email, "a@b.c");
    assert_eq!(c.expires_at.secs, 2_000);
    let e = check_confirmation(&Lookup::Found(confirmation_doc(ID_TEXT, 1_000)), &now).unwrap_err();
    assert_eq!(e.describe(), "GenericError: Bad request");
    let e = check_confirmation(&Lookup::Missing, &now).unwrap_err();
    assert_eq!(e.describe(), "NotFound: Confirmation not found");
    let short = Record { entries: vec![("id".to_string(), FieldValue::Str(ID_TEXT.to_string()))] };
    let e = check_confirmation(&Lookup::Found(short), &now).unwrap_err();
    assert_eq!(e.describe(), "GenericError: Bad request");
}

#[test]
fn confirmation_that_cannot_be_read_stops() {
    let now = at(0);
    assert!(check_confirmation_checked(&Lookup::Found(confirmation_doc("broken", 5)), &now).is_none());
    assert!(check_confirmation_checked(&Lookup::Found(confirmation_doc(ID_TEXT, i64::MAX)), &now).is_none());
    assert!(check_confirmation_checked(&Lookup::Found(confirmation_doc(ID_TEXT, 5)), &now).unwrap().is_ok());
}

#[test]
fn stored_confirmation_reads_back_with_expiry_in_seconds() {
    let issued = at(1_614_834_367);
    let c = Confirmation::issue("a@b.c".to_string(), ID, &issued);
    assert_eq!(c.expires_at.secs, 1_614_834_367 + 86_400);
    let doc = c.to_record();
    assert!(matches!(doc.entries[2].1, FieldValue::Int64(ms) if ms == (1_614_834_367 + 86_400) * 1000));
    let back = check_confirmation(&Lookup::Found(doc), &issued).unwrap();
    assert_eq!(back.id, ID);
    assert_eq!(back.email, "a@b.c");
    assert_eq!(back.expires_at.secs, (1_614_834_367 + 86_400) * 1000);
}

#[test]
fn new_confirmation_expires_a_day_after_now() {
    let before = chrono::Utc::now().timestamp();
    let c = Confirmation::from("x@y.z".to_string()).unwrap();
    let after = chrono::Utc::now().timestamp();
    assert_eq!(c.email, "x@y.z");
    assert!(c.expires_at.secs >= before + 86_400 && c.expires_at.secs <= after + 86_400);
    assert_eq!(c.id >> 76 & 0xf, 4);
}

#[test]
fn confirmation_issued_only_where_its_expiry_fits() {
    let c = Confirmation::issue_checked("a@b.c".to_string(), ID, &at(1_000)).unwrap();
    assert_eq!(c.id, ID);
    assert_eq!(c.email, "a@b.c");
    assert_eq!(c.expires_at.secs, 1_000 + 86_400);
    let last = at(LATEST_SECS - 86_400);
    assert_eq!(
        Confirmation::issue_checked("a@b.c".to_string(), ID, &last).unwrap().expires_at.secs,
        LATEST_SECS
    );
    assert!(Confirmation::issue_checked("a@b.c".to_string(), ID, &at(LATEST_SECS - 86_399)).is_none());
}

#[test]
fn new_account_hashes_the_password() {
    let c = Confirmation::issue("a@b.c".to_string(), ID, &at(10));
    let user = new_account(c, "pw").unwrap();
    assert_eq!(user.email, "a@b.c");
    assert!(verify(&user.hash, "pw").is_ok());
    assert!(user.hash.starts_with("$rpbkdf2$0$AAAAIA==$"));
    assert_eq!(user.id >> 76 & 0xf, 4);
    assert_eq!(user.id >> 62 & 0x3, 2);
    assert_ne!(user.id, ID);
    let s = account_stored(true, user).unwrap();
    assert_eq!(s.email, "a@b.c");
    let user = User::from("q@r".to_string(), "h".to_string());
    let e = account_stored(false, user).unwrap_err();
    assert_eq!(e.describe(), "GenericError: Bad request");
}

#[test]
fn account_created_answers_created() {
    let r = account_created(Ok(SessionUser { id: 9, email: "a@b.c".to_string() }));
    let reply = r.reply.unwrap();
    assert_eq!(reply.status, 201);
    assert_eq!(r.remember.unwrap().id, 9);
    let r = account_created(Err(AuthError::BadId));
    assert_eq!(r.reply.unwrap_err().describe(), "BadId");
    assert!(r.remember.is_none());
}

#[test]
fn registration_steps() {
    let r = send_confirmation(true).unwrap();
    assert_eq!(r.status, 400);
    assert!(send_confirmation(false).is_none());
    let c = Confirmation::issue("a@b.c".to_string(), ID, &at(10));
    assert_eq!(insert_record(true, c).unwrap().email, "a@b.c");
    let c = Confirmation::issue("a@b.c".to_string(), ID, &at(10));
    assert_eq!(insert_record(false, c).unwrap_err().describe(), "GenericError: Cant save confirmation");
    assert_eq!(registration_reply(Ok(())).unwrap().status, 200);
    assert_eq!(registration_reply(mail_outcome(false)).unwrap_err().describe(), "ProcessFailed: Could not send confirmation email");
    assert!(mail_outcome(true).is_ok());
}

#[test]
fn confirmation_mail_texts() {
    let c = Confirmation { id: ID, email: "a@b.c".to_string(), expires_at: at(1_614_834_367) };
    let mail = confirmation_mail(&c, "https://example.org", "Faxtop");
    assert_eq!(mail.to, "a@b.c");
    assert_eq!(mail.from_address, "noreply@auth-service.com");
    assert_eq!(mail.from_name, "Faxtop");
    assert_eq!(mail.subject, "Complete registration");
    assert_eq!(
        mail.html,
        "Please click on the link below to complete registration. <br/>\n       <a href=\"https://example.org/register?id=67e55044-10b1-426f-9247-bb680e5fe0c8&email=a@b.c\">Complete registration</a>"
    );
    assert_eq!(
        mail.text,
        "Please visit the link below to complete registration:\n\n      https://example.org/register.html?id=67e55044-10b1-426f-9247-bb680e5fe0c8&email=a@b.c\n\n      This link expires on 05:06 AM Thursday, 4 March, 2021."
    );
}

#[test]
fn time_range_matches_chrono() {
    assert!(chrono::DateTime::from_timestamp(LATEST_SECS, 0).is_some());
    assert!(chrono::DateTime::from_timestamp(LATEST_SECS + 1, 0).is_none());
    assert!(chrono::DateTime::from_timestamp(EARLIEST_SECS, 0).is_some());
    assert!(chrono::DateTime::from_timestamp(EARLIEST_SECS - 1, 0).is_none());
    assert!(timestamp_in_range(LATEST_SECS) && !timestamp_in_range(LATEST_SECS + 1));
    assert!(timestamp_in_range(EARLIEST_SECS) && !timestamp_in_range(EARLIEST_SECS - 1));
}

#[test]
fn timestamp_arithmetic() {
    let t = Timestamp { secs: 12, nanos: 345_678_901 };
    assert_eq!(t.timestamp_millis(), 12_345);
    let later = t.plus_hours(24).unwrap();
    assert_eq!(later.secs, 12 + 86_400);
    assert_eq!(later.nanos, 345_678_901);
    assert!(later.later_than(&t) && !t.later_than(&later) && !t.later_than(&t));
    assert!(Timestamp { secs: 12, nanos: 1 }.later_than(&Timestamp { secs: 12, nanos: 0 }));
    assert!(Timestamp { secs: LATEST_SECS - 10, nanos: 0 }.plus_hours(1).is_none());
    assert!(at(0).plus_hours(u32::MAX).is_none());
    let far = at(EARLIEST_SECS).plus_hours(u32::MAX).unwrap();
    assert_eq!(far.secs, EARLIEST_SECS + u32::MAX as i64 * 3600);
}

#[test]
fn new_user_gets_a_random_version_four_id_and_the_current_time() {
    let before = chrono::Utc::now().timestamp();
    let a = User::from("a@b.c".to_string(), "h1".to_string());
    let b = User::from("a@b.c".to_string(), "h2".to_string());
    assert_ne!(a.id, b.id);
    assert_eq!(a.id >> 76 & 0xf, 4);
    assert_eq!(a.email, "a@b.c");
    assert_eq!(a.hash, "h1");
    assert!(a.created_at.secs >= before);
    let s: SessionUser = a.into();
    assert_eq!(s.email, "a@b.c");
}

#[test]
fn confirmation_checked_against_the_clock() {
    let future = chrono::Utc::now().timestamp() + 3_600;
    let c = check_confirmation_now(&Lookup::Found(confirmation_doc(ID_TEXT, future))).unwrap().unwrap();
    assert_eq!(c.id, ID);
    let past = chrono::Utc::now().timestamp() - 3_600;
    let e = check_confirmation_now(&Lookup::Found(confirmation_doc(ID_TEXT, past))).unwrap().unwrap_err();
    assert_eq!(e.describe(), "GenericError: Bad request");
    assert!(check_confirmation_now(&Lookup::Found(confirmation_doc("x", past))).is_none());
}
