use vstd::prelude::*;
use vstd::arithmetic::power::pow;

use crate::auth_handler::{user_reply, user_result_view};
use crate::error::{AuthError, AuthErrorView, Body, BodyView, Reply, ReplyView};
use crate::ids::{hyphenated, parse_uuid, uuid_parse, uuid_text};
use crate::records::{Field, Lookup, Record, i64_field, lemma_lookup_at, lemma_named_entry, record_view, str_field};
use crate::session::{Confirmation, ConfirmationView, SessionUser, SessionUserView, User, confirmation_record};
use crate::timestamps::{now_utc, secs_in_range, timestamp_in_range, Timestamp};
use crate::utils::{hash_password, pbkdf2_accepts, rpbkdf2_prefix, HASH_ROUNDS};

verus! {

/// What an account creation request carries.
#[derive(Debug)]
pub struct PasswordData {
    pub password: String,
}

/// What creating an account does first.
#[derive(Debug)]
pub enum AccountStep {
    /// Answer at once: a reply, or an error that stands for its reply.
    Respond(Result<Reply, AuthError>),
    /// Look up the confirmation with this id.
    FindConfirmation(String),
}

/// The first step of creating an account from a confirmation link: a signed-in session gets a
/// bad request with no body; an id that is not a UUID is a bad id; otherwise the confirmation
/// is looked up by the id's hyphenated text.
pub fn create_account(signed_in: bool, path_id: &str) -> (step: AccountStep)
    ensures
        signed_in ==> (step matches AccountStep::Respond(Ok(r)) && r@ == (ReplyView {
            status: 400,
            body: BodyView::Empty,
        })),
        !signed_in && uuid_parse(path_id@) is None ==> (step matches AccountStep::Respond(Err(e))
            && e@ == AuthErrorView::BadId),
        !signed_in && uuid_parse(path_id@) is Some ==> (step matches AccountStep::FindConfirmation(id)
            && id@ == hyphenated(uuid_parse(path_id@)->0)),
{
    if signed_in {
        return AccountStep::Respond(Ok(Reply { status: 400, body: Body::Empty }));
    }
    match parse_uuid(path_id) {
        Ok(v) => AccountStep::FindConfirmation(uuid_text(v)),
        Err(e) => AccountStep::Respond(Err(AuthError::from(e))),
    }
}

/// The outcome of a confirmation lookup at time `now`: a document with an id, an address and an
/// integer "expiresAt" gives the confirmation of that id and address, expiring that many
/// seconds after 1970, where that is after `now`; a document that lacks one of them, or whose
/// confirmation has expired, is a bad request; a failed or empty search is "Confirmation not
/// found".
pub open spec fn confirmation_lookup(lookup: Lookup, now: Timestamp) -> Result<ConfirmationView, AuthErrorView> {
    match lookup {
        Lookup::Found(doc) => {
            let fields = record_view(doc);
            let id = str_field(fields, "id"@);
            let email = str_field(fields, "email"@);
            let expires = i64_field(fields, "expiresAt"@);
            if id is None || email is None || expires is None {
                Err(AuthErrorView::GenericError("Bad request"@))
            } else {
                let c = ConfirmationView {
                    id: uuid_parse(id->0)->0,
                    email: email->0,
                    expires_at: Timestamp { secs: expires->0, nanos: 0 },
                };
                if c.expires_at.is_after(now) {
                    Ok(c)
                } else {
                    Err(AuthErrorView::GenericError("Bad request"@))
                }
            }
        },
        _ => Err(AuthErrorView::NotFound("Confirmation not found"@)),
    }
}

/// Whether a lookup holds a confirmation whose expiry lies beyond what chrono can hold or whose
/// id is not a UUID, on which the account creation cannot go on.
pub open spec fn confirmation_lookup_stuck(lookup: Lookup) -> bool {
    match lookup {
        Lookup::Found(doc) => {
            let fields = record_view(doc);
            let id = str_field(fields, "id"@);
            let email = str_field(fields, "email"@);
            let expires = i64_field(fields, "expiresAt"@);
            &&& id is Some && email is Some && expires is Some
            &&& !secs_in_range(expires->0 as int) || uuid_parse(id->0) is None
        },
        _ => false,
    }
}

/// The confirmation as a mathematical value, or the error.
pub open spec fn confirmation_result_view(r: Result<Confirmation, AuthError>) -> Result<ConfirmationView, AuthErrorView> {
    match r {
        Ok(c) => Ok(c@),
        Err(e) => Err(e@),
    }
}

/// Checks the confirmation that the lookup by id gave, at time `now`.
pub fn check_confirmation(lookup: &Lookup, now: &Timestamp) -> (r: Result<Confirmation, AuthError>)
    requires
        !confirmation_lookup_stuck(*lookup),
    ensures
        confirmation_result_view(r) == confirmation_lookup(*lookup, *now),
        r matches Ok(c) ==> c.expires_at.in_range(),
{
    match lookup {
        Lookup::Found(document) => {
            let id = document.get_str("id");
            let email = document.get_str("email");
            let expires = document.get_i64("expiresAt");
            if id.is_none() || email.is_none() || expires.is_none() {
                return Err(AuthError::GenericError("Bad request".to_owned()));
            }
            let expires_at = Timestamp { secs: expires.unwrap(), nanos: 0 };
            let id = match parse_uuid(id.unwrap().as_str()) {
                Ok(v) => v,
                Err(_) => {
                    assert(false);
                    0
                },
            };
            let confirmation = Confirmation { id, email: email.unwrap(), expires_at };
            if confirmation.expires_at.later_than(now) {
                Ok(confirmation)
            } else {
                Err(AuthError::GenericError("Bad request".to_owned()))
            }
        },
        _ => Err(AuthError::NotFound("Confirmation not found".to_owned())),
    }
}

/// Checks the confirmation that the lookup gave, or nothing where its expiry lies beyond what
/// chrono can hold or its id is not a UUID (there the account creation cannot go on).
pub fn check_confirmation_checked(lookup: &Lookup, now: &Timestamp) -> (r: Option<Result<Confirmation, AuthError>>)
    ensures
        r is None <==> confirmation_lookup_stuck(*lookup),
        r matches Some(found) ==> confirmation_result_view(found) == confirmation_lookup(*lookup, *now),
{
    if let Lookup::Found(document) = lookup {
        let id = document.get_str("id");
        let email = document.get_str("email");
        let expires = document.get_i64("expiresAt");
        if let (Some(id), Some(_), Some(expires)) = (id, email, expires) {
            if !timestamp_in_range(expires) || parse_uuid(id.as_str()).is_err() {
                return None;
            }
        }
    }
    Some(check_confirmation(lookup, now))
}

/// Checks the confirmation that the lookup gave against the current time, or nothing where its
/// expiry lies beyond what chrono can hold or its id is not a UUID. Which time it is checked
/// against is the clock's; it is one that chrono can hold.
pub fn check_confirmation_now(lookup: &Lookup) -> (r: Option<Result<Confirmation, AuthError>>)
    ensures
        r is None <==> confirmation_lookup_stuck(*lookup),
        r matches Some(found) ==> exists|now: Timestamp|
            now.in_range() && confirmation_result_view(found) == #[trigger] confirmation_lookup(*lookup, now),
{
    let now = now_utc();
    let r = check_confirmation_checked(lookup, &now);
    assert(r matches Some(found) ==> now.in_range() && confirmation_result_view(found) == confirmation_lookup(*lookup, now));
    r
}

/// Makes the user of a valid confirmation: a fresh id, the confirmation's address and the hash
/// of the password; a failed hash is an authentication error.
pub fn new_account(confirmation: Confirmation, password: &str) -> (r: Result<User, AuthError>)
    ensures
        match r {
            Ok(u) => u.email@ == confirmation.email@ && pbkdf2_accepts(password@, u.hash@)
                && rpbkdf2_prefix(HASH_ROUNDS).is_prefix_of(u.hash@)
                && (u.id as int / pow(2, 76)) % 16 == 4
                && (u.id as int / pow(2, 62)) % 4 == 2
                && u.created_at.in_range() && u.created_at.secs >= 0,
            Err(e) => e@ == AuthErrorView::AuthenticationError("Could not hash password"@),
        },
{
    let hash = match hash_password(password) {
        Ok(h) => h,
        Err(e) => return Err(e),
    };
    Ok(User::from(confirmation.email, hash))
}

/// The outcome of storing a new user: its session part, or a bad request where it was not
/// stored.
pub fn account_stored(inserted: bool, user: User) -> (r: Result<SessionUser, AuthError>)
    ensures
        user_result_view(r) == if inserted {
            Ok(SessionUserView { id: user.id, email: user.email@ })
        } else {
            Err(AuthErrorView::GenericError("Bad request"@))
        },
{
    if inserted {
        Ok(SessionUser::from(user))
    } else {
        Err(AuthError::GenericError("Bad request".to_owned()))
    }
}

/// What an account creation answers, and the user the session is to remember.
#[derive(Debug)]
pub struct AccountCreated {
    pub reply: Result<Reply, AuthError>,
    pub remember: Option<SessionUser>,
}

/// Ends an account creation: a new user is remembered and answered as created; an error is
/// passed on.
pub fn account_created(created: Result<SessionUser, AuthError>) -> (r: AccountCreated)
    ensures
        match created {
            Ok(u) => (r.reply matches Ok(reply) && reply@ == user_reply(201, u@)) && (r.remember matches Some(v)
                && v@ == u@),
            Err(e) => (r.reply matches Err(f) && f@ == e@) && r.remember is None,
        },
{
    match created {
        Ok(user) => {
            let reply = Reply { status: 201, body: Body::User(user.duplicate()) };
            AccountCreated { reply: Ok(reply), remember: Some(user) }
        },
        Err(err) => AccountCreated { reply: Err(err), remember: None },
    }
}


/// Checking a confirmation reads the found document by the names of its entries, wherever they
/// stand and whatever other entries it holds: where "id" and "email" hold text and "expiresAt"
/// an integer, the creation cannot go on exactly where that integer is no time chrono can hold
/// or the text under "id" is no UUID; otherwise the confirmation has the UUID under "id", the
/// address under "email" and expires that many seconds after 1970, and it is found exactly
/// where that is later than `now`, else the request is bad.
pub proof fn lemma_confirmation_reads_entries_by_name(
    doc: Record,
    now: Timestamp,
    pi: int,
    pe: int,
    px: int,
    id_text: Seq<char>,
    email: Seq<char>,
    expires: i64,
)
    requires
        doc.well_formed(),
        0 <= pi < doc.entries@.len(),
        0 <= pe < doc.entries@.len(),
        0 <= px < doc.entries@.len(),
        record_view(doc)[pi] == ("id"@, Field::Str(id_text)),
        record_view(doc)[pe] == ("email"@, Field::Str(email)),
        record_view(doc)[px] == ("expiresAt"@, Field::Int64(expires)),
    ensures
        confirmation_lookup_stuck(Lookup::Found(doc)) <==> !secs_in_range(expires as int) || uuid_parse(id_text) is None,
        uuid_parse(id_text) is Some ==> confirmation_lookup(Lookup::Found(doc), now) == if expires > now.secs {
            Ok::<ConfirmationView, AuthErrorView>(ConfirmationView {
                id: uuid_parse(id_text)->0,
                email,
                expires_at: Timestamp { secs: expires, nanos: 0 },
            })
        } else {
            Err(AuthErrorView::GenericError("Bad request"@))
        },
{
    lemma_named_entry(doc, "id"@, pi);
    lemma_named_entry(doc, "email"@, pe);
    lemma_named_entry(doc, "expiresAt"@, px);
}

/// A confirmation read back from its stored form keeps its id and address, but its expiry,
/// stored in milliseconds, is read back as that many seconds: the creation can go on exactly
/// where that number of seconds is a time chrono can hold, and the confirmation found is valid
/// while that time is after `now`.
pub proof fn lemma_stored_confirmation_reads_back(c: Confirmation, doc: Record, now: Timestamp)
    requires
        record_view(doc) == confirmation_record(c),
        uuid_parse(hyphenated(c.id)) == Some(c.id),
    ensures
        confirmation_lookup_stuck(Lookup::Found(doc)) <==> !secs_in_range(c.expires_at.millis() as i64 as int),
        ({
            let read = Timestamp { secs: c.expires_at.millis() as i64, nanos: 0 };
            confirmation_lookup(Lookup::Found(doc), now) == if read.is_after(now) {
                Ok::<ConfirmationView, AuthErrorView>(ConfirmationView { id: c.id, email: c.email@, expires_at: read })
            } else {
                Err(AuthErrorView::GenericError("Bad request"@))
            }
        }),
{
    let fields = record_view(doc);
    reveal_strlit("id");
    reveal_strlit("email");
    reveal_strlit("expiresAt");
    assert("id"@.len() == 2 && "email"@.len() == 5 && "expiresAt"@.len() == 9);
    assert("id"@ != "email"@ && "id"@ != "expiresAt"@ && "email"@ != "expiresAt"@);
    lemma_lookup_at(fields, "id"@, 0);
    lemma_lookup_at(fields, "email"@, 1);
    lemma_lookup_at(fields, "expiresAt"@, 2);
}

} // verus!
