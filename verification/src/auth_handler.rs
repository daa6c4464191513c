use vstd::prelude::*;

use crate::error::{AuthError, AuthErrorView, Body, BodyView, Reply, ReplyView, error_text, message_reply};
use crate::ids::{hyphenated, parse_uuid, uuid_parse};
use crate::records::{Field, Lookup, Record, lemma_lookup_at, lemma_named_entry, record_view, str_field};
use crate::session::{SessionUser, SessionUserView, User, user_record};
use crate::utils::{pbkdf2_accepts, verify};

verus! {

/// What a sign-in request carries.
#[derive(Debug)]
pub struct AuthData {
    pub email: String,
    pub password: String,
}

/// A session user's result as a mathematical value.
pub open spec fn user_result_view(r: Result<SessionUser, AuthError>) -> Result<SessionUserView, AuthErrorView> {
    match r {
        Ok(u) => Ok(u@),
        Err(e) => Err(e@),
    }
}

/// A reply that carries a user as JSON.
pub open spec fn user_reply(status: u16, user: SessionUserView) -> ReplyView {
    ReplyView { status, body: BodyView::User(user) }
}

/// The reply to "who am I": the session's user, or unauthorized.
pub fn me(current: &Result<SessionUser, AuthError>) -> (r: Reply)
    ensures
        r@ == match current {
            Ok(u) => user_reply(200, u@),
            Err(_) => message_reply(401, "Unauthorized"@),
        },
{
    match current {
        Ok(user) => Reply { status: 200, body: Body::User(user.duplicate()) },
        Err(_) => Reply { status: 401, body: Body::Message("Unauthorized".to_owned()) },
    }
}

/// What a sign-in does first.
#[derive(Debug)]
pub enum SignInStep {
    /// Answer at once.
    Respond(Reply),
    /// Look the user up by this e-mail address, then check the password.
    FindUser(String),
}

/// The first step of signing in: a session that already has a user is answered with that
/// user; otherwise the user is looked up by the address given.
pub fn sign_in(data: &AuthData, current: &Result<SessionUser, AuthError>) -> (step: SignInStep)
    ensures
        match current {
            Ok(u) => step matches SignInStep::Respond(r) && r@ == user_reply(200, u@),
            Err(_) => step matches SignInStep::FindUser(email) && email@ == data.email@,
        },
{
    match current {
        Ok(user) => SignInStep::Respond(Reply { status: 200, body: Body::User(user.duplicate()) }),
        Err(_) => SignInStep::FindUser(data.email.clone()),
    }
}

/// The outcome of a lookup of a user by address, for a password: a document with an id, an
/// address and a hash whose hash accepts the password gives the session user of that id and
/// address; a document without one of these fields is a bad request; a wrong password is a
/// user not found; a failed or empty search is "Confirmation not found".
pub open spec fn user_lookup(lookup: Lookup, password: Seq<char>) -> Result<SessionUserView, AuthErrorView> {
    match lookup {
        Lookup::Found(doc) => {
            let fields = record_view(doc);
            let id = str_field(fields, "id"@);
            let email = str_field(fields, "email"@);
            let hash = str_field(fields, "hash"@);
            if hash is None || id is None || email is None {
                Err(AuthErrorView::GenericError("Bad request"@))
            } else if pbkdf2_accepts(password, hash->0) {
                Ok(SessionUserView { id: uuid_parse(id->0)->0, email: email->0 })
            } else {
                Err(AuthErrorView::NotFound("User not found"@))
            }
        },
        _ => Err(AuthErrorView::NotFound("Confirmation not found"@)),
    }
}

/// Whether a lookup holds a user whose password matches but whose stored id is not a UUID, on
/// which the sign-in cannot go on.
pub open spec fn user_lookup_stuck(lookup: Lookup, password: Seq<char>) -> bool {
    match lookup {
        Lookup::Found(doc) => {
            let fields = record_view(doc);
            let id = str_field(fields, "id"@);
            let email = str_field(fields, "email"@);
            let hash = str_field(fields, "hash"@);
            &&& hash is Some && id is Some && email is Some
            &&& pbkdf2_accepts(password, hash->0)
            &&& uuid_parse(id->0) is None
        },
        _ => false,
    }
}

/// Finds the user of a sign-in in the document that the lookup by address gave.
pub fn find_user(lookup: &Lookup, password: &str) -> (r: Result<SessionUser, AuthError>)
    requires
        !user_lookup_stuck(*lookup, password@),
    ensures
        user_result_view(r) == user_lookup(*lookup, password@),
{
    match lookup {
        Lookup::Found(document) => {
            let id = document.get_str("id");
            let email = document.get_str("email");
            let hash = document.get_str("hash");
            if hash.is_none() || id.is_none() || email.is_none() {
                return Err(AuthError::GenericError("Bad request".to_owned()));
            }
            let id = id.unwrap();
            let email = email.unwrap();
            let hash = hash.unwrap();
            match verify(hash.as_str(), password) {
                Ok(()) => match parse_uuid(id.as_str()) {
                    Ok(v) => Ok(SessionUser { id: v, email }),
                    Err(_) => {
                        assert(false);
                        Err(AuthError::BadId)
                    },
                },
                Err(_) => Err(AuthError::NotFound("User not found".to_owned())),
            }
        },
        _ => Err(AuthError::NotFound("Confirmation not found".to_owned())),
    }
}

/// Finds the user of a sign-in, or nothing where the stored id of a matching user is not a UUID
/// (there the sign-in cannot go on).
pub fn find_user_checked(lookup: &Lookup, password: &str) -> (r: Option<Result<SessionUser, AuthError>>)
    ensures
        r is None <==> user_lookup_stuck(*lookup, password@),
        r matches Some(found) ==> user_result_view(found) == user_lookup(*lookup, password@),
{
    if let Lookup::Found(document) = lookup {
        let id = document.get_str("id");
        let email = document.get_str("email");
        let hash = document.get_str("hash");
        if let (Some(id), Some(_), Some(hash)) = (id, email, hash) {
            if verify(hash.as_str(), password).is_ok() && parse_uuid(id.as_str()).is_err() {
                return None;
            }
        }
    }
    Some(find_user(lookup, password))
}

/// What a sign-in answers after the lookup, and the user the session is to remember.
#[derive(Debug)]
pub struct SignedIn {
    pub reply: Reply,
    pub remember: Option<SessionUser>,
}

/// Ends a sign-in: a found user is remembered and answered; a failure is answered as
/// unauthorized with the error's text.
pub fn handle_sign_in(found: Result<SessionUser, AuthError>) -> (r: SignedIn)
    ensures
        match found {
            Ok(u) => r.reply@ == user_reply(200, u@) && (r.remember matches Some(v) && v@ == u@),
            Err(e) => r.reply@ == message_reply(401, error_text(e@)) && r.remember is None,
        },
{
    match found {
        Ok(user) => {
            let reply = Reply { status: 200, body: Body::User(user.duplicate()) };
            SignedIn { reply, remember: Some(user) }
        },
        Err(err) => SignedIn { reply: Reply { status: 401, body: Body::Message(err.describe()) }, remember: None },
    }
}


/// Signing in reads the found document by the names of its entries, wherever they stand and
/// whatever other entries it holds: where the entries named "id", "email" and "hash" hold text, a
/// password that the hash accepts gives the session user of the UUID under "id" and the address
/// under "email" (and cannot go on where the text under "id" is not a UUID); a password the hash
/// does not accept gives "User not found".
pub proof fn lemma_sign_in_reads_entries_by_name(
    doc: Record,
    password: Seq<char>,
    pi: int,
    pe: int,
    ph: int,
    id_text: Seq<char>,
    email: Seq<char>,
    hash: Seq<char>,
)
    requires
        doc.well_formed(),
        0 <= pi < doc.entries@.len(),
        0 <= pe < doc.entries@.len(),
        0 <= ph < doc.entries@.len(),
        record_view(doc)[pi] == ("id"@, Field::Str(id_text)),
        record_view(doc)[pe] == ("email"@, Field::Str(email)),
        record_view(doc)[ph] == ("hash"@, Field::Str(hash)),
    ensures
        pbkdf2_accepts(password, hash) && uuid_parse(id_text) is Some ==> user_lookup(Lookup::Found(doc), password)
            == Ok::<SessionUserView, AuthErrorView>(SessionUserView { id: uuid_parse(id_text)->0, email }),
        user_lookup_stuck(Lookup::Found(doc), password) <==> pbkdf2_accepts(password, hash) && uuid_parse(id_text) is None,
        !pbkdf2_accepts(password, hash) ==> user_lookup(Lookup::Found(doc), password) == Err::<SessionUserView, AuthErrorView>(
            AuthErrorView::NotFound("User not found"@),
        ),
{
    lemma_named_entry(doc, "id"@, pi);
    lemma_named_entry(doc, "email"@, pe);
    lemma_named_entry(doc, "hash"@, ph);
}

/// A user stored with a hash of its password signs in with that password: the lookup that
/// finds its stored document gives its session user, provided its id text reads back as its id
/// (which `uuid_text`, that writes the stored id, promises).
pub proof fn lemma_stored_user_signs_in(user: User, password: Seq<char>, doc: Record)
    requires
        record_view(doc) == user_record(user),
        pbkdf2_accepts(password, user.hash@),
        uuid_parse(hyphenated(user.id)) == Some(user.id),
    ensures
        user_lookup(Lookup::Found(doc), password) == Ok::<SessionUserView, AuthErrorView>(SessionUserView { id: user.id, email: user.email@ }),
{
    let fields = record_view(doc);
    reveal_strlit("id");
    reveal_strlit("email");
    reveal_strlit("hash");
    assert("id"@.len() == 2 && "email"@.len() == 5 && "hash"@.len() == 4);
    assert("id"@ != "email"@ && "id"@ != "hash"@ && "email"@ != "hash"@);
    lemma_lookup_at(fields, "id"@, 0);
    lemma_lookup_at(fields, "email"@, 1);
    lemma_lookup_at(fields, "hash"@, 2);
}

} // verus!
