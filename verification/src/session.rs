use vstd::prelude::*;
use vstd::arithmetic::power::pow;

use crate::ids::{new_uuid, uuid_parse, uuid_text, hyphenated};
use crate::records::{Field, FieldValue, Record, record_view};
use crate::timestamps::{now_utc, secs_in_range, utc_display, utc_text, Timestamp, LATEST_SECS};

verus! {

/// A registered user: id, e-mail address, password hash and the time the account was made.
#[derive(Debug, Clone)]
pub struct User {
    pub id: u128,
    pub email: String,
    pub hash: String,
    pub created_at: Timestamp,
}

/// The part of a user that a session remembers.
#[derive(Debug)]
pub struct SessionUser {
    pub id: u128,
    pub email: String,
}

/// A pending registration: the id sent in the confirmation link, the address and when it expires.
#[derive(Debug, Clone)]
pub struct Confirmation {
    pub id: u128,
    pub email: String,
    pub expires_at: Timestamp,
}

/// A session user as a mathematical value.
pub struct SessionUserView {
    pub id: u128,
    pub email: Seq<char>,
}

impl View for SessionUser {
    type V = SessionUserView;

    open spec fn view(&self) -> SessionUserView {
        SessionUserView { id: self.id, email: self.email@ }
    }
}

/// The session part of a user: its id and address.
impl From<User> for SessionUser {
    fn from(user: User) -> (s: SessionUser) {
        SessionUser { id: user.id, email: user.email }
    }
}

impl vstd::std_specs::convert::FromSpecImpl<User> for SessionUser {
    open spec fn obeys_from_spec() -> bool {
        true
    }

    open spec fn from_spec(user: User) -> SessionUser {
        SessionUser { id: user.id, email: user.email }
    }
}

impl SessionUser {
    /// A copy of the session user.
    pub fn duplicate(&self) -> (s: SessionUser)
        ensures
            s@ == self@,
    {
        SessionUser { id: self.id, email: self.email.clone() }
    }
}

/// The stored form of a user.
pub open spec fn user_record(user: User) -> Seq<(Seq<char>, Field)> {
    seq![
        ("id"@, Field::Str(hyphenated(user.id))),
        ("email"@, Field::Str(user.email@)),
        ("hash"@, Field::Str(user.hash@)),
        ("createdAt"@, Field::Str(utc_display(user.created_at.secs, user.created_at.nanos))),
    ]
}

/// The stored form of a confirmation; its expiry is stored in milliseconds.
pub open spec fn confirmation_record(c: Confirmation) -> Seq<(Seq<char>, Field)> {
    seq![
        ("id"@, Field::Str(hyphenated(c.id))),
        ("email"@, Field::Str(c.email@)),
        ("expiresAt"@, Field::Int64(c.expires_at.millis() as i64)),
    ]
}

impl User {
    /// A new user with a fresh random id (a version 4 UUID), made now.
    pub fn from(email: String, pwd: String) -> (user: User)
        ensures
            (user.id as int / pow(2, 76)) % 16 == 4,
            (user.id as int / pow(2, 62)) % 4 == 2,
            user.email@ == email@,
            user.hash@ == pwd@,
            user.created_at.in_range(),
            user.created_at.secs >= 0,
    {
        let id = new_uuid();
        let now = now_utc();
        User::made_at(email, pwd, id, now)
    }

    /// The user with the given id, address and hash, made at `now`: its creation time is `now`
    /// itself, seconds and nanoseconds.
    pub fn made_at(email: String, pwd: String, id: u128, now: Timestamp) -> (user: User)
        ensures
            user.id == id,
            user.email@ == email@,
            user.hash@ == pwd@,
            user.created_at == now,
    {
        User { id, email, hash: pwd, created_at: now }
    }

    /// The stored form of a user: its id as text, address, hash and creation time as chrono
    /// displays it.
    pub fn to_record(&self) -> (r: Record)
        requires
            self.created_at.in_range(),
        ensures
            record_view(r) == user_record(*self),
            r.well_formed(),
            uuid_parse(hyphenated(self.id)) == Some(self.id),
    {
        let mut entries: Vec<(String, FieldValue)> = Vec::new();
        entries.push(("id".to_owned(), FieldValue::Str(uuid_text(self.id))));
        entries.push(("email".to_owned(), FieldValue::Str(self.email.clone())));
        entries.push(("hash".to_owned(), FieldValue::Str(self.hash.clone())));
        entries.push(("createdAt".to_owned(), FieldValue::Str(utc_text(&self.created_at))));
        let r = Record { entries };
        proof {
            assert(record_view(r) =~= seq![
                ("id"@, Field::Str(hyphenated(self.id))),
                ("email"@, Field::Str(self.email@)),
                ("hash"@, Field::Str(self.hash@)),
                ("createdAt"@, Field::Str(utc_display(self.created_at.secs, self.created_at.nanos))),
            ]);
            reveal_strlit("id");
            reveal_strlit("email");
            reveal_strlit("hash");
            reveal_strlit("createdAt");
            assert("id"@[0] == 'i' && "email"@[0] == 'e' && "hash"@[0] == 'h' && "createdAt"@[0] == 'c');
        }
        r
    }
}


/// A pending registration as a mathematical value.
pub struct ConfirmationView {
    pub id: u128,
    pub email: Seq<char>,
    pub expires_at: Timestamp,
}

impl View for Confirmation {
    type V = ConfirmationView;

    open spec fn view(&self) -> ConfirmationView {
        ConfirmationView { id: self.id, email: self.email@, expires_at: self.expires_at }
    }
}

/// How long a confirmation link stays valid, in hours.
pub const CONFIRMATION_HOURS: u32 = 24u32;

impl Confirmation {
    /// A confirmation with the given id, issued at `now`: it expires 24 hours later.
    pub fn issue(email: String, id: u128, now: &Timestamp) -> (c: Confirmation)
        requires
            now.in_range(),
            secs_in_range(now.secs + CONFIRMATION_HOURS * 3600),
        ensures
            c@ == (ConfirmationView {
                id,
                email: email@,
                expires_at: Timestamp { secs: (now.secs + CONFIRMATION_HOURS * 3600) as i64, nanos: now.nanos },
            }),
            c.expires_at.in_range(),
    {
        let expires_at = now.plus_hours(CONFIRMATION_HOURS).unwrap();
        Confirmation { id, email, expires_at }
    }

    /// A confirmation with the given id, issued at `now`, where its expiry 24 hours later can be
    /// held by chrono; none where it cannot (chrono's addition fails there).
    pub fn issue_checked(email: String, id: u128, now: &Timestamp) -> (c: Option<Confirmation>)
        requires
            now.in_range(),
        ensures
            c is Some <==> secs_in_range(now.secs + CONFIRMATION_HOURS * 3600),
            c matches Some(c) ==> c@ == (ConfirmationView {
                id,
                email: email@,
                expires_at: Timestamp { secs: (now.secs + CONFIRMATION_HOURS * 3600) as i64, nanos: now.nanos },
            }) && c.expires_at.in_range(),
    {
        if now.secs <= LATEST_SECS - 86400 {
            Some(Confirmation::issue(email, id, now))
        } else {
            None
        }
    }

    /// A confirmation with a fresh random id, issued now (`From<String>`). There is none where the
    /// time 24 hours from now lies beyond what chrono can hold (chrono's addition fails there);
    /// `issue_checked` states the outcome for each time.
    pub fn from(email: String) -> (c: Option<Confirmation>)
        ensures
            exists|now: Timestamp|
                #![trigger now.in_range()]
                now.in_range() && now.secs >= 0 && (c is Some <==> secs_in_range(now.secs + CONFIRMATION_HOURS * 3600))
                    && (c matches Some(c) ==> c.email@ == email@ && c.expires_at == (Timestamp {
                    secs: (now.secs + CONFIRMATION_HOURS * 3600) as i64,
                    nanos: now.nanos,
                })),
            c matches Some(c) ==> c.expires_at.in_range()
                && (c.id as int / pow(2, 76)) % 16 == 4
                && (c.id as int / pow(2, 62)) % 4 == 2,
    {
        let now = now_utc();
        let c = Confirmation::issue_checked(email, new_uuid(), &now);
        assert(now.in_range() && now.secs >= 0);
        c
    }

    /// The stored form of a confirmation: its id as text, its address and its expiry in
    /// milliseconds since 1970.
    pub fn to_record(&self) -> (r: Record)
        requires
            self.expires_at.in_range(),
        ensures
            record_view(r) == confirmation_record(*self),
            r.well_formed(),
            uuid_parse(hyphenated(self.id)) == Some(self.id),
    {
        let mut entries: Vec<(String, FieldValue)> = Vec::new();
        entries.push(("id".to_owned(), FieldValue::Str(uuid_text(self.id))));
        entries.push(("email".to_owned(), FieldValue::Str(self.email.clone())));
        entries.push(("expiresAt".to_owned(), FieldValue::Int64(self.expires_at.timestamp_millis())));
        let r = Record { entries };
        proof {
            assert(record_view(r) =~= seq![
                ("id"@, Field::Str(hyphenated(self.id))),
                ("email"@, Field::Str(self.email@)),
                ("expiresAt"@, Field::Int64(self.expires_at.millis() as i64)),
            ]);
            reveal_strlit("id");
            reveal_strlit("email");
            reveal_strlit("expiresAt");
            assert("id"@[0] == 'i' && "email"@[1] == 'm' && "expiresAt"@[1] == 'x');
        }
        r
    }
}

} // verus!
