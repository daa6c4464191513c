use vstd::prelude::*;

use crate::session::{SessionUser, SessionUserView};

verus! {

/// What can go wrong while authenticating or registering.
#[derive(Debug, Clone)]
pub enum AuthError {
    BadId,
    GenericError(String),
    ProcessError(String),
    AuthenticationError(String),
    NotFound(String),
}

/// An error as a mathematical value.
pub enum AuthErrorView {
    BadId,
    GenericError(Seq<char>),
    ProcessError(Seq<char>),
    AuthenticationError(Seq<char>),
    NotFound(Seq<char>),
}

impl View for AuthError {
    type V = AuthErrorView;

    open spec fn view(&self) -> AuthErrorView {
        match self {
            AuthError::BadId => AuthErrorView::BadId,
            AuthError::GenericError(m) => AuthErrorView::GenericError(m@),
            AuthError::ProcessError(m) => AuthErrorView::ProcessError(m@),
            AuthError::AuthenticationError(m) => AuthErrorView::AuthenticationError(m@),
            AuthError::NotFound(m) => AuthErrorView::NotFound(m@),
        }
    }
}

/// The body of a reply.
#[derive(Debug)]
pub enum Body {
    /// No body.
    Empty,
    /// A session user as JSON.
    User(SessionUser),
    /// A text as a JSON string.
    Message(String),
}

/// A body as a mathematical value.
pub enum BodyView {
    Empty,
    User(SessionUserView),
    Message(Seq<char>),
}

/// An HTTP reply: status code and body.
#[derive(Debug)]
pub struct Reply {
    pub status: u16,
    pub body: Body,
}

/// A reply as a mathematical value.
pub struct ReplyView {
    pub status: u16,
    pub body: BodyView,
}

impl View for Reply {
    type V = ReplyView;

    open spec fn view(&self) -> ReplyView {
        ReplyView {
            status: self.status,
            body: match self.body {
                Body::Empty => BodyView::Empty,
                Body::User(u) => BodyView::User(u@),
                Body::Message(m) => BodyView::Message(m@),
            },
        }
    }
}

/// A reply with a status and a JSON string.
pub open spec fn message_reply(status: u16, text: Seq<char>) -> ReplyView {
    ReplyView { status, body: BodyView::Message(text) }
}

/// The text that an error displays: its kind and, where it has one, its message.
pub open spec fn error_text(e: AuthErrorView) -> Seq<char> {
    match e {
        AuthErrorView::BadId => "BadId"@,
        AuthErrorView::GenericError(m) => "GenericError: "@ + m,
        AuthErrorView::ProcessError(m) => "ProcessFailed: "@ + m,
        AuthErrorView::AuthenticationError(m) => "AuthenticationError: "@ + m,
        AuthErrorView::NotFound(m) => "NotFound: "@ + m,
    }
}

/// The reply that stands for an error: bad request for a bad id or a generic error, internal
/// server error for a failed process, unauthorized for a failed authentication and not found
/// for what is missing, each with its message as a JSON string ("Invalid ID" for a bad id).
pub open spec fn error_reply(e: AuthErrorView) -> ReplyView {
    match e {
        AuthErrorView::BadId => message_reply(400, "Invalid ID"@),
        AuthErrorView::GenericError(m) => message_reply(400, m),
        AuthErrorView::ProcessError(m) => message_reply(500, m),
        AuthErrorView::AuthenticationError(m) => message_reply(401, m),
        AuthErrorView::NotFound(m) => message_reply(404, m),
    }
}

impl AuthError {
    /// The reply that stands for the error.
    pub fn error_response(&self) -> (r: Reply)
        ensures
            r@ == error_reply(self@),
    {
        match self {
            AuthError::BadId => Reply { status: 400, body: Body::Message("Invalid ID".to_owned()) },
            AuthError::GenericError(m) => Reply { status: 400, body: Body::Message(m.clone()) },
            AuthError::ProcessError(m) => Reply { status: 500, body: Body::Message(m.clone()) },
            AuthError::AuthenticationError(m) => Reply { status: 401, body: Body::Message(m.clone()) },
            AuthError::NotFound(m) => Reply { status: 404, body: Body::Message(m.clone()) },
        }
    }

    /// The text the error displays, such as "NotFound: User not found".
    pub fn describe(&self) -> (text: String)
        ensures
            text@ == error_text(self@),
    {
        match self {
            AuthError::BadId => "BadId".to_owned(),
            AuthError::GenericError(m) => {
                let mut t = "GenericError: ".to_owned();
                t.append(m.as_str());
                t
            },
            AuthError::ProcessError(m) => {
                let mut t = "ProcessFailed: ".to_owned();
                t.append(m.as_str());
                t
            },
            AuthError::AuthenticationError(m) => {
                let mut t = "AuthenticationError: ".to_owned();
                t.append(m.as_str());
                t
            },
            AuthError::NotFound(m) => {
                let mut t = "NotFound: ".to_owned();
                t.append(m.as_str());
                t
            },
        }
    }

    /// A copy of the error.
    pub fn duplicate(&self) -> (e: AuthError)
        ensures
            e@ == self@,
    {
        match self {
            AuthError::BadId => AuthError::BadId,
            AuthError::GenericError(m) => AuthError::GenericError(m.clone()),
            AuthError::ProcessError(m) => AuthError::ProcessError(m.clone()),
            AuthError::AuthenticationError(m) => AuthError::AuthenticationError(m.clone()),
            AuthError::NotFound(m) => AuthError::NotFound(m.clone()),
        }
    }

    /// The error that stands for any failure of the database.
    pub fn database_error() -> (e: AuthError)
        ensures
            e@ == AuthErrorView::GenericError("Some database error occured"@),
    {
        AuthError::GenericError("Some database error occured".to_owned())
    }
}

/// A malformed id is a bad id.
impl From<uuid::Error> for AuthError {
    fn from(_e: uuid::Error) -> (r: AuthError) {
        AuthError::BadId
    }
}

impl vstd::std_specs::convert::FromSpecImpl<uuid::Error> for AuthError {
    open spec fn obeys_from_spec() -> bool {
        true
    }

    open spec fn from_spec(v: uuid::Error) -> AuthError {
        AuthError::BadId
    }
}

} // verus!
