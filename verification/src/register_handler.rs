use vstd::prelude::*;

use crate::error::{AuthError, AuthErrorView, Body, BodyView, Reply, ReplyView};
use crate::session::Confirmation;

verus! {

/// What a registration request carries.
#[derive(Debug)]
pub struct RegisterData {
    pub email: String,
}

/// The first step of a registration: a signed-in session gets a bad request with no body;
/// otherwise there is nothing to answer yet and a confirmation is to be made.
pub fn send_confirmation(signed_in: bool) -> (r: Option<Reply>)
    ensures
        signed_in ==> (r matches Some(reply) && reply@ == (ReplyView { status: 400, body: BodyView::Empty })),
        !signed_in ==> r is None,
{
    if signed_in {
        Some(Reply { status: 400, body: Body::Empty })
    } else {
        None
    }
}

/// The outcome of storing a confirmation: the confirmation, or the error that it could not be
/// saved.
pub fn insert_record(inserted: bool, confirmation: Confirmation) -> (r: Result<Confirmation, AuthError>)
    ensures
        inserted ==> (r matches Ok(c) && c@ == confirmation@),
        !inserted ==> (r matches Err(e) && e@ == AuthErrorView::GenericError("Cant save confirmation"@)),
{
    if inserted {
        Ok(confirmation)
    } else {
        Err(AuthError::GenericError("Cant save confirmation".to_owned()))
    }
}

/// Ends a registration: success is answered with an empty ok reply; an error is passed on.
pub fn registration_reply(done: Result<(), AuthError>) -> (r: Result<Reply, AuthError>)
    ensures
        match done {
            Ok(()) => r matches Ok(reply) && reply@ == (ReplyView { status: 200, body: BodyView::Empty }),
            Err(e) => r matches Err(f) && f@ == e@,
        },
{
    match done {
        Ok(()) => Ok(Reply { status: 200, body: Body::Empty }),
        Err(e) => Err(e),
    }
}

} // verus!
