use vstd::prelude::*;

use crate::error::{AuthError, AuthErrorView};
use crate::ids::{hyphenated, uuid_text};
use crate::session::Confirmation;
use crate::timestamps::{chrono_format, expiry_pattern, format_time};

verus! {

/// The address confirmation mails are sent from.
pub open spec fn sender_address() -> Seq<char> {
    "noreply@auth-service.com"@
}

/// The HTML text of a confirmation mail: a link to the registration page with the
/// confirmation's id and address.
pub open spec fn confirmation_html(domain: Seq<char>, id: Seq<char>, email: Seq<char>) -> Seq<char> {
    "Please click on the link below to complete registration. <br/>\n       <a href=\""@ + domain
        + "/register?id="@ + id + "&email="@ + email + "\">Complete registration</a>"@
}

/// The plain text of a confirmation mail: the link and when it expires.
pub open spec fn confirmation_text(domain: Seq<char>, id: Seq<char>, email: Seq<char>, expires: Seq<char>) -> Seq<char> {
    "Please visit the link below to complete registration:\n\n      "@ + domain + "/register.html?id="@
        + id + "&email="@ + email + "\n\n      This link expires on "@ + expires + "."@
}

/// A confirmation mail ready to send.
#[derive(Debug)]
pub struct ConfirmationMail {
    pub to: String,
    pub from_address: String,
    pub from_name: String,
    pub subject: String,
    pub text: String,
    pub html: String,
}

/// The confirmation mail for a registration, with links below `domain_url`, sent in the name
/// of `sender_name`.
pub fn confirmation_mail(confirmation: &Confirmation, domain_url: &str, sender_name: &str) -> (mail: ConfirmationMail)
    requires
        confirmation.expires_at.in_range(),
    ensures
        mail.to@ == confirmation.email@,
        mail.from_address@ == sender_address(),
        mail.from_name@ == sender_name@,
        mail.subject@ == "Complete registration"@,
        mail.html@ == confirmation_html(domain_url@, hyphenated(confirmation.id), confirmation.email@),
        mail.text@ == confirmation_text(
            domain_url@,
            hyphenated(confirmation.id),
            confirmation.email@,
            chrono_format(confirmation.expires_at.secs, confirmation.expires_at.nanos, expiry_pattern()),
        ),
{
    let expires = format_time(&confirmation.expires_at, "%I:%M %p %A, %-d %B, %C%y");
    let id = uuid_text(confirmation.id);
    let mut html = "Please click on the link below to complete registration. <br/>\n       <a href=\"".to_owned();
    html.append(domain_url);
    html.append("/register?id=");
    html.append(id.as_str());
    html.append("&email=");
    html.append(confirmation.email.as_str());
    html.append("\">Complete registration</a>");
    let mut text = "Please visit the link below to complete registration:\n\n      ".to_owned();
    text.append(domain_url);
    text.append("/register.html?id=");
    text.append(id.as_str());
    text.append("&email=");
    text.append(confirmation.email.as_str());
    text.append("\n\n      This link expires on ");
    text.append(expires.as_str());
    text.append(".");
    ConfirmationMail {
        to: confirmation.email.clone(),
        from_address: "noreply@auth-service.com".to_owned(),
        from_name: sender_name.to_owned(),
        subject: "Complete registration".to_owned(),
        text,
        html,
    }
}

/// The outcome of sending a confirmation mail.
pub fn mail_outcome(sent: bool) -> (r: Result<(), AuthError>)
    ensures
        r is Ok <==> sent,
        r matches Err(e) ==> e@ == AuthErrorView::ProcessError("Could not send confirmation email"@),
{
    if sent {
        Ok(())
    } else {
        Err(AuthError::ProcessError("Could not send confirmation email".to_owned()))
    }
}

} // verus!
