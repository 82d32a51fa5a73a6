//! Composing an e-mail: the message text and the envelope it is sent with.

use lettre::SendableEmail;
use lettre_email::error::Error as LettreEmailError;
use lettre_email::EmailBuilder;
use vstd::prelude::*;

verus! {

/// The error of building a message with `lettre_email`.
#[verifier::external_type_specification]
#[verifier::external_body]
pub struct ExLettreEmailError(LettreEmailError);

/// Whether `lettre::EmailAddress` takes this text as an address: a valid
/// e-mail address, or one that ends in `localhost`.
pub uninterp spec fn address_accepted(address: Seq<char>) -> bool;

/// The text of the plain-text message from `from` to `to` with this subject
/// and body, as `lettre_email` writes it out when it is built at `date` with
/// message id `id` and multipart boundary `boundary`.
pub uninterp spec fn message_text(
    to: Seq<char>,
    from: Seq<char>,
    subject: Seq<char>,
    body: Seq<char>,
    date: Seq<char>,
    id: Seq<char>,
    boundary: Seq<char>,
) -> Seq<char>;

/// `text` is the message from `from` to `to` with this subject, body and
/// message id, for some date of building and some boundary.
pub open spec fn is_message_text(
    text: Seq<char>,
    to: Seq<char>,
    from: Seq<char>,
    subject: Seq<char>,
    body: Seq<char>,
    id: Seq<char>,
) -> bool {
    exists|date: Seq<char>, boundary: Seq<char>| text == message_text(to, from, subject, body, date, id, boundary)
}

/// Builds, with `lettre_email::EmailBuilder`, a plain-text message from
/// `from` to `to` with this subject and body, and reads back the sender and
/// recipients of the envelope that the builder computes from the two
/// addresses, each taken as it is written, the message id and the text of
/// the message. Building fails exactly when one of the two addresses is not
/// accepted as an e-mail address (reading the text back from the built
/// bytes cannot fail). The text is determined by the addresses, the subject,
/// the body and the message id together with the date of building and a
/// random boundary; which date, id and boundary are drawn is not stated.
#[verifier::external_body]
pub(crate) fn build_email(to: &str, from: &str, subject: &str, body: &str) -> (r: Result<
    (String, Vec<String>, String, String),
    LettreEmailError,
>)
    ensures
        r is Ok <==> (address_accepted(from@) && address_accepted(to@)),
        r matches Ok((sender, rcpts, _, _)) ==> sender@ == from@ && rcpts@.len() == 1 && rcpts@[0]@ == to@,
        r matches Ok((_, _, id, text)) ==> exists|date: Seq<char>, boundary: Seq<char>|
            text@ == message_text(to@, from@, subject@, body@, date, id@, boundary),
{
    let email = EmailBuilder::new().from(from).to(to).subject(subject).text(String::from(body)).build()?;
    let sendable: SendableEmail = email.into();
    let sender = sendable.envelope().from().map(|a| a.to_string()).unwrap_or_default();
    let recipients = sendable.envelope().to().iter().map(|a| a.to_string()).collect();
    let id = sendable.message_id().to_string();
    let text = sendable.message_to_string()?;
    Ok((sender, recipients, id, text))
}

/// A composed e-mail: the envelope it is sent with, its message id and its
/// text (headers, then the body), as plain values.
pub struct OutgoingEmail {
    pub sender: String,
    pub recipients: Vec<String>,
    pub message_id: String,
    pub text: String,
}

/// Why an e-mail could not be composed.
#[derive(Clone, Copy, Debug, PartialEq, Eq, Structural)]
pub enum ComposeError {
    /// The sender's or the recipient's address is not an e-mail address.
    InvalidAddress,
}

/// The plain-text e-mail from `from` to `to` with this subject and body.
/// It is composed exactly when both addresses are e-mail addresses; its
/// envelope then sends it from `from` to `to` alone, and its text is the
/// message with these addresses, subject, body and message id.
pub fn compose_email(to: &str, from: &str, subject: &str, body: &str) -> (r: Result<OutgoingEmail, ComposeError>)
    ensures
        r is Ok <==> (address_accepted(from@) && address_accepted(to@)),
        r matches Ok(m) ==> m.sender@ == from@ && m.recipients@.len() == 1 && m.recipients@[0]@ == to@,
        r matches Ok(m) ==> is_message_text(m.text@, to@, from@, subject@, body@, m.message_id@),
        r matches Err(e) ==> e == ComposeError::InvalidAddress,
{
    match build_email(to, from, subject, body) {
        Ok((sender, recipients, message_id, text)) => {
            Ok(OutgoingEmail { sender, recipients, message_id, text })
        },
        Err(_) => Err(ComposeError::InvalidAddress),
    }
}

} // verus!
