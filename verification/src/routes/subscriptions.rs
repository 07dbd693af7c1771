//! Sign-up: from a payload to a stored subscriber.
//!
//! Handling a sign-up takes two decisions with one database call between
//! them. [`subscribe`] takes the first: it reads the payload and either
//! refuses it or says what to insert. The caller runs the insert and hands
//! its outcome to [`respond_to_insert`], which takes the second.

pub use crate::form::FormData;
use crate::form::{
    lemma_incomplete_form_is_refused, occurrences, parsed, Field, FormDataView, Pairs,
};
use crate::identifier::{is_random_uuid, new_v4};
use crate::response::{Response, STATUS_BAD_REQUEST, STATUS_INTERNAL_SERVER_ERROR, STATUS_OK};
use crate::urlencoded::urlencoded_pairs;
use vstd::prelude::*;

verus! {

/// The one statement that stores a subscriber. Its parameters are the
/// identifier, the email and the name, in that order; the time of
/// subscription is the database's own clock at the insert.
pub const INSERT_SUBSCRIBER: &'static str =
    "INSERT INTO subscriptions (id, email, name, subscribed_at) VALUES ($1, $2, $3, now())";

/// An insert that is ready to be run: the statement and its parameters.
#[derive(Clone, Debug, PartialEq, Eq)]
pub struct InsertStatement {
    pub sql: &'static str,
    pub id: u128,
    pub email: String,
    pub name: String,
}

impl InsertStatement {
    /// The statement stores exactly `form`, under an identifier that was
    /// generated for it.
    pub open spec fn stores(&self, form: FormDataView) -> bool {
        &&& self.sql@ == INSERT_SUBSCRIBER@
        &&& is_random_uuid(self.id)
        &&& self.email@ == form.email
        &&& self.name@ == form.name
    }
}

/// Why the store did not take an insert.
#[derive(Clone, Debug, PartialEq, Eq)]
pub struct StorageError {
    /// What the database driver reported, for the log only.
    pub detail: String,
}

/// What is to be done with a sign-up request.
#[derive(Clone, Debug, PartialEq, Eq)]
pub enum SubscribeStep {
    /// Answer at once; nothing is to be stored.
    Respond(Response),
    /// Run this insert, then answer with [`respond_to_insert`].
    Insert(InsertStatement),
}

/// Prepares the insert of a new subscriber.
///
/// A fresh identifier is generated for the row; email and name are taken
/// from the form as they are.
pub fn insert_subscriber(form: &FormData) -> (statement: InsertStatement)
    ensures
        statement.stores(form@),
{
    InsertStatement {
        sql: INSERT_SUBSCRIBER,
        id: new_v4(),
        email: form.email.clone(),
        name: form.name.clone(),
    }
}

/// Decides what to do with the payload of a sign-up request.
///
/// A payload that holds no form is answered with `400 Bad Request` and an
/// empty body, and nothing is stored: in particular a payload of length
/// zero. A payload that holds a form leads to the insert of that form.
pub fn subscribe(body: &[u8]) -> (step: SubscribeStep)
    ensures
        match parsed(body@) {
            Ok(form) => step matches SubscribeStep::Insert(statement) && statement.stores(form),
            Err(_) => step matches SubscribeStep::Respond(response) && response.is_empty_with(
                STATUS_BAD_REQUEST,
            ),
        },
        body@.len() == 0 ==> (step matches SubscribeStep::Respond(response)
            && response.is_empty_with(STATUS_BAD_REQUEST)),
{
    match FormData::parse(body) {
        Ok(form) => SubscribeStep::Insert(insert_subscriber(&form)),
        Err(_) => SubscribeStep::Respond(Response::bad_request()),
    }
}

/// Decides the answer to a sign-up request once its insert has been run.
///
/// `200 OK` if the row was stored, `500 Internal Server Error` if it was
/// not. The body is empty either way: nothing of the error reaches the
/// client.
pub fn respond_to_insert(outcome: &Result<(), StorageError>) -> (response: Response)
    ensures
        outcome is Ok ==> response.is_empty_with(STATUS_OK),
        outcome is Err ==> response.is_empty_with(STATUS_INTERNAL_SERVER_ERROR),
{
    match outcome {
        Ok(_) => Response::ok(),
        Err(_) => Response::internal_server_error(),
    }
}

/// A payload whose pairs lack the email, or lack the name, holds no form:
/// [`subscribe`] answers it with `400 Bad Request` and hands back no insert.
pub proof fn lemma_payload_without_a_field_is_refused(body: Seq<u8>, pairs: Pairs)
    requires
        urlencoded_pairs(body) == Some(pairs),
        occurrences(pairs, Field::Email.key()) == 0 || occurrences(pairs, Field::Name.key()) == 0,
    ensures
        parsed(body) is Err,
{
    lemma_incomplete_form_is_refused(pairs);
}

} // verus!
