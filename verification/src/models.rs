//! Entity records and the storage-level error taxonomy.
//!
//! A `Question` or `Answer` is the submitted form; `QuestionDetail` and
//! `AnswerDetail` are the stored forms, carrying the store-assigned
//! identifier and creation stamp. `DBError` distinguishes an unusable
//! caller-supplied identifier from every other storage failure.

use vstd::prelude::*;
use vstd::string::*;
use crate::text::{text_contains, text_contains_exec};

verus! {

/// A question as submitted by a caller.
pub struct Question {
    pub title: String,
    pub description: String,
}

/// A stored question, with its server-assigned fields.
pub struct QuestionDetail {
    pub question_uuid: String,
    pub title: String,
    pub description: String,
    pub created_at: String,
}

/// An answer as submitted by a caller. `question_uuid` must name an
/// existing question.
pub struct Answer {
    pub question_uuid: String,
    pub content: String,
}

/// A stored answer, with its server-assigned fields.
pub struct AnswerDetail {
    pub answer_uuid: String,
    pub question_uuid: String,
    pub content: String,
    pub created_at: String,
}

/// A storage-level failure.
///
/// `InvalidUUID` covers both a syntactically malformed identifier and a
/// referential-integrity violation: in both cases the caller's reference
/// is unusable. `Other` covers every remaining storage failure.
#[derive(Debug)]
pub enum DBError {
    InvalidUUID(String),
    Other(String),
}

impl Clone for Question {
    fn clone(&self) -> (res: Self)
        ensures
            res == *self,
    {
        Question { title: self.title.clone(), description: self.description.clone() }
    }
}

impl Clone for QuestionDetail {
    fn clone(&self) -> (res: Self)
        ensures
            res == *self,
    {
        QuestionDetail {
            question_uuid: self.question_uuid.clone(),
            title: self.title.clone(),
            description: self.description.clone(),
            created_at: self.created_at.clone(),
        }
    }
}

impl Clone for Answer {
    fn clone(&self) -> (res: Self)
        ensures
            res == *self,
    {
        Answer { question_uuid: self.question_uuid.clone(), content: self.content.clone() }
    }
}

impl Clone for AnswerDetail {
    fn clone(&self) -> (res: Self)
        ensures
            res == *self,
    {
        AnswerDetail {
            answer_uuid: self.answer_uuid.clone(),
            question_uuid: self.question_uuid.clone(),
            content: self.content.clone(),
            created_at: self.created_at.clone(),
        }
    }
}

impl Clone for DBError {
    fn clone(&self) -> (res: Self)
        ensures
            res == *self,
    {
        match self {
            DBError::InvalidUUID(m) => DBError::InvalidUUID(m.clone()),
            DBError::Other(m) => DBError::Other(m.clone()),
        }
    }
}

/// The SQLSTATE class of a foreign-key violation in the backing store.
pub open spec fn fk_violation_code() -> Seq<char> {
    "23503"@
}

/// Diagnostic for an identifier that is not in canonical form.
pub open spec fn malformed_uuid_msg() -> Seq<char> {
    "invalid identifier: expected a canonical hyphenated UUID string"@
}

/// Diagnostic for an answer whose question reference names no question.
pub open spec fn unknown_question_msg() -> Seq<char> {
    "foreign key violation: no question with the given identifier exists"@
}

/// Diagnostic for an exhausted identifier counter.
pub open spec fn exhausted_msg() -> Seq<char> {
    "storage failure: identifier space exhausted"@
}

/// The diagnostic for an identifier that is not in canonical form.
pub fn malformed_uuid_message() -> (r: String)
    ensures
        r@ == malformed_uuid_msg(),
{
    String::from_str("invalid identifier: expected a canonical hyphenated UUID string")
}

/// The diagnostic for an answer whose question reference names no question.
pub fn unknown_question_message() -> (r: String)
    ensures
        r@ == unknown_question_msg(),
{
    String::from_str("foreign key violation: no question with the given identifier exists")
}

/// The diagnostic for an exhausted identifier counter.
pub fn exhausted_message() -> (r: String)
    ensures
        r@ == exhausted_msg(),
{
    String::from_str("storage failure: identifier space exhausted")
}

/// Classify a failure reported by the store's database driver.
///
/// A failure whose code contains the foreign-key violation class means
/// the caller's reference is unusable and maps to `InvalidUUID`; every
/// other failure, including one with no code at all, maps to `Other`.
/// The driver's message is carried verbatim either way.
pub fn classify_database_error(code: Option<String>, message: String) -> (r: DBError)
    ensures
        match code {
            Option::Some(c) => if text_contains(c@, fk_violation_code()) {
                r matches DBError::InvalidUUID(m) && m == message
            } else {
                r matches DBError::Other(m) && m == message
            },
            Option::None => r matches DBError::Other(m) && m == message,
        },
{
    match code {
        Option::Some(c) => {
            if text_contains_exec(c.as_str(), "23503") {
                DBError::InvalidUUID(message)
            } else {
                DBError::Other(message)
            }
        },
        Option::None => DBError::Other(message),
    }
}

} // verus!
