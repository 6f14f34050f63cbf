//! The transport-facing layer: the same operations as the business
//! layer, with failures mapped to an HTTP-style error carrying the
//! message body verbatim. A caller-caused failure answers with status
//! 400, a server-caused one with status 500.

use vstd::prelude::*;
use crate::handlers_inner::{self, HandlerError};
use crate::models::{
    exhausted_msg, malformed_uuid_msg, unknown_question_msg, Answer, AnswerDetail, Question,
    QuestionDetail,
};
use crate::ids::is_uuid_text;
use crate::store::{
    a_create_post, a_created, a_delete_post, answers_for, can_assign, has_question, q_create_post,
    q_created, q_delete_post, store_wf, AnswersDao, QuestionsDao,
};

verus! {

/// A transport-level failure: status 400 or status 500, with the
/// message body carried verbatim.
#[derive(Debug)]
pub enum APIError {
    BadRequest(String),
    InternalError(String),
}

impl From<HandlerError> for APIError {
    fn from(value: HandlerError) -> Self {
        match value {
            HandlerError::BadRequest(s) => APIError::BadRequest(s),
            HandlerError::InternalError(s) => APIError::InternalError(s),
        }
    }
}

impl vstd::std_specs::convert::FromSpecImpl<HandlerError> for APIError {
    open spec fn obeys_from_spec() -> bool {
        true
    }

    open spec fn from_spec(value: HandlerError) -> Self {
        match value {
            HandlerError::BadRequest(s) => APIError::BadRequest(s),
            HandlerError::InternalError(s) => APIError::InternalError(s),
        }
    }
}

impl APIError {
    /// The HTTP status this failure answers with.
    pub fn status(&self) -> (r: u16)
        ensures
            *self matches APIError::BadRequest(_) ==> r == 400,
            *self matches APIError::InternalError(_) ==> r == 500,
    {
        match self {
            APIError::BadRequest(_) => 400,
            APIError::InternalError(_) => 500,
        }
    }

    /// The message body this failure answers with.
    pub fn body(self) -> (r: String)
        ensures
            match self {
                APIError::BadRequest(m) => r == m,
                APIError::InternalError(m) => r == m,
            },
    {
        match self {
            APIError::BadRequest(m) => m,
            APIError::InternalError(m) => m,
        }
    }
}

/// Create a question; a storage failure answers with status 500.
pub fn create_question<D: QuestionsDao>(question: Question, questions_dao: &mut D) -> (r: Result<
    QuestionDetail,
    APIError,
>)
    requires
        store_wf(old(questions_dao).model()),
    ensures
        store_wf(final(questions_dao).model()),
        match r {
            Result::Ok(d) => can_assign(old(questions_dao).model()) && q_created(
                old(questions_dao).model(),
                question,
                d,
            ) && final(questions_dao).model() == q_create_post(old(questions_dao).model(), d),
            Result::Err(e) => !can_assign(old(questions_dao).model()) && final(questions_dao).model() == old(questions_dao).model() && (e matches APIError::InternalError(m) && m@
                == exhausted_msg()),
        },
{
    match handlers_inner::create_question(question, questions_dao) {
        Result::Ok(d) => Result::Ok(d),
        Result::Err(e) => Result::Err(APIError::from(e)),
    }
}

/// List every stored question.
pub fn read_questions<D: QuestionsDao>(questions_dao: &D) -> (r: Result<
    Vec<QuestionDetail>,
    APIError,
>)
    requires
        store_wf(questions_dao.model()),
    ensures
        match r {
            Result::Ok(v) => v@ == questions_dao.model().questions,
            Result::Err(_) => false,
        },
{
    match handlers_inner::read_questions(questions_dao) {
        Result::Ok(v) => Result::Ok(v),
        Result::Err(e) => Result::Err(APIError::from(e)),
    }
}

/// Delete a question; a malformed identifier answers with status 400.
pub fn delete_question<D: QuestionsDao>(question_uuid: String, questions_dao: &mut D) -> (r: Result<
    (),
    APIError,
>)
    requires
        store_wf(old(questions_dao).model()),
    ensures
        store_wf(final(questions_dao).model()),
        match r {
            Result::Ok(_) => is_uuid_text(question_uuid@) && final(questions_dao).model()
                == q_delete_post(old(questions_dao).model(), question_uuid@),
            Result::Err(e) => !is_uuid_text(question_uuid@) && final(questions_dao).model() == old(questions_dao).model() && (e matches APIError::BadRequest(m) && m@ == malformed_uuid_msg()),
        },
{
    match handlers_inner::delete_question(question_uuid, questions_dao) {
        Result::Ok(_) => Result::Ok(()),
        Result::Err(e) => Result::Err(APIError::from(e)),
    }
}

/// Create an answer; an unusable question reference answers with
/// status 400, whether malformed or naming no existing question.
pub fn create_answer<D: AnswersDao>(answer: Answer, answers_dao: &mut D) -> (r: Result<
    AnswerDetail,
    APIError,
>)
    requires
        store_wf(old(answers_dao).model()),
    ensures
        store_wf(final(answers_dao).model()),
        match r {
            Result::Ok(d) => is_uuid_text(answer.question_uuid@) && has_question(
                old(answers_dao).model(),
                answer.question_uuid@,
            ) && can_assign(old(answers_dao).model()) && a_created(
                old(answers_dao).model(),
                answer,
                d,
            ) && final(answers_dao).model() == a_create_post(old(answers_dao).model(), d),
            Result::Err(e) => final(answers_dao).model() == old(answers_dao).model() && (
            if !is_uuid_text(answer.question_uuid@) {
                e matches APIError::BadRequest(m) && m@ == malformed_uuid_msg()
            } else if !has_question(old(answers_dao).model(), answer.question_uuid@) {
                e matches APIError::BadRequest(m) && m@ == unknown_question_msg()
            } else {
                !can_assign(old(answers_dao).model()) && (e matches APIError::InternalError(m)
                    && m@ == exhausted_msg())
            }),
        },
{
    match handlers_inner::create_answer(answer, answers_dao) {
        Result::Ok(d) => Result::Ok(d),
        Result::Err(e) => Result::Err(APIError::from(e)),
    }
}

/// List the answers under one question.
pub fn read_answers<D: AnswersDao>(question_uuid: String, answers_dao: &D) -> (r: Result<
    Vec<AnswerDetail>,
    APIError,
>)
    requires
        store_wf(answers_dao.model()),
    ensures
        match r {
            Result::Ok(v) => is_uuid_text(question_uuid@) && v@ == answers_for(
                answers_dao.model(),
                question_uuid@,
            ),
            Result::Err(e) => !is_uuid_text(question_uuid@) && (e matches APIError::BadRequest(m)
                && m@ == malformed_uuid_msg()),
        },
{
    match handlers_inner::read_answers(question_uuid, answers_dao) {
        Result::Ok(v) => Result::Ok(v),
        Result::Err(e) => Result::Err(APIError::from(e)),
    }
}

/// Delete an answer; a malformed identifier answers with status 400.
pub fn delete_answer<D: AnswersDao>(answer_uuid: String, answers_dao: &mut D) -> (r: Result<
    (),
    APIError,
>)
    requires
        store_wf(old(answers_dao).model()),
    ensures
        store_wf(final(answers_dao).model()),
        match r {
            Result::Ok(_) => is_uuid_text(answer_uuid@) && final(answers_dao).model()
                == a_delete_post(old(answers_dao).model(), answer_uuid@),
            Result::Err(e) => !is_uuid_text(answer_uuid@) && final(answers_dao).model() == old(answers_dao).model() && (e matches APIError::BadRequest(m) && m@ == malformed_uuid_msg()),
        },
{
    match handlers_inner::delete_answer(answer_uuid, answers_dao) {
        Result::Ok(_) => Result::Ok(()),
        Result::Err(e) => Result::Err(APIError::from(e)),
    }
}

} // verus!
