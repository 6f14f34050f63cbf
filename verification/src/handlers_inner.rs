//! The business layer: a thin pass-through over the store adapters
//! that reclassifies storage failures for the transport boundary.
//!
//! An unusable identifier (`DBError::InvalidUUID`) becomes a
//! `BadRequest`; every other storage failure becomes an
//! `InternalError`. The original diagnostic is carried verbatim.

use vstd::prelude::*;
use crate::models::{
    exhausted_msg, malformed_uuid_msg, unknown_question_msg, Answer, AnswerDetail, DBError,
    Question, QuestionDetail,
};
use crate::ids::is_uuid_text;
use crate::store::{
    a_create_post, a_created, a_delete_post, answers_for, can_assign, has_question, q_create_post,
    q_created, q_delete_post, store_wf, AnswersDao, QuestionsDao,
};

verus! {

/// A business-level failure: caller-caused or server-caused.
#[derive(Debug)]
pub enum HandlerError {
    BadRequest(String),
    InternalError(String),
}

/// Reclassify a storage failure: an unusable identifier is the
/// caller's fault, anything else is the server's.
pub fn to_handler_error(e: DBError) -> (r: HandlerError)
    ensures
        match e {
            DBError::InvalidUUID(m) => r matches HandlerError::BadRequest(s) && s == m,
            DBError::Other(m) => r matches HandlerError::InternalError(s) && s == m,
        },
{
    match e {
        DBError::InvalidUUID(m) => HandlerError::BadRequest(m),
        DBError::Other(m) => HandlerError::InternalError(m),
    }
}

/// Create a question through the store adapter.
pub fn create_question<D: QuestionsDao>(question: Question, questions_dao: &mut D) -> (r: Result<
    QuestionDetail,
    HandlerError,
>)
    requires
        store_wf(old(questions_dao).model()),
    ensures
        store_wf(final(questions_dao).model()),
        match r {
            Result::Ok(d) => can_assign(old(questions_dao).model()) && q_created(
                old(questions_dao).model(),
                question,
                d,
            ) && final(questions_dao).model() == q_create_post(old(questions_dao).model(), d),
            Result::Err(e) => !can_assign(old(questions_dao).model()) && final(questions_dao).model() == old(questions_dao).model() && (e matches HandlerError::InternalError(m)
                && m@ == exhausted_msg()),
        },
{
    match questions_dao.create_question(question) {
        Result::Ok(d) => Result::Ok(d),
        Result::Err(e) => Result::Err(to_handler_error(e)),
    }
}

/// List every stored question.
pub fn read_questions<D: QuestionsDao>(questions_dao: &D) -> (r: Result<
    Vec<QuestionDetail>,
    HandlerError,
>)
    requires
        store_wf(questions_dao.model()),
    ensures
        match r {
            Result::Ok(v) => v@ == questions_dao.model().questions,
            Result::Err(_) => false,
        },
{
    match questions_dao.get_questions() {
        Result::Ok(v) => Result::Ok(v),
        Result::Err(e) => Result::Err(to_handler_error(e)),
    }
}

/// Delete a question by identifier; deleting an absent one succeeds.
pub fn delete_question<D: QuestionsDao>(question_uuid: String, questions_dao: &mut D) -> (r: Result<
    (),
    HandlerError,
>)
    requires
        store_wf(old(questions_dao).model()),
    ensures
        store_wf(final(questions_dao).model()),
        match r {
            Result::Ok(_) => is_uuid_text(question_uuid@) && final(questions_dao).model()
                == q_delete_post(old(questions_dao).model(), question_uuid@),
            Result::Err(e) => !is_uuid_text(question_uuid@) && final(questions_dao).model() == old(questions_dao).model() && (e matches HandlerError::BadRequest(m) && m@ == malformed_uuid_msg()),
        },
{
    match questions_dao.delete_question(question_uuid) {
        Result::Ok(_) => Result::Ok(()),
        Result::Err(e) => Result::Err(to_handler_error(e)),
    }
}

/// Create an answer through the store adapter.
pub fn create_answer<D: AnswersDao>(answer: Answer, answers_dao: &mut D) -> (r: Result<
    AnswerDetail,
    HandlerError,
>)
    requires
        store_wf(old(answers_dao).model()),
    ensures
        store_wf(final(answers_dao).model()),
        match r {
            Result::Ok(d) => is_uuid_text(answer.question_uuid@) && has_question(
                old(answers_dao).model(),
                answer.question_uuid@,
            ) && can_assign(old(answers_dao).model()) && a_created(
                old(answers_dao).model(),
                answer,
                d,
            ) && final(answers_dao).model() == a_create_post(old(answers_dao).model(), d),
            Result::Err(e) => final(answers_dao).model() == old(answers_dao).model() && (
            if !is_uuid_text(answer.question_uuid@) {
                e matches HandlerError::BadRequest(m) && m@ == malformed_uuid_msg()
            } else if !has_question(old(answers_dao).model(), answer.question_uuid@) {
                e matches HandlerError::BadRequest(m) && m@ == unknown_question_msg()
            } else {
                !can_assign(old(answers_dao).model()) && (e matches HandlerError::InternalError(m)
                    && m@ == exhausted_msg())
            }),
        },
{
    match answers_dao.create_answer(answer) {
        Result::Ok(d) => Result::Ok(d),
        Result::Err(e) => Result::Err(to_handler_error(e)),
    }
}

/// List the answers under one question; an unknown or answerless
/// question yields the empty list.
pub fn read_answers<D: AnswersDao>(question_uuid: String, answers_dao: &D) -> (r: Result<
    Vec<AnswerDetail>,
    HandlerError,
>)
    requires
        store_wf(answers_dao.model()),
    ensures
        match r {
            Result::Ok(v) => is_uuid_text(question_uuid@) && v@ == answers_for(
                answers_dao.model(),
                question_uuid@,
            ),
            Result::Err(e) => !is_uuid_text(question_uuid@) && (e
                matches HandlerError::BadRequest(m) && m@ == malformed_uuid_msg()),
        },
{
    match answers_dao.get_answers(question_uuid) {
        Result::Ok(v) => Result::Ok(v),
        Result::Err(e) => Result::Err(to_handler_error(e)),
    }
}

/// Delete an answer by identifier; deleting an absent one succeeds.
pub fn delete_answer<D: AnswersDao>(answer_uuid: String, answers_dao: &mut D) -> (r: Result<
    (),
    HandlerError,
>)
    requires
        store_wf(old(answers_dao).model()),
    ensures
        store_wf(final(answers_dao).model()),
        match r {
            Result::Ok(_) => is_uuid_text(answer_uuid@) && final(answers_dao).model()
                == a_delete_post(old(answers_dao).model(), answer_uuid@),
            Result::Err(e) => !is_uuid_text(answer_uuid@) && final(answers_dao).model() == old(answers_dao).model() && (e matches HandlerError::BadRequest(m) && m@ == malformed_uuid_msg()),
        },
{
    match answers_dao.delete_answer(answer_uuid) {
        Result::Ok(_) => Result::Ok(()),
        Result::Err(e) => Result::Err(to_handler_error(e)),
    }
}

} // verus!
