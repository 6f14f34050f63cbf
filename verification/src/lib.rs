//! Persistence core of a question-and-answer service.
//!
//! Questions and answers are submitted by callers, stored with a
//! server-assigned identifier and creation stamp, listed, and deleted.
//! The store is the single source of truth for identifier uniqueness and
//! for the rule that every answer must reference an existing question.
//! Storage failures are classified into a small error taxonomy: a caller's
//! unusable identifier (malformed, or naming no existing question) versus
//! any other storage failure.

pub mod handlers;
pub mod handlers_inner;
pub mod ids;
pub mod laws;
pub mod models;
pub mod seq_facts;
pub mod store;
pub mod text;

pub use models::{Answer, AnswerDetail, DBError, Question, QuestionDetail};
