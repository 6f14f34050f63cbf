//! The store adapters for questions and answers, their common model,
//! and a verified in-memory store implementing both.
//!
//! `StoreModel` is the mathematical state of the store: the stored
//! question and answer records and the identifier counter. The two
//! adapter traits, `QuestionsDao` and `AnswersDao`, are specified as
//! transitions on that model. `InMemoryStore` realises both; a
//! database-backed implementation can stand beside it outside the
//! verified core.

use vstd::prelude::*;
use vstd::string::*;
use crate::ids::{
    hex16, hex16_string, is_uuid_text, lemma_uuid_text_injective, uuid_string, uuid_text,
    validate_uuid,
};
use crate::models::{
    exhausted_message, exhausted_msg, malformed_uuid_message, malformed_uuid_msg,
    unknown_question_message, unknown_question_msg, Answer, AnswerDetail, DBError, Question,
    QuestionDetail,
};
use crate::seq_facts::{lemma_filter_distinct_by, lemma_filter_in_source, lemma_filter_push};

verus! {

/// The mathematical state of the store.
#[verifier::ext_equal]
pub struct StoreModel {
    pub questions: Seq<QuestionDetail>,
    pub answers: Seq<AnswerDetail>,
    pub next_id: u64,
}

/// `s` is an identifier that the counter assigned before reaching `bound`.
pub open spec fn id_from(s: Seq<char>, bound: u64) -> bool {
    exists|k: u64| k < bound && s == #[trigger] uuid_text(k)
}

/// Well-formed store: every stored identifier was assigned by the
/// counter, identifiers are pairwise distinct across both collections,
/// and every answer's question reference was assigned by the counter.
pub open spec fn store_wf(m: StoreModel) -> bool {
    &&& forall|i: int|
        0 <= i < m.questions.len() ==> id_from((#[trigger] m.questions[i]).question_uuid@, m.next_id)
    &&& forall|i: int|
        0 <= i < m.answers.len() ==> id_from((#[trigger] m.answers[i]).answer_uuid@, m.next_id)
    &&& forall|i: int|
        0 <= i < m.answers.len() ==> id_from((#[trigger] m.answers[i]).question_uuid@, m.next_id)
    &&& forall|i: int, j: int|
        0 <= i < j < m.questions.len() ==> (#[trigger] m.questions[i]).question_uuid@ != (
        #[trigger] m.questions[j]).question_uuid@
    &&& forall|i: int, j: int|
        0 <= i < j < m.answers.len() ==> (#[trigger] m.answers[i]).answer_uuid@ != (
        #[trigger] m.answers[j]).answer_uuid@
    &&& forall|i: int, j: int|
        0 <= i < m.questions.len() && 0 <= j < m.answers.len() ==> (
        #[trigger] m.questions[i]).question_uuid@ != (#[trigger] m.answers[j]).answer_uuid@
}

/// Some stored question carries the identifier `id`.
pub open spec fn has_question(m: StoreModel, id: Seq<char>) -> bool {
    exists|i: int| 0 <= i < m.questions.len() && (#[trigger] m.questions[i]).question_uuid@ == id
}

/// Keep questions whose identifier is not `id`.
pub open spec fn keeps_q(id: Seq<char>) -> spec_fn(QuestionDetail) -> bool {
    |q: QuestionDetail| q.question_uuid@ != id
}

/// Keep answers whose identifier is not `id`.
pub open spec fn keeps_a(id: Seq<char>) -> spec_fn(AnswerDetail) -> bool {
    |a: AnswerDetail| a.answer_uuid@ != id
}

/// Keep answers referencing the question `id`.
pub open spec fn for_q(id: Seq<char>) -> spec_fn(AnswerDetail) -> bool {
    |a: AnswerDetail| a.question_uuid@ == id
}

/// The stored answers under question `id`, in insertion order.
pub open spec fn answers_for(m: StoreModel, id: Seq<char>) -> Seq<AnswerDetail> {
    m.answers.filter(for_q(id))
}

/// The counter can still assign a fresh identifier.
pub open spec fn can_assign(m: StoreModel) -> bool {
    m.next_id < u64::MAX
}

/// `d` is the stored form that creating `question` in state `m` yields.
pub open spec fn q_created(m: StoreModel, question: Question, d: QuestionDetail) -> bool {
    &&& d.question_uuid@ == uuid_text(m.next_id)
    &&& d.title@ == question.title@
    &&& d.description@ == question.description@
    &&& d.created_at@ == hex16(m.next_id)
}

/// State after storing the new question record `d`.
pub open spec fn q_create_post(m: StoreModel, d: QuestionDetail) -> StoreModel {
    StoreModel { questions: m.questions.push(d), next_id: (m.next_id + 1) as u64, ..m }
}

/// State after deleting the question `id`: its rows are gone, answers
/// are untouched (deletion does not cascade).
pub open spec fn q_delete_post(m: StoreModel, id: Seq<char>) -> StoreModel {
    StoreModel { questions: m.questions.filter(keeps_q(id)), ..m }
}

/// `d` is the stored form that creating `answer` in state `m` yields.
pub open spec fn a_created(m: StoreModel, answer: Answer, d: AnswerDetail) -> bool {
    &&& d.answer_uuid@ == uuid_text(m.next_id)
    &&& d.question_uuid@ == answer.question_uuid@
    &&& d.content@ == answer.content@
    &&& d.created_at@ == hex16(m.next_id)
}

/// State after storing the new answer record `d`.
pub open spec fn a_create_post(m: StoreModel, d: AnswerDetail) -> StoreModel {
    StoreModel { answers: m.answers.push(d), next_id: (m.next_id + 1) as u64, ..m }
}

/// State after deleting the answer `id`.
pub open spec fn a_delete_post(m: StoreModel, id: Seq<char>) -> StoreModel {
    StoreModel { answers: m.answers.filter(keeps_a(id)), ..m }
}

/// Store adapter for the questions collection.
///
/// Creation needs no identifier from the caller; deletion parses the
/// identifier first and is silently idempotent; listing returns every
/// stored question.
pub trait QuestionsDao {
    spec fn model(&self) -> StoreModel;

    fn create_question(&mut self, question: Question) -> (r: Result<QuestionDetail, DBError>)
        requires
            store_wf(old(self).model()),
        ensures
            store_wf(final(self).model()),
            match r {
                Result::Ok(d) => can_assign(old(self).model()) && q_created(
                    old(self).model(),
                    question,
                    d,
                ) && final(self).model() == q_create_post(old(self).model(), d),
                Result::Err(e) => !can_assign(old(self).model()) && final(self).model() == old(
                    self,
                ).model() && (e matches DBError::Other(m) && m@ == exhausted_msg()),
            },
    ;

    fn delete_question(&mut self, question_uuid: String) -> (r: Result<(), DBError>)
        requires
            store_wf(old(self).model()),
        ensures
            store_wf(final(self).model()),
            match r {
                Result::Ok(_) => is_uuid_text(question_uuid@) && final(self).model()
                    == q_delete_post(old(self).model(), question_uuid@),
                Result::Err(e) => !is_uuid_text(question_uuid@) && final(self).model() == old(
                    self,
                ).model() && (e matches DBError::InvalidUUID(m) && m@ == malformed_uuid_msg()),
            },
    ;

    fn get_questions(&self) -> (r: Result<Vec<QuestionDetail>, DBError>)
        requires
            store_wf(self.model()),
        ensures
            match r {
                Result::Ok(v) => v@ == self.model().questions,
                Result::Err(_) => false,
            },
    ;
}

/// Store adapter for the answers collection.
///
/// Creation parses the question reference and enforces that it names an
/// existing question; deletion parses the identifier first and is
/// silently idempotent; listing returns the answers under one question,
/// and the empty sequence when the question has none or does not exist.
pub trait AnswersDao {
    spec fn model(&self) -> StoreModel;

    fn create_answer(&mut self, answer: Answer) -> (r: Result<AnswerDetail, DBError>)
        requires
            store_wf(old(self).model()),
        ensures
            store_wf(final(self).model()),
            match r {
                Result::Ok(d) => is_uuid_text(answer.question_uuid@) && has_question(
                    old(self).model(),
                    answer.question_uuid@,
                ) && can_assign(old(self).model()) && a_created(old(self).model(), answer, d)
                    && final(self).model() == a_create_post(old(self).model(), d),
                Result::Err(e) => final(self).model() == old(self).model() && (if !is_uuid_text(
                    answer.question_uuid@,
                ) {
                    e matches DBError::InvalidUUID(m) && m@ == malformed_uuid_msg()
                } else if !has_question(old(self).model(), answer.question_uuid@) {
                    e matches DBError::InvalidUUID(m) && m@ == unknown_question_msg()
                } else {
                    !can_assign(old(self).model()) && (e matches DBError::Other(m) && m@
                        == exhausted_msg())
                }),
            },
    ;

    fn delete_answer(&mut self, answer_uuid: String) -> (r: Result<(), DBError>)
        requires
            store_wf(old(self).model()),
        ensures
            store_wf(final(self).model()),
            match r {
                Result::Ok(_) => is_uuid_text(answer_uuid@) && final(self).model() == a_delete_post(
                    old(self).model(),
                    answer_uuid@,
                ),
                Result::Err(e) => !is_uuid_text(answer_uuid@) && final(self).model() == old(
                    self,
                ).model() && (e matches DBError::InvalidUUID(m) && m@ == malformed_uuid_msg()),
            },
    ;

    fn get_answers(&self, question_uuid: String) -> (r: Result<Vec<AnswerDetail>, DBError>)
        requires
            store_wf(self.model()),
        ensures
            match r {
                Result::Ok(v) => is_uuid_text(question_uuid@) && v@ == answers_for(
                    self.model(),
                    question_uuid@,
                ),
                Result::Err(e) => !is_uuid_text(question_uuid@) && (e
                    matches DBError::InvalidUUID(m) && m@ == malformed_uuid_msg()),
            },
    ;
}

/// An identifier below the bound can never equal the next fresh one.
pub proof fn lemma_fresh(s: Seq<char>, b: u64)
    requires
        id_from(s, b),
    ensures
        s != uuid_text(b),
{
    let k = choose|k: u64| k < b && s == #[trigger] uuid_text(k);
    if s == uuid_text(b) {
        lemma_uuid_text_injective(k, b);
    }
}

/// Identifier provenance is monotone in the bound.
pub proof fn lemma_id_from_mono(s: Seq<char>, b1: u64, b2: u64)
    requires
        id_from(s, b1),
        b1 <= b2,
    ensures
        id_from(s, b2),
{
    let k = choose|k: u64| k < b1 && s == #[trigger] uuid_text(k);
    assert(k < b2 && s == uuid_text(k));
}

/// Creating a question preserves well-formedness.
proof fn lemma_create_q_wf(m: StoreModel, d: QuestionDetail)
    requires
        store_wf(m),
        can_assign(m),
        d.question_uuid@ == uuid_text(m.next_id),
    ensures
        store_wf(q_create_post(m, d)),
{
    let m2 = q_create_post(m, d);
    assert forall|i: int| 0 <= i < m2.questions.len() implies id_from(
        (#[trigger] m2.questions[i]).question_uuid@,
        m2.next_id,
    ) by {
        if i < m.questions.len() {
            lemma_id_from_mono(m.questions[i].question_uuid@, m.next_id, m2.next_id);
        } else {
            assert(m.next_id < m2.next_id && d.question_uuid@ == uuid_text(m.next_id));
        }
    }
    assert forall|i: int| 0 <= i < m2.answers.len() implies id_from(
        (#[trigger] m2.answers[i]).answer_uuid@,
        m2.next_id,
    ) by {
        lemma_id_from_mono(m.answers[i].answer_uuid@, m.next_id, m2.next_id);
    }
    assert forall|i: int| 0 <= i < m2.answers.len() implies id_from(
        (#[trigger] m2.answers[i]).question_uuid@,
        m2.next_id,
    ) by {
        lemma_id_from_mono(m.answers[i].question_uuid@, m.next_id, m2.next_id);
    }
    assert forall|i: int, j: int| 0 <= i < j < m2.questions.len() implies (
    #[trigger] m2.questions[i]).question_uuid@ != (#[trigger] m2.questions[j]).question_uuid@ by {
        if j == m.questions.len() {
            lemma_fresh(m.questions[i].question_uuid@, m.next_id);
        }
    }
    assert forall|i: int, j: int|
        0 <= i < m2.questions.len() && 0 <= j < m2.answers.len() implies (
    #[trigger] m2.questions[i]).question_uuid@ != (#[trigger] m2.answers[j]).answer_uuid@ by {
        if i == m.questions.len() {
            lemma_fresh(m.answers[j].answer_uuid@, m.next_id);
        }
    }
}

/// Creating an answer preserves well-formedness.
proof fn lemma_create_a_wf(m: StoreModel, d: AnswerDetail)
    requires
        store_wf(m),
        can_assign(m),
        d.answer_uuid@ == uuid_text(m.next_id),
        id_from(d.question_uuid@, m.next_id),
    ensures
        store_wf(a_create_post(m, d)),
{
    let m2 = a_create_post(m, d);
    assert forall|i: int| 0 <= i < m2.questions.len() implies id_from(
        (#[trigger] m2.questions[i]).question_uuid@,
        m2.next_id,
    ) by {
        lemma_id_from_mono(m.questions[i].question_uuid@, m.next_id, m2.next_id);
    }
    assert forall|i: int| 0 <= i < m2.answers.len() implies id_from(
        (#[trigger] m2.answers[i]).answer_uuid@,
        m2.next_id,
    ) by {
        if i < m.answers.len() {
            lemma_id_from_mono(m.answers[i].answer_uuid@, m.next_id, m2.next_id);
        } else {
            assert(m.next_id < m2.next_id && d.answer_uuid@ == uuid_text(m.next_id));
        }
    }
    assert forall|i: int| 0 <= i < m2.answers.len() implies id_from(
        (#[trigger] m2.answers[i]).question_uuid@,
        m2.next_id,
    ) by {
        if i < m.answers.len() {
            lemma_id_from_mono(m.answers[i].question_uuid@, m.next_id, m2.next_id);
        } else {
            lemma_id_from_mono(d.question_uuid@, m.next_id, m2.next_id);
        }
    }
    assert forall|i: int, j: int| 0 <= i < j < m2.answers.len() implies (
    #[trigger] m2.answers[i]).answer_uuid@ != (#[trigger] m2.answers[j]).answer_uuid@ by {
        if j == m.answers.len() {
            lemma_fresh(m.answers[i].answer_uuid@, m.next_id);
        }
    }
    assert forall|i: int, j: int|
        0 <= i < m2.questions.len() && 0 <= j < m2.answers.len() implies (
    #[trigger] m2.questions[i]).question_uuid@ != (#[trigger] m2.answers[j]).answer_uuid@ by {
        if j == m.answers.len() {
            lemma_fresh(m.questions[i].question_uuid@, m.next_id);
        }
    }
}

/// Deleting a question preserves well-formedness.
proof fn lemma_delete_q_wf(m: StoreModel, id: Seq<char>)
    requires
        store_wf(m),
    ensures
        store_wf(q_delete_post(m, id)),
{
    let m2 = q_delete_post(m, id);
    let kept = m.questions.filter(keeps_q(id));
    lemma_filter_in_source(m.questions, keeps_q(id));
    lemma_filter_distinct_by(m.questions, keeps_q(id), |q: QuestionDetail| q.question_uuid@);
    assert forall|i: int| 0 <= i < kept.len() implies id_from(
        (#[trigger] kept[i]).question_uuid@,
        m2.next_id,
    ) by {
        let j = choose|j: int| 0 <= j < m.questions.len() && m.questions[j] == kept[i];
        assert(id_from(m.questions[j].question_uuid@, m.next_id));
    }
    assert forall|i: int, j: int| 0 <= i < kept.len() && 0 <= j < m2.answers.len() implies (
    #[trigger] kept[i]).question_uuid@ != (#[trigger] m2.answers[j]).answer_uuid@ by {
        let l = choose|l: int| 0 <= l < m.questions.len() && m.questions[l] == kept[i];
        assert(m.questions[l].question_uuid@ != m.answers[j].answer_uuid@);
    }
}

/// Deleting an answer preserves well-formedness.
proof fn lemma_delete_a_wf(m: StoreModel, id: Seq<char>)
    requires
        store_wf(m),
    ensures
        store_wf(a_delete_post(m, id)),
{
    let m2 = a_delete_post(m, id);
    let kept = m.answers.filter(keeps_a(id));
    lemma_filter_in_source(m.answers, keeps_a(id));
    lemma_filter_distinct_by(m.answers, keeps_a(id), |a: AnswerDetail| a.answer_uuid@);
    assert forall|i: int| 0 <= i < kept.len() implies id_from(
        (#[trigger] kept[i]).answer_uuid@,
        m2.next_id,
    ) && id_from((#[trigger] kept[i]).question_uuid@, m2.next_id) by {
        let j = choose|j: int| 0 <= j < m.answers.len() && m.answers[j] == kept[i];
        assert(id_from(m.answers[j].answer_uuid@, m.next_id));
        assert(id_from(m.answers[j].question_uuid@, m.next_id));
    }
    assert forall|i: int, j: int| 0 <= i < m2.questions.len() && 0 <= j < kept.len() implies (
    #[trigger] m2.questions[i]).question_uuid@ != (#[trigger] kept[j]).answer_uuid@ by {
        let l = choose|l: int| 0 <= l < m.answers.len() && m.answers[l] == kept[j];
        assert(m.questions[i].question_uuid@ != m.answers[l].answer_uuid@);
    }
}

/// Is some question in `qs` carrying the identifier `id`?
fn find_question(qs: &Vec<QuestionDetail>, id: &String) -> (r: bool)
    ensures
        r == exists|i: int| 0 <= i < qs@.len() && (#[trigger] qs@[i]).question_uuid@ == id@,
{
    let mut i: usize = 0;
    while i < qs.len()
        invariant
            0 <= i <= qs@.len(),
            forall|k: int| 0 <= k < i ==> (#[trigger] qs@[k]).question_uuid@ != id@,
        decreases qs@.len() - i,
    {
        if qs[i].question_uuid == *id {
            assert((qs@[i as int]).question_uuid@ == id@);
            return true;
        }
        i += 1;
    }
    false
}

/// A copy of the stored questions, in order.
fn copy_questions(qs: &Vec<QuestionDetail>) -> (r: Vec<QuestionDetail>)
    ensures
        r@ == qs@,
{
    let mut r: Vec<QuestionDetail> = Vec::new();
    let mut i: usize = 0;
    while i < qs.len()
        invariant
            0 <= i <= qs@.len(),
            r@ =~= qs@.subrange(0, i as int),
        decreases qs@.len() - i,
    {
        r.push(qs[i].clone());
        i += 1;
    }
    assert(r@ =~= qs@);
    r
}

/// The questions of `qs` whose identifier is not `id`, in order.
fn keep_questions_except(qs: &Vec<QuestionDetail>, id: &String) -> (r: Vec<QuestionDetail>)
    ensures
        r@ == qs@.filter(keeps_q(id@)),
{
    let mut r: Vec<QuestionDetail> = Vec::new();
    let mut i: usize = 0;
    while i < qs.len()
        invariant
            0 <= i <= qs@.len(),
            r@ == qs@.subrange(0, i as int).filter(keeps_q(id@)),
        decreases qs@.len() - i,
    {
        proof {
            assert(qs@.subrange(0, i + 1) =~= qs@.subrange(0, i as int).push(qs@[i as int]));
            lemma_filter_push(qs@.subrange(0, i as int), keeps_q(id@), qs@[i as int]);
        }
        if !(qs[i].question_uuid == *id) {
            r.push(qs[i].clone());
        }
        i += 1;
    }
    assert(qs@.subrange(0, qs@.len() as int) =~= qs@);
    r
}

/// The answers of `v` whose identifier is not `id`, in order.
fn keep_answers_except(v: &Vec<AnswerDetail>, id: &String) -> (r: Vec<AnswerDetail>)
    ensures
        r@ == v@.filter(keeps_a(id@)),
{
    let mut r: Vec<AnswerDetail> = Vec::new();
    let mut i: usize = 0;
    while i < v.len()
        invariant
            0 <= i <= v@.len(),
            r@ == v@.subrange(0, i as int).filter(keeps_a(id@)),
        decreases v@.len() - i,
    {
        proof {
            assert(v@.subrange(0, i + 1) =~= v@.subrange(0, i as int).push(v@[i as int]));
            lemma_filter_push(v@.subrange(0, i as int), keeps_a(id@), v@[i as int]);
        }
        if !(v[i].answer_uuid == *id) {
            r.push(v[i].clone());
        }
        i += 1;
    }
    assert(v@.subrange(0, v@.len() as int) =~= v@);
    r
}

/// The answers of `v` referencing the question `id`, in order.
fn answers_under(v: &Vec<AnswerDetail>, id: &String) -> (r: Vec<AnswerDetail>)
    ensures
        r@ == v@.filter(for_q(id@)),
{
    let mut r: Vec<AnswerDetail> = Vec::new();
    let mut i: usize = 0;
    while i < v.len()
        invariant
            0 <= i <= v@.len(),
            r@ == v@.subrange(0, i as int).filter(for_q(id@)),
        decreases v@.len() - i,
    {
        proof {
            assert(v@.subrange(0, i + 1) =~= v@.subrange(0, i as int).push(v@[i as int]));
            lemma_filter_push(v@.subrange(0, i as int), for_q(id@), v@[i as int]);
        }
        if v[i].question_uuid == *id {
            r.push(v[i].clone());
        }
        i += 1;
    }
    assert(v@.subrange(0, v@.len() as int) =~= v@);
    r
}

/// A store held in memory, assigning identifiers from a counter.
/// It keeps the same observable behaviour as a database-backed store:
/// fresh identifiers, idempotent deletes, referential integrity on
/// answer creation, and no cascade on question deletion.
pub struct InMemoryStore {
    questions: Vec<QuestionDetail>,
    answers: Vec<AnswerDetail>,
    next_id: u64,
}

impl View for InMemoryStore {
    type V = StoreModel;

    closed spec fn view(&self) -> StoreModel {
        StoreModel { questions: self.questions@, answers: self.answers@, next_id: self.next_id }
    }
}

/// The state of a store holding nothing.
pub open spec fn empty_store() -> StoreModel {
    StoreModel { questions: Seq::empty(), answers: Seq::empty(), next_id: 0 }
}

impl InMemoryStore {
    /// A store holding nothing.
    pub fn new() -> (r: Self)
        ensures
            r@ == empty_store(),
            store_wf(r@),
    {
        let r = InMemoryStore { questions: Vec::new(), answers: Vec::new(), next_id: 0 };
        proof {
            assert(r@ =~= empty_store());
        }
        r
    }
}

impl QuestionsDao for InMemoryStore {
    open spec fn model(&self) -> StoreModel {
        self@
    }

    fn create_question(&mut self, question: Question) -> (r: Result<QuestionDetail, DBError>) {
        let ghost pre = *self;
        if self.next_id == u64::MAX {
            return Result::Err(DBError::Other(exhausted_message()));
        }
        let d = QuestionDetail {
            question_uuid: uuid_string(self.next_id),
            title: question.title,
            description: question.description,
            created_at: hex16_string(self.next_id),
        };
        self.questions.push(d.clone());
        self.next_id = self.next_id + 1;
        proof {
            assert(self@ =~= q_create_post(pre@, d));
            lemma_create_q_wf(pre@, d);
        }
        Result::Ok(d)
    }

    fn delete_question(&mut self, question_uuid: String) -> (r: Result<(), DBError>) {
        let ghost pre = *self;
        if !validate_uuid(question_uuid.as_str()) {
            return Result::Err(DBError::InvalidUUID(malformed_uuid_message()));
        }
        let kept = keep_questions_except(&self.questions, &question_uuid);
        self.questions = kept;
        proof {
            assert(self@ =~= q_delete_post(pre@, question_uuid@));
            lemma_delete_q_wf(pre@, question_uuid@);
        }
        Result::Ok(())
    }

    fn get_questions(&self) -> (r: Result<Vec<QuestionDetail>, DBError>) {
        Result::Ok(copy_questions(&self.questions))
    }
}

impl AnswersDao for InMemoryStore {
    open spec fn model(&self) -> StoreModel {
        self@
    }

    fn create_answer(&mut self, answer: Answer) -> (r: Result<AnswerDetail, DBError>) {
        let ghost pre = *self;
        if !validate_uuid(answer.question_uuid.as_str()) {
            return Result::Err(DBError::InvalidUUID(malformed_uuid_message()));
        }
        if !find_question(&self.questions, &answer.question_uuid) {
            return Result::Err(DBError::InvalidUUID(unknown_question_message()));
        }
        proof {
            let w = choose|i: int|
                0 <= i < self.questions@.len() && (#[trigger] self.questions@[i]).question_uuid@
                    == answer.question_uuid@;
            assert(self@.questions[w].question_uuid@ == answer.question_uuid@);
            assert(has_question(self@, answer.question_uuid@));
        }
        if self.next_id == u64::MAX {
            return Result::Err(DBError::Other(exhausted_message()));
        }
        let d = AnswerDetail {
            answer_uuid: uuid_string(self.next_id),
            question_uuid: answer.question_uuid,
            content: answer.content,
            created_at: hex16_string(self.next_id),
        };
        self.answers.push(d.clone());
        self.next_id = self.next_id + 1;
        proof {
            assert(self@ =~= a_create_post(pre@, d));
            let i = choose|i: int|
                0 <= i < pre@.questions.len() && (#[trigger] pre@.questions[i]).question_uuid@
                    == d.question_uuid@;
            assert(id_from(pre@.questions[i].question_uuid@, pre@.next_id));
            lemma_create_a_wf(pre@, d);
        }
        Result::Ok(d)
    }

    fn delete_answer(&mut self, answer_uuid: String) -> (r: Result<(), DBError>) {
        let ghost pre = *self;
        if !validate_uuid(answer_uuid.as_str()) {
            return Result::Err(DBError::InvalidUUID(malformed_uuid_message()));
        }
        let kept = keep_answers_except(&self.answers, &answer_uuid);
        self.answers = kept;
        proof {
            assert(self@ =~= a_delete_post(pre@, answer_uuid@));
            lemma_delete_a_wf(pre@, answer_uuid@);
        }
        Result::Ok(())
    }

    fn get_answers(&self, question_uuid: String) -> (r: Result<Vec<AnswerDetail>, DBError>) {
        if !validate_uuid(question_uuid.as_str()) {
            return Result::Err(DBError::InvalidUUID(malformed_uuid_message()));
        }
        Result::Ok(answers_under(&self.answers, &question_uuid))
    }
}

} // verus!
