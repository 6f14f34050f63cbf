//! Laws of the store, stated over the model transitions that the
//! adapter contracts use, and proved once and for all.

use vstd::prelude::*;
use crate::ids::{is_uuid_text, lemma_uuid_text_injective, lemma_uuid_text_valid};
use crate::models::{Answer, AnswerDetail, Question, QuestionDetail};
use crate::seq_facts::{lemma_filter_idempotent, lemma_filter_none, lemma_filter_push};
use crate::store::{
    a_create_post, a_created, answers_for, can_assign, for_q, has_question, keeps_q,
    lemma_fresh, lemma_id_from_mono, q_create_post, q_created, q_delete_post, store_wf, StoreModel,
};

verus! {

/// Round trip: creating a question in a store that holds none yields a
/// store whose listing is exactly that one record, carrying the
/// submitted title and description, a syntactically valid identifier,
/// and a non-empty creation stamp.
pub proof fn round_trip(m: StoreModel, question: Question, d: QuestionDetail)
    requires
        store_wf(m),
        m.questions.len() == 0,
        can_assign(m),
        q_created(m, question, d),
    ensures
        q_create_post(m, d).questions =~= seq![d],
        d.title@ == question.title@,
        d.description@ == question.description@,
        is_uuid_text(d.question_uuid@),
        d.created_at@.len() > 0,
{
    lemma_uuid_text_valid(m.next_id);
}

/// Delete idempotence: deleting a question identifier leaves the store
/// without that question, and deleting it again leaves exactly the
/// state that deleting it once left, so the second delete succeeds as
/// a silent no-op.
pub proof fn delete_question_idempotent(m: StoreModel, id: Seq<char>)
    ensures
        q_delete_post(q_delete_post(m, id), id) == q_delete_post(m, id),
        !has_question(q_delete_post(m, id), id),
{
    lemma_filter_idempotent(m.questions, keeps_q(id));
    assert(q_delete_post(q_delete_post(m, id), id) =~= q_delete_post(m, id));
    if has_question(q_delete_post(m, id), id) {
        let i = choose|i: int|
            0 <= i < q_delete_post(m, id).questions.len() && (#[trigger] q_delete_post(
                m,
                id,
            ).questions[i]).question_uuid@ == id;
        m.questions.lemma_filter_pred(keeps_q(id), i);
    }
}

/// Scoped listing: after creating two questions and one answer under
/// the first, listing by the second question's identifier yields
/// nothing and listing by the first yields exactly that answer —
/// whatever the store already held, since both identifiers are fresh.
pub proof fn scoped_listing(
    m: StoreModel,
    q1: Question,
    d1: QuestionDetail,
    q2: Question,
    d2: QuestionDetail,
    a: Answer,
    ad: AnswerDetail,
)
    requires
        store_wf(m),
        can_assign(m),
        q_created(m, q1, d1),
        can_assign(q_create_post(m, d1)),
        q_created(q_create_post(m, d1), q2, d2),
        can_assign(q_create_post(q_create_post(m, d1), d2)),
        a_created(q_create_post(q_create_post(m, d1), d2), a, ad),
        a.question_uuid@ == d1.question_uuid@,
    ensures
        answers_for(
            a_create_post(q_create_post(q_create_post(m, d1), d2), ad),
            d2.question_uuid@,
        ) =~= Seq::<AnswerDetail>::empty(),
        answers_for(
            a_create_post(q_create_post(q_create_post(m, d1), d2), ad),
            d1.question_uuid@,
        ) =~= seq![ad],
{
    let m1 = q_create_post(m, d1);
    let m2 = q_create_post(m1, d2);
    let m3 = a_create_post(m2, ad);
    assert(m3.answers == m.answers.push(ad));
    assert(d1.question_uuid@ != d2.question_uuid@) by {
        if d1.question_uuid@ == d2.question_uuid@ {
            lemma_uuid_text_injective(m.next_id, (m.next_id + 1) as u64);
        }
    }
    assert forall|j: int| 0 <= j < m.answers.len() implies (#[trigger] m.answers[j]).question_uuid@
        != d1.question_uuid@ && m.answers[j].question_uuid@ != d2.question_uuid@ by {
        lemma_fresh(m.answers[j].question_uuid@, m.next_id);
        lemma_id_from_mono(m.answers[j].question_uuid@, m.next_id, (m.next_id + 1) as u64);
        lemma_fresh(m.answers[j].question_uuid@, (m.next_id + 1) as u64);
    }
    lemma_filter_push(m.answers, for_q(d2.question_uuid@), ad);
    lemma_filter_none(m.answers, for_q(d2.question_uuid@));
    lemma_filter_push(m.answers, for_q(d1.question_uuid@), ad);
    lemma_filter_none(m.answers, for_q(d1.question_uuid@));
    assert(answers_for(m3, d1.question_uuid@) =~= seq![ad]);
}

/// Orphan read: creating an answer under a question and then deleting
/// that question leaves the answer stored — deletion does not cascade —
/// so listing by the deleted question's identifier still yields the
/// answer, although the question itself is gone.
pub proof fn orphan_read(m: StoreModel, a: Answer, ad: AnswerDetail)
    requires
        store_wf(m),
        can_assign(m),
        a_created(m, a, ad),
    ensures
        !has_question(
            q_delete_post(a_create_post(m, ad), ad.question_uuid@),
            ad.question_uuid@,
        ),
        answers_for(q_delete_post(a_create_post(m, ad), ad.question_uuid@), ad.question_uuid@)
            =~= answers_for(m, ad.question_uuid@).push(ad),
{
    let qid = ad.question_uuid@;
    let m1 = a_create_post(m, ad);
    let m2 = q_delete_post(m1, qid);
    assert(m2.answers == m.answers.push(ad));
    lemma_filter_push(m.answers, for_q(qid), ad);
    if has_question(m2, qid) {
        let i = choose|i: int|
            0 <= i < m2.questions.len() && (#[trigger] m2.questions[i]).question_uuid@ == qid;
        m1.questions.lemma_filter_pred(keeps_q(qid), i);
    }
}

} // verus!
