use qa_store::ids::validate_uuid;
use qa_store::models::{Answer, DBError, Question};
use qa_store::store::{AnswersDao, InMemoryStore, QuestionsDao};

fn question(title: &str, description: &str) -> Question {
    Question { title: title.to_string(), description: description.to_string() }
}

fn answer(question_uuid: &str, content: &str) -> Answer {
    Answer { question_uuid: question_uuid.to_string(), content: content.to_string() }
}

#[test]
fn round_trip_single_question() {
    let mut store = InMemoryStore::new();
    let created = store.create_question(question("T", "D")).unwrap();
    let listed = store.get_questions().unwrap();
    assert_eq!(listed.len(), 1);
    assert_eq!(listed[0].title, "T");
    assert_eq!(listed[0].description, "D");
    assert_eq!(listed[0].question_uuid, created.question_uuid);
    assert!(validate_uuid(&listed[0].question_uuid));
    assert!(!listed[0].created_at.is_empty());
}

#[test]
fn delete_question_twice_succeeds() {
    let mut store = InMemoryStore::new();
    let created = store.create_question(question("T", "D")).unwrap();
    assert!(store.delete_question(created.question_uuid.clone()).is_ok());
    assert!(store.delete_question(created.question_uuid.clone()).is_ok());
    assert!(store.get_questions().unwrap().is_empty());
}

#[test]
fn delete_absent_question_succeeds() {
    let mut store = InMemoryStore::new();
    let absent = "00000000-0000-0000-0000-00000000ffff".to_string();
    assert!(store.delete_question(absent).is_ok());
}

#[test]
fn delete_malformed_identifier_rejected() {
    let mut store = InMemoryStore::new();
    let r = store.delete_question("not-a-uuid".to_string());
    assert!(matches!(r, Err(DBError::InvalidUUID(_))));
    let r = store.delete_answer("not-a-uuid".to_string());
    assert!(matches!(r, Err(DBError::InvalidUUID(_))));
}

#[test]
fn answer_for_unknown_question_rejected() {
    let mut store = InMemoryStore::new();
    let never_created = "00000000-0000-0000-0000-0000deadbeef";
    let r = store.create_answer(answer(never_created, "hello"));
    assert!(matches!(r, Err(DBError::InvalidUUID(_))));
}

#[test]
fn answer_for_malformed_question_rejected() {
    let mut store = InMemoryStore::new();
    let r = store.create_answer(answer("xyz", "hello"));
    assert!(matches!(r, Err(DBError::InvalidUUID(_))));
}

#[test]
fn scoped_listing() {
    let mut store = InMemoryStore::new();
    let q1 = store.create_question(question("Q1", "first")).unwrap();
    let q2 = store.create_question(question("Q2", "second")).unwrap();
    let a1 = store.create_answer(answer(&q1.question_uuid, "under Q1")).unwrap();
    let under_q2 = store.get_answers(q2.question_uuid.clone()).unwrap();
    assert!(under_q2.is_empty());
    let under_q1 = store.get_answers(q1.question_uuid.clone()).unwrap();
    assert_eq!(under_q1.len(), 1);
    assert_eq!(under_q1[0].answer_uuid, a1.answer_uuid);
    assert_eq!(under_q1[0].question_uuid, q1.question_uuid);
    assert_eq!(under_q1[0].content, "under Q1");
}

#[test]
fn orphaned_answer_remains_after_question_delete() {
    let mut store = InMemoryStore::new();
    let q = store.create_question(question("Q", "doomed")).unwrap();
    let a = store.create_answer(answer(&q.question_uuid, "orphan")).unwrap();
    store.delete_question(q.question_uuid.clone()).unwrap();
    assert!(store.get_questions().unwrap().is_empty());
    let listed = store.get_answers(q.question_uuid.clone()).unwrap();
    assert_eq!(listed.len(), 1);
    assert_eq!(listed[0].answer_uuid, a.answer_uuid);
}

#[test]
fn identifiers_unique_across_collections() {
    let mut store = InMemoryStore::new();
    let q1 = store.create_question(question("A", "a")).unwrap();
    let q2 = store.create_question(question("B", "b")).unwrap();
    let a1 = store.create_answer(answer(&q1.question_uuid, "x")).unwrap();
    let a2 = store.create_answer(answer(&q1.question_uuid, "y")).unwrap();
    let ids = [
        q1.question_uuid.as_str(),
        q2.question_uuid.as_str(),
        a1.answer_uuid.as_str(),
        a2.answer_uuid.as_str(),
    ];
    for i in 0..ids.len() {
        assert!(validate_uuid(ids[i]));
        for j in 0..i {
            assert_ne!(ids[i], ids[j]);
        }
    }
}

#[test]
fn delete_answer_removes_only_that_answer() {
    let mut store = InMemoryStore::new();
    let q = store.create_question(question("Q", "q")).unwrap();
    let a1 = store.create_answer(answer(&q.question_uuid, "one")).unwrap();
    let a2 = store.create_answer(answer(&q.question_uuid, "two")).unwrap();
    store.delete_answer(a1.answer_uuid.clone()).unwrap();
    let listed = store.get_answers(q.question_uuid.clone()).unwrap();
    assert_eq!(listed.len(), 1);
    assert_eq!(listed[0].answer_uuid, a2.answer_uuid);
    store.delete_answer(a1.answer_uuid.clone()).unwrap();
}

#[test]
fn validate_uuid_cases() {
    assert!(validate_uuid("00000000-0000-0000-0000-000000000000"));
    assert!(validate_uuid("123e4567-e89b-12d3-a456-426614174000"));
    assert!(validate_uuid("123E4567-E89B-12D3-A456-426614174000"));
    assert!(!validate_uuid("not-a-uuid"));
    assert!(!validate_uuid(""));
    assert!(!validate_uuid("123e4567-e89b-12d3-a456-42661417400"));
    assert!(!validate_uuid("123e4567-e89b-12d3-a456-4266141740000"));
    assert!(!validate_uuid("123e4567ae89b-12d3-a456-426614174000"));
    assert!(!validate_uuid("123e4567-e89b-12d3-a456-42661417400g"));
    assert!(!validate_uuid("{123e4567-e89b-12d3-a456-426614174000}"));
}

#[test]
fn generated_identifier_format() {
    let mut store = InMemoryStore::new();
    let q = store.create_question(question("first", "row")).unwrap();
    assert_eq!(q.question_uuid, "00000000-0000-0000-0000-000000000000");
    let a = store.create_answer(answer(&q.question_uuid, "second row")).unwrap();
    assert_eq!(a.answer_uuid, "00000000-0000-0000-0000-000000000001");
    assert_eq!(q.created_at, "0000000000000000");
    assert_eq!(a.created_at, "0000000000000001");
}
