use qa_store::handlers;
use qa_store::handlers_inner::{self, HandlerError};
use qa_store::handlers::APIError;
use qa_store::models::{classify_database_error, Answer, DBError, Question};
use qa_store::store::InMemoryStore;

fn question(title: &str, description: &str) -> Question {
    Question { title: title.to_string(), description: description.to_string() }
}

#[test]
fn classify_foreign_key_violation() {
    let r = classify_database_error(Some("23503".to_string()), "fk broken".to_string());
    assert!(matches!(r, DBError::InvalidUUID(m) if m == "fk broken"));
}

#[test]
fn classify_code_containing_foreign_key_class() {
    let r = classify_database_error(Some("xx23503yy".to_string()), "detail".to_string());
    assert!(matches!(r, DBError::InvalidUUID(m) if m == "detail"));
}

#[test]
fn classify_other_code() {
    let r = classify_database_error(Some("40001".to_string()), "serialization".to_string());
    assert!(matches!(r, DBError::Other(m) if m == "serialization"));
}

#[test]
fn classify_missing_code() {
    let r = classify_database_error(None, "connection lost".to_string());
    assert!(matches!(r, DBError::Other(m) if m == "connection lost"));
}

#[test]
fn handler_error_mapping() {
    let bad = handlers_inner::to_handler_error(DBError::InvalidUUID("why".to_string()));
    assert!(matches!(bad, HandlerError::BadRequest(m) if m == "why"));
    let internal = handlers_inner::to_handler_error(DBError::Other("boom".to_string()));
    assert!(matches!(internal, HandlerError::InternalError(m) if m == "boom"));
}

#[test]
fn api_error_mapping_and_status() {
    let bad = APIError::from(HandlerError::BadRequest("b".to_string()));
    assert_eq!(bad.status(), 400);
    assert_eq!(bad.body(), "b");
    let internal = APIError::from(HandlerError::InternalError("i".to_string()));
    assert_eq!(internal.status(), 500);
    assert_eq!(internal.body(), "i");
}

#[test]
fn handlers_round_trip() {
    let mut store = InMemoryStore::new();
    let d = handlers::create_question(question("T", "D"), &mut store).unwrap();
    let listed = handlers::read_questions(&store).unwrap();
    assert_eq!(listed.len(), 1);
    assert_eq!(listed[0].title, "T");
    assert_eq!(listed[0].description, "D");
    assert_eq!(listed[0].question_uuid, d.question_uuid);
}

#[test]
fn handlers_malformed_delete_is_bad_request() {
    let mut store = InMemoryStore::new();
    let r = handlers::delete_question("not-a-uuid".to_string(), &mut store);
    match r {
        Err(e) => {
            assert_eq!(e.status(), 400);
            assert_eq!(e.body(), "invalid identifier: expected a canonical hyphenated UUID string");
        },
        Ok(_) => panic!("malformed identifier must be rejected"),
    }
}

#[test]
fn handlers_unknown_reference_is_bad_request() {
    let mut store = InMemoryStore::new();
    let a = Answer {
        question_uuid: "00000000-0000-0000-0000-0000deadbeef".to_string(),
        content: "c".to_string(),
    };
    let r = handlers::create_answer(a, &mut store);
    match r {
        Err(e) => {
            assert_eq!(e.status(), 400);
            assert_eq!(
                e.body(),
                "foreign key violation: no question with the given identifier exists",
            );
        },
        Ok(_) => panic!("unknown question reference must be rejected"),
    }
}

#[test]
fn handlers_answers_flow() {
    let mut store = InMemoryStore::new();
    let q = handlers::create_question(question("Q", "D"), &mut store).unwrap();
    let a = Answer { question_uuid: q.question_uuid.clone(), content: "body".to_string() };
    let ad = handlers::create_answer(a, &mut store).unwrap();
    let listed = handlers::read_answers(q.question_uuid.clone(), &store).unwrap();
    assert_eq!(listed.len(), 1);
    assert_eq!(listed[0].answer_uuid, ad.answer_uuid);
    handlers::delete_answer(ad.answer_uuid.clone(), &mut store).unwrap();
    let listed = handlers::read_answers(q.question_uuid.clone(), &store).unwrap();
    assert!(listed.is_empty());
}
