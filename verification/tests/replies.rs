use mongo_gateway::command::Operation;
use mongo_gateway::dispatch::{drain, respond, respond_to, Draining, Outcome};
use mongo_gateway::reply::{
    envelope, rendered, RenderError, Response, STATUS_BAD_REQUEST, STATUS_CREATED,
    STATUS_INTERNAL_SERVER_ERROR, STATUS_NOT_FOUND, STATUS_OK,
};
use serde_json::Value;

fn parsed(text: &str) -> Value {
    serde_json::from_str(text).unwrap()
}

#[test]
fn status_codes_are_the_http_ones() {
    assert_eq!(STATUS_OK, 200);
    assert_eq!(STATUS_CREATED, 201);
    assert_eq!(STATUS_BAD_REQUEST, 400);
    assert_eq!(STATUS_NOT_FOUND, 404);
    assert_eq!(STATUS_INTERNAL_SERVER_ERROR, 500);
}

#[test]
fn envelope_holds_one_member() {
    let body = envelope("content", parsed(r#"{"a": [1, 2]}"#));
    assert_eq!(body, parsed(r#"{"content": {"a": [1, 2]}}"#));
    assert_eq!(body.as_object().unwrap().len(), 1);
    assert_eq!(envelope("k", Value::Null), parsed(r#"{"k": null}"#));
}

#[test]
fn insert_is_answered_with_201_and_the_acknowledgment() {
    let reply = respond(Outcome::Inserted(parsed(r#"{"insertedId": 17}"#)));
    assert_eq!(reply.status, 201);
    assert_eq!(reply.body, parsed(r#"{"content": {"insertedId": 17}}"#));
    assert_eq!(
        reply.body_text().unwrap(),
        r#"{"content":{"insertedId":17}}"#
    );
}

#[test]
fn find_one_without_match_is_answered_with_null() {
    let reply = respond(Outcome::Found(None));
    assert_eq!(reply.status, 200);
    assert_eq!(reply.body, parsed(r#"{"content": null}"#));
    assert_eq!(reply.body_text().unwrap(), r#"{"content":null}"#);
}

#[test]
fn find_one_is_answered_with_the_document() {
    let reply = respond(Outcome::Found(Some(parsed(r#"{"name": "x"}"#))));
    assert_eq!(reply.status, 200);
    assert_eq!(reply.body, parsed(r#"{"content": {"name": "x"}}"#));
    assert_eq!(reply.body_text().unwrap(), r#"{"content":{"name":"x"}}"#);
}

#[test]
fn find_one_twice_gives_the_same_reply() {
    let first = respond(Outcome::Found(Some(parsed(r#"{"name": "x", "n": 1}"#))));
    let second = respond(Outcome::Found(Some(parsed(r#"{"name": "x", "n": 1}"#))));
    assert_eq!(first.status, second.status);
    assert_eq!(first.body, second.body);
    assert_eq!(first.body_text().unwrap(), second.body_text().unwrap());
    let none = respond(Outcome::Found(None));
    let none_again = respond(Outcome::Found(None));
    assert_eq!(none.status, none_again.status);
    assert_eq!(none.body_text().unwrap(), none_again.body_text().unwrap());
}

#[test]
fn find_is_answered_with_the_documents_in_order() {
    let documents = vec![parsed(r#"{"n": 2}"#), parsed(r#"{"n": 1}"#), parsed(r#"{"n": 3}"#)];
    let reply = respond(Outcome::Listed(documents));
    assert_eq!(reply.status, 200);
    assert_eq!(
        reply.body_text().unwrap(),
        r#"{"content":[{"n":2},{"n":1},{"n":3}]}"#
    );
}

#[test]
fn find_without_match_is_answered_with_the_empty_list() {
    let reply = respond(Outcome::Listed(Vec::new()));
    assert_eq!(reply.status, 200);
    assert_eq!(reply.body, parsed(r#"{"content": []}"#));
    assert_eq!(reply.body_text().unwrap(), r#"{"content":[]}"#);
}

#[test]
fn find_reply_holds_as_many_documents_as_came() {
    let mut documents = Vec::new();
    for n in 0..100 {
        documents.push(Value::from(n));
    }
    let reply = respond(Outcome::Listed(documents));
    let listed = reply.body.get("content").unwrap().as_array().unwrap();
    assert_eq!(listed.len(), 100);
    assert_eq!(listed[0], Value::from(0));
    assert_eq!(listed[99], Value::from(99));
}

#[test]
fn modify_is_answered_with_the_document() {
    let reply = respond(Outcome::Modified(Some(parsed(r#"{"name": "x", "age": 3}"#))));
    assert_eq!(reply.status, 200);
    assert_eq!(reply.body, parsed(r#"{"content": {"name": "x", "age": 3}}"#));
}

#[test]
fn modify_without_match_is_answered_with_null() {
    let reply = respond(Outcome::Modified(None));
    assert_eq!(reply.status, 200);
    assert_eq!(reply.body_text().unwrap(), r#"{"content":null}"#);
}

#[test]
fn content_may_be_any_json_value() {
    let reply = Response::with_content(200, parsed(r#""plain""#));
    assert_eq!(reply.body_text().unwrap(), r#"{"content":"plain"}"#);
    let reply = Response::with_content(201, parsed("12"));
    assert_eq!(reply.status, 201);
    assert_eq!(reply.body_text().unwrap(), r#"{"content":12}"#);
}

#[test]
fn message_is_a_json_string() {
    let reply = Response::with_message(400, "update field is required");
    assert_eq!(reply.status, 400);
    assert_eq!(
        reply.body.get("message"),
        Some(&Value::String("update field is required".to_string()))
    );
    assert_eq!(reply.body.as_object().unwrap().len(), 1);
}

#[test]
fn message_is_escaped_in_the_text() {
    let reply = Response::with_message(404, "no \"such\" thing\n");
    assert_eq!(
        reply.body_text().unwrap(),
        r#"{"message":"no \"such\" thing\n"}"#
    );
}

#[test]
fn rendered_keeps_a_text() {
    assert_eq!(rendered(Ok("{}".to_string())), Ok("{}".to_string()));
    assert_eq!(rendered(Ok(String::new())), Ok(String::new()));
}

#[test]
fn rendered_reports_a_failure() {
    let failure = serde_json::from_str::<Value>("{").unwrap_err();
    assert_eq!(rendered(Err(failure)), Err(RenderError::Serialization));
}

#[test]
fn drain_puts_a_document_behind_the_others() {
    let listed = vec![parsed(r#"{"n": 2}"#), parsed(r#"{"n": 1}"#)];
    match drain(listed, Ok(Some(parsed(r#"{"n": 0}"#)))) {
        Draining::More(longer) => assert_eq!(
            longer,
            vec![parsed(r#"{"n": 2}"#), parsed(r#"{"n": 1}"#), parsed(r#"{"n": 0}"#)]
        ),
        other => panic!("expected a longer list, got {:?}", other),
    }
}

#[test]
fn drain_starts_from_the_empty_list() {
    match drain(Vec::new(), Ok(Some(Value::Null))) {
        Draining::More(longer) => assert_eq!(longer, vec![Value::Null]),
        other => panic!("expected a longer list, got {:?}", other),
    }
}

#[test]
fn drain_closes_the_list_at_the_end_of_the_cursor() {
    let listed = vec![parsed(r#"{"n": 2}"#), parsed(r#"{"n": 1}"#)];
    match drain(listed, Ok(None)) {
        Draining::Done(Outcome::Listed(documents)) => assert_eq!(
            documents,
            vec![parsed(r#"{"n": 2}"#), parsed(r#"{"n": 1}"#)]
        ),
        other => panic!("expected the listing, got {:?}", other),
    }
    assert!(matches!(
        drain(Vec::new(), Ok(None)),
        Draining::Done(Outcome::Listed(documents)) if documents.is_empty()
    ));
}

#[test]
fn drained_cursor_is_answered_in_its_order() {
    let mut listed = Vec::new();
    let mut cursor = vec![parsed("3"), parsed("1"), parsed("2")].into_iter();
    let outcome = loop {
        match drain(listed, Ok(cursor.next())) {
            Draining::More(longer) => listed = longer,
            Draining::Done(outcome) => break outcome,
        }
    };
    assert_eq!(respond(outcome).body_text().unwrap(), r#"{"content":[3,1,2]}"#);
}

#[test]
fn drain_ends_with_the_failure_of_a_look() {
    let listed = vec![parsed(r#"{"n": 2}"#), parsed(r#"{"n": 1}"#)];
    match drain(listed, Err("cursor lost".to_string())) {
        Draining::Done(Outcome::Failed(description)) => assert_eq!(description, "cursor lost"),
        other => panic!("expected a failure, got {:?}", other),
    }
    assert!(matches!(
        drain(Vec::new(), Err(String::new())),
        Draining::Done(Outcome::Failed(description)) if description.is_empty()
    ));
}

#[test]
fn broken_cursor_is_answered_with_500() {
    let mut listed = Vec::new();
    let mut looks = vec![Ok(Some(parsed("3"))), Err("connection reset".to_string())].into_iter();
    let outcome = loop {
        match drain(listed, looks.next().unwrap()) {
            Draining::More(longer) => listed = longer,
            Draining::Done(outcome) => break outcome,
        }
    };
    let reply = respond(outcome);
    assert_eq!(reply.status, 500);
    assert_eq!(reply.body_text().unwrap(), r#"{"message":"connection reset"}"#);
}

#[test]
fn failed_call_is_answered_with_500_and_its_description() {
    let reply = respond(Outcome::Failed("server selection timeout".to_string()));
    assert_eq!(reply.status, 500);
    assert_eq!(
        reply.body,
        parsed(r#"{"message": "server selection timeout"}"#)
    );
    assert_eq!(
        reply.body_text().unwrap(),
        r#"{"message":"server selection timeout"}"#
    );
}

#[test]
fn failed_call_with_an_empty_description_is_still_answered() {
    let reply = respond(Outcome::Failed(String::new()));
    assert_eq!(reply.status, 500);
    assert_eq!(reply.body_text().unwrap(), r#"{"message":""}"#);
}

#[test]
fn failure_answers_every_operation() {
    for operation in [
        Operation::InsertOne,
        Operation::FindOne,
        Operation::Find,
        Operation::FindAndModify,
    ] {
        let reply = respond_to(operation, Outcome::Failed("auth failed".to_string())).unwrap();
        assert_eq!(reply.status, 500);
        assert_eq!(reply.body_text().unwrap(), r#"{"message":"auth failed"}"#);
    }
}

#[test]
fn respond_to_answers_each_operation_with_its_own_outcome() {
    let reply = respond_to(Operation::InsertOne, Outcome::Inserted(parsed("1"))).unwrap();
    assert_eq!(reply.status, 201);
    assert_eq!(reply.body_text().unwrap(), r#"{"content":1}"#);
    let reply = respond_to(Operation::FindOne, Outcome::Found(None)).unwrap();
    assert_eq!(reply.status, 200);
    assert_eq!(reply.body_text().unwrap(), r#"{"content":null}"#);
    let reply = respond_to(Operation::FindOne, Outcome::Found(Some(parsed("2")))).unwrap();
    assert_eq!(reply.status, 200);
    assert_eq!(reply.body_text().unwrap(), r#"{"content":2}"#);
    let reply = respond_to(Operation::Find, Outcome::Listed(vec![parsed("3")])).unwrap();
    assert_eq!(reply.status, 200);
    assert_eq!(reply.body_text().unwrap(), r#"{"content":[3]}"#);
    let reply = respond_to(Operation::FindAndModify, Outcome::Modified(None)).unwrap();
    assert_eq!(reply.status, 200);
    assert_eq!(reply.body_text().unwrap(), r#"{"content":null}"#);
}

#[test]
fn respond_to_refuses_an_outcome_of_another_operation() {
    assert!(respond_to(Operation::InsertOne, Outcome::Found(Some(parsed("1")))).is_none());
    assert!(respond_to(Operation::InsertOne, Outcome::Modified(None)).is_none());
    assert!(respond_to(Operation::InsertOne, Outcome::Listed(Vec::new())).is_none());
    assert!(respond_to(Operation::FindOne, Outcome::Inserted(parsed("1"))).is_none());
    assert!(respond_to(Operation::FindOne, Outcome::Modified(None)).is_none());
    assert!(respond_to(Operation::FindOne, Outcome::Listed(Vec::new())).is_none());
    assert!(respond_to(Operation::Find, Outcome::Found(None)).is_none());
    assert!(respond_to(Operation::Find, Outcome::Inserted(parsed("1"))).is_none());
    assert!(respond_to(Operation::Find, Outcome::Modified(None)).is_none());
    assert!(respond_to(Operation::FindAndModify, Outcome::Found(None)).is_none());
    assert!(respond_to(Operation::FindAndModify, Outcome::Inserted(parsed("1"))).is_none());
    assert!(respond_to(Operation::FindAndModify, Outcome::Listed(Vec::new())).is_none());
}
