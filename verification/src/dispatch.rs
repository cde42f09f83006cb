//! The dispatcher: from a command to the database call it stands for, and from
//! what the database answered to the reply.
//!
//! The gateway never talks to the database here. `dispatch` decides what is to
//! be done, the caller does it, and `respond_to` turns the outcome into a
//! reply. A call that failed is an outcome like any other and has its reply.

use crate::backend::{document_keys, empty_document, no_keys};
use crate::clock::{is_utc_text, utc_now_text};
use crate::command::{MongoDbCommand, Operation};
use crate::json::{
    array_value, as_i64, as_object, clone_map, json_i64, json_shape, map_insert, member,
    member_of, null_value, object_value, text_value, JsonShape,
};
use crate::reply::{
    content_of, message_of, Response, STATUS_BAD_REQUEST, STATUS_CREATED,
    STATUS_INTERNAL_SERVER_ERROR, STATUS_NOT_FOUND, STATUS_OK,
};
use mongodb::bson::Document;
use mongodb::options::UpdateModifications;
use serde_json::Value;
use vstd::prelude::*;

verus! {

/// How many documents a `find` asks for when the command names no usable limit.
pub const DEFAULT_LIMIT: i64 = 100;

/// One call to the database.
#[derive(Debug)]
#[allow(inconsistent_fields)]
pub enum DbCall {
    /// Insert `document`.
    InsertOne { document: Value },
    /// Look up one document; without a filter, any document matches.
    FindOne { filter: Option<Document> },
    /// Look up at most `limit` documents, in the database's own order.
    Find { filter: Option<Document>, limit: i64 },
    /// Find one document and apply `update` to it in one step.
    FindOneAndUpdate { filter: Document, update: UpdateModifications },
}

/// What the gateway does next with a command.
#[derive(Debug)]
pub enum Step {
    /// Make `call` on the named collection, then answer with `respond_to`.
    Call { database: String, collection: String, call: DbCall },
    /// Answer at once; the database is not touched.
    Reply(Response),
    /// An insert whose document is missing or is no JSON object. There is no
    /// reply for it: the request cannot be served.
    NoDocument,
}

/// What the database answered to a call.
#[derive(Debug)]
pub enum Outcome {
    /// The acknowledgment of an insert, with the identifier it generated.
    Inserted(Value),
    /// The document a `FindOne` matched, if any.
    Found(Option<Value>),
    /// The documents a `Find` yielded, in the order they came.
    Listed(Vec<Value>),
    /// The document a `FindOneAndUpdate` matched, if any.
    Modified(Option<Value>),
    /// The call failed; the text describes the fault.
    Failed(String),
}

/// Where the draining of a `Find` cursor stands after one look at it.
#[derive(Debug)]
pub enum Draining {
    /// The cursor yielded a document; these are listed so far.
    More(Vec<Value>),
    /// The cursor is exhausted or broke down; this is what the database
    /// answered.
    Done(Outcome),
}

/// The limit of a `find`: the member `limit` of the options where it is a
/// number that `as_i64` reads as an integer, and `DEFAULT_LIMIT` in every
/// other case: no options, options that are no object, no such member, a
/// member that is no number, or a number that `as_i64` does not read.
pub open spec fn effective_limit(options: Option<Value>) -> i64 {
    match options {
        Some(given) => match member_of(given, "limit"@) {
            Some(limit) => if json_shape(limit) is Number {
                match json_i64(limit) {
                    Some(n) => n,
                    None => DEFAULT_LIMIT,
                }
            } else {
                DEFAULT_LIMIT
            },
            None => DEFAULT_LIMIT,
        },
        None => DEFAULT_LIMIT,
    }
}

/// `outcome` is an answer to a call that `operation` leads to. A failure
/// answers any call.
pub open spec fn pairs(operation: Operation, outcome: Outcome) -> bool {
    match (operation, outcome) {
        (_, Outcome::Failed(_)) => true,
        (Operation::InsertOne, Outcome::Inserted(_)) => true,
        (Operation::FindOne, Outcome::Found(_)) => true,
        (Operation::Find, Outcome::Listed(_)) => true,
        (Operation::FindAndModify, Outcome::Modified(_)) => true,
        _ => false,
    }
}

/// The operation that a call carries out.
pub open spec fn operation_of(call: DbCall) -> Operation {
    match call {
        DbCall::InsertOne { .. } => Operation::InsertOne,
        DbCall::FindOne { .. } => Operation::FindOne,
        DbCall::Find { .. } => Operation::Find,
        DbCall::FindOneAndUpdate { .. } => Operation::FindAndModify,
    }
}

/// `after` holds what `before` held, with `createdAt` and `updatedAt` set to
/// the JSON strings `created` and `updated`.
pub open spec fn stamped(
    before: Map<Seq<char>, Value>,
    created: Seq<char>,
    updated: Seq<char>,
    after: Map<Seq<char>, Value>,
) -> bool {
    &&& after.dom() =~= before.dom().insert("createdAt"@).insert("updatedAt"@)
    &&& json_shape(after["createdAt"@]) == JsonShape::Text(created)
    &&& json_shape(after["updatedAt"@]) == JsonShape::Text(updated)
    &&& forall|key: Seq<char>|
        before.dom().contains(key) && key != "createdAt"@ && key != "updatedAt"@
            ==> #[trigger] after[key] == before[key]
}

/// `stored` is the object `document` with both timestamps set.
pub open spec fn stamped_document(
    document: Value,
    created: Seq<char>,
    updated: Seq<char>,
    stored: Value,
) -> bool {
    &&& json_shape(document) matches JsonShape::Object(before)
    &&& json_shape(stored) matches JsonShape::Object(after)
    &&& stamped(before, created, updated, after)
}

/// `step` is what the command asks for, `created` and `updated` being the
/// times read for an insert.
pub open spec fn plan_holds(
    command: MongoDbCommand,
    created: Seq<char>,
    updated: Seq<char>,
    step: Step,
) -> bool {
    match Operation::named(command.operation@) {
        None => {
            &&& step matches Step::Reply(reply)
            &&& reply.status == STATUS_NOT_FOUND
            &&& message_of(reply.body) == Some("Invalid operation"@)
        },
        Some(Operation::InsertOne) => match command.document {
            Some(given) if json_shape(given) is Object => {
                &&& step matches Step::Call { database, collection, call }
                &&& database == command.database
                &&& collection == command.collection
                &&& call matches DbCall::InsertOne { document }
                &&& stamped_document(given, created, updated, document)
            },
            _ => step is NoDocument,
        },
        Some(Operation::FindOne) => {
            &&& step matches Step::Call { database, collection, call }
            &&& database == command.database
            &&& collection == command.collection
            &&& call matches DbCall::FindOne { filter }
            &&& filter == command.filter
        },
        Some(Operation::Find) => {
            &&& step matches Step::Call { database, collection, call }
            &&& database == command.database
            &&& collection == command.collection
            &&& call matches DbCall::Find { filter, limit }
            &&& filter == command.filter
            &&& limit == effective_limit(command.options)
        },
        Some(Operation::FindAndModify) => match command.update {
            None => {
                &&& step matches Step::Reply(reply)
                &&& reply.status == STATUS_BAD_REQUEST
                &&& message_of(reply.body) == Some("update field is required"@)
            },
            Some(given) => {
                &&& step matches Step::Call { database, collection, call }
                &&& database == command.database
                &&& collection == command.collection
                &&& call matches DbCall::FindOneAndUpdate { filter, update }
                &&& update == given
                &&& match command.filter {
                    Some(wanted) => filter == wanted,
                    None => document_keys(filter) == no_keys(),
                }
            },
        },
    }
}

/// `reply` is the answer to `outcome`: 201 for an insert and 200 for the
/// other results, with the result as content. A lookup that matched nothing
/// has JSON null as content, and a listing has the array of its documents. A
/// failed call is answered with 500 and the description of the fault as
/// message.
pub open spec fn reply_holds(outcome: Outcome, reply: Response) -> bool {
    match outcome {
        Outcome::Inserted(acknowledgment) => {
            &&& reply.status == STATUS_CREATED
            &&& content_of(reply.body) == Some(acknowledgment)
        },
        Outcome::Found(Some(document)) | Outcome::Modified(Some(document)) => {
            &&& reply.status == STATUS_OK
            &&& content_of(reply.body) == Some(document)
        },
        Outcome::Found(None) | Outcome::Modified(None) => {
            &&& reply.status == STATUS_OK
            &&& content_of(reply.body) matches Some(content)
            &&& json_shape(content) == JsonShape::Null
        },
        Outcome::Listed(documents) => {
            &&& reply.status == STATUS_OK
            &&& content_of(reply.body) matches Some(content)
            &&& json_shape(content) == JsonShape::Array(documents@)
        },
        Outcome::Failed(description) => {
            &&& reply.status == STATUS_INTERNAL_SERVER_ERROR
            &&& message_of(reply.body) == Some(description@)
        },
    }
}

/// Reads the limit of a `find` from the command's options.
pub fn find_limit(options: &Option<Value>) -> (r: i64)
    ensures
        r == effective_limit(*options),
{
    match options {
        Some(given) => match member(given, "limit") {
            Some(limit) => match as_i64(limit) {
                Some(n) => n,
                None => DEFAULT_LIMIT,
            },
            None => DEFAULT_LIMIT,
        },
        None => DEFAULT_LIMIT,
    }
}

/// Sets `createdAt` and `updatedAt` on a copy of `document`. `None` when
/// `document` is no JSON object.
pub fn stamp(document: &Value, created: String, updated: String) -> (r: Option<Value>)
    ensures
        match r {
            Some(stored) => stamped_document(*document, created@, updated@, stored),
            None => !(json_shape(*document) is Object),
        },
{
    match as_object(document) {
        None => None,
        Some(fields) => {
            let mut copy = clone_map(fields);
            map_insert(&mut copy, "createdAt".to_owned(), text_value(created));
            map_insert(&mut copy, "updatedAt".to_owned(), text_value(updated));
            proof {
                // The second insert leaves the first alone: the keys differ.
                reveal_strlit("createdAt");
                reveal_strlit("updatedAt");
                assert("createdAt"@[0] != "updatedAt"@[0]);
            }
            Some(object_value(copy))
        },
    }
}

/// Decides what a command asks for. `created` and `updated` are the
/// timestamps for the case that it is an insert.
pub fn plan(command: MongoDbCommand, created: String, updated: String) -> (step: Step)
    ensures
        plan_holds(command, created@, updated@, step),
{
    let MongoDbCommand { operation, collection, database, filter, update, options, document } =
        command;
    match Operation::parse(operation.as_str()) {
        None => Step::Reply(Response::with_message(STATUS_NOT_FOUND, "Invalid operation")),
        Some(Operation::InsertOne) => match document {
            None => Step::NoDocument,
            Some(given) => match stamp(&given, created, updated) {
                None => Step::NoDocument,
                Some(stored) => Step::Call {
                    database,
                    collection,
                    call: DbCall::InsertOne { document: stored },
                },
            },
        },
        Some(Operation::FindOne) => Step::Call {
            database,
            collection,
            call: DbCall::FindOne { filter },
        },
        Some(Operation::Find) => {
            let limit = find_limit(&options);
            Step::Call { database, collection, call: DbCall::Find { filter, limit } }
        },
        Some(Operation::FindAndModify) => match update {
            None => Step::Reply(
                Response::with_message(STATUS_BAD_REQUEST, "update field is required"),
            ),
            Some(given) => {
                let filter = match filter {
                    Some(wanted) => wanted,
                    None => empty_document(),
                };
                Step::Call {
                    database,
                    collection,
                    call: DbCall::FindOneAndUpdate { filter, update: given },
                }
            },
        },
    }
}

/// Decides what a command asks for, reading the clock where the command is an
/// insert: once for `createdAt`, once more for `updatedAt`. Both are then
/// times in UTC.
pub fn dispatch(command: MongoDbCommand) -> (step: Step)
    ensures
        exists|created: Seq<char>, updated: Seq<char>|
            {
                &&& #[trigger] plan_holds(command, created, updated, step)
                &&& Operation::named(command.operation@) == Some(Operation::InsertOne)
                    ==> is_utc_text(created) && is_utc_text(updated)
            },
{
    match Operation::parse(command.operation.as_str()) {
        Some(Operation::InsertOne) => {
            let created = utc_now_text();
            let updated = utc_now_text();
            plan(command, created, updated)
        },
        _ => plan(command, String::new(), String::new()),
    }
}

/// Takes what one look at the cursor of a `Find` gave. A document goes
/// behind those already listed; the end of the cursor closes the list. Nothing
/// is dropped, and nothing changes its place. A look that failed ends the
/// listing with that failure.
pub fn drain(listed: Vec<Value>, looked: Result<Option<Value>, String>) -> (r: Draining)
    ensures
        match looked {
            Ok(Some(document)) => r matches Draining::More(longer) && longer@ == listed@.push(
                document,
            ),
            Ok(None) => r == Draining::Done(Outcome::Listed(listed)),
            Err(description) => r == Draining::Done(Outcome::Failed(description)),
        },
{
    match looked {
        Ok(Some(document)) => {
            let mut longer = listed;
            longer.push(document);
            Draining::More(longer)
        },
        Ok(None) => Draining::Done(Outcome::Listed(listed)),
        Err(description) => Draining::Done(Outcome::Failed(description)),
    }
}

/// The reply to what the database answered.
pub fn respond(outcome: Outcome) -> (reply: Response)
    ensures
        reply_holds(outcome, reply),
{
    match outcome {
        Outcome::Inserted(acknowledgment) => Response::with_content(
            STATUS_CREATED,
            acknowledgment,
        ),
        Outcome::Found(Some(document)) => Response::with_content(STATUS_OK, document),
        Outcome::Modified(Some(document)) => Response::with_content(STATUS_OK, document),
        Outcome::Found(None) => Response::with_content(STATUS_OK, null_value()),
        Outcome::Modified(None) => Response::with_content(STATUS_OK, null_value()),
        Outcome::Listed(documents) => Response::with_content(STATUS_OK, array_value(documents)),
        Outcome::Failed(description) => Response::with_message(
            STATUS_INTERNAL_SERVER_ERROR,
            description.as_str(),
        ),
    }
}

/// The reply to what the database answered to a call for `operation`. `None`
/// where `outcome` is no answer to such a call: an acknowledgment is no
/// answer to a lookup, nor a document to an insert.
pub fn respond_to(operation: Operation, outcome: Outcome) -> (reply: Option<Response>)
    ensures
        match reply {
            Some(reply) => pairs(operation, outcome) && reply_holds(outcome, reply),
            None => !pairs(operation, outcome),
        },
{
    let paired = match (operation, &outcome) {
        (_, Outcome::Failed(_)) => true,
        (Operation::InsertOne, Outcome::Inserted(_)) => true,
        (Operation::FindOne, Outcome::Found(_)) => true,
        (Operation::Find, Outcome::Listed(_)) => true,
        (Operation::FindAndModify, Outcome::Modified(_)) => true,
        _ => false,
    };
    if paired {
        Some(respond(outcome))
    } else {
        None
    }
}

impl DbCall {
    /// The operation that this call carries out.
    pub fn operation(&self) -> (r: Operation)
        ensures
            r == operation_of(*self),
    {
        match self {
            DbCall::InsertOne { .. } => Operation::InsertOne,
            DbCall::FindOne { .. } => Operation::FindOne,
            DbCall::Find { .. } => Operation::Find,
            DbCall::FindOneAndUpdate { .. } => Operation::FindAndModify,
        }
    }
}

} // verus!
