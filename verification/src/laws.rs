//! What holds of every command and every outcome, stated over the relations
//! that `plan`, `dispatch` and `respond` guarantee.

use crate::command::{MongoDbCommand, Operation};
use crate::dispatch::{
    effective_limit, operation_of, pairs, plan_holds, reply_holds, DbCall, Outcome, Step,
    DEFAULT_LIMIT,
};
use crate::json::{json_i64, json_shape, member_of, JsonShape};
use crate::reply::{
    content_of, message_of, Response, STATUS_BAD_REQUEST, STATUS_CREATED,
    STATUS_INTERNAL_SERVER_ERROR, STATUS_NOT_FOUND, STATUS_OK,
};
use serde_json::Value;
use vstd::prelude::*;

verus! {

/// The document that `step` hands to the database for insertion.
pub open spec fn inserted_document(step: Step) -> Option<Value> {
    match step {
        Step::Call { call: DbCall::InsertOne { document }, .. } => Some(document),
        _ => None,
    }
}

/// The limit that `step` hands to the database for a listing.
pub open spec fn requested_limit(step: Step) -> Option<i64> {
    match step {
        Step::Call { call: DbCall::Find { limit, .. }, .. } => Some(limit),
        _ => None,
    }
}

/// An insert of a JSON object stores that object with `createdAt` and
/// `updatedAt` set to the two times read for it, as JSON strings, and with
/// every other member as the command gave it.
pub proof fn insert_stores_both_timestamps(
    command: MongoDbCommand,
    created: Seq<char>,
    updated: Seq<char>,
    step: Step,
)
    requires
        plan_holds(command, created, updated, step),
        Operation::named(command.operation@) == Some(Operation::InsertOne),
        command.document matches Some(given) && json_shape(given) is Object,
    ensures
        inserted_document(step) matches Some(stored) && {
            &&& member_of(stored, "createdAt"@) matches Some(stamp)
                && json_shape(stamp) == JsonShape::Text(created)
            &&& member_of(stored, "updatedAt"@) matches Some(stamp)
                && json_shape(stamp) == JsonShape::Text(updated)
            &&& forall|key: Seq<char>|
                key != "createdAt"@ && key != "updatedAt"@ ==> #[trigger] member_of(stored, key)
                    == member_of(command.document->Some_0, key)
        },
{
}

/// The reply to an insert has status 201 and carries the database's
/// acknowledgment, generated identifier included, as its content.
pub proof fn insert_reply_carries_acknowledgment(acknowledgment: Value, reply: Response)
    requires
        reply_holds(Outcome::Inserted(acknowledgment), reply),
    ensures
        reply.status == STATUS_CREATED,
        content_of(reply.body) == Some(acknowledgment),
{
}

/// The member `limit` of a command's options, where there are options and
/// they are an object with such a member.
pub open spec fn limit_member(options: Option<Value>) -> Option<Value> {
    match options {
        Some(given) => member_of(given, "limit"@),
        None => None,
    }
}

/// A `find` asks the database for the effective limit: for 100 documents
/// where the command has no options, where the options are no object or have
/// no member `limit`, and where that member is no number; for what `as_i64`
/// makes of the member where it is a number, and for 100 where `as_i64` makes
/// nothing of it.
pub proof fn find_asks_for_effective_limit(
    command: MongoDbCommand,
    created: Seq<char>,
    updated: Seq<char>,
    step: Step,
)
    requires
        plan_holds(command, created, updated, step),
        Operation::named(command.operation@) == Some(Operation::Find),
    ensures
        requested_limit(step) == Some(effective_limit(command.options)),
        command.options is None ==> limit_member(command.options) is None,
        command.options matches Some(given) && !(json_shape(given) is Object) ==> limit_member(
            command.options,
        ) is None,
        match limit_member(command.options) {
            None => requested_limit(step) == Some(DEFAULT_LIMIT),
            Some(limit) => if json_shape(limit) is Number {
                requested_limit(step) == Some(
                    match json_i64(limit) {
                        Some(n) => n,
                        None => DEFAULT_LIMIT,
                    },
                )
            } else {
                requested_limit(step) == Some(DEFAULT_LIMIT)
            },
        },
{
}

/// The reply to a listing holds the documents that the database yielded, all
/// of them and in their order. So it holds no more documents than the
/// database yielded.
pub proof fn listing_reply_keeps_every_document(documents: Vec<Value>, reply: Response)
    requires
        reply_holds(Outcome::Listed(documents), reply),
    ensures
        reply.status == STATUS_OK,
        content_of(reply.body) matches Some(content) && json_shape(content) == JsonShape::Array(
            documents@,
        ),
{
}

/// What is listed once `drain` has taken the documents of `yielded` one after
/// the other, starting from `listed`.
pub open spec fn drained(listed: Seq<Value>, yielded: Seq<Value>) -> Seq<Value>
    decreases yielded.len(),
{
    if yielded.len() == 0 {
        listed
    } else {
        drained(listed.push(yielded.first()), yielded.drop_first())
    }
}

/// Draining a cursor lists what was listed before and then every document
/// the cursor yielded, each once and in the order it came.
pub proof fn draining_keeps_every_document_in_order(listed: Seq<Value>, yielded: Seq<Value>)
    ensures
        drained(listed, yielded) == listed + yielded,
    decreases yielded.len(),
{
    if yielded.len() == 0 {
        assert(listed + yielded =~= listed);
    } else {
        draining_keeps_every_document_in_order(
            listed.push(yielded.first()),
            yielded.drop_first(),
        );
        assert(listed.push(yielded.first()) + yielded.drop_first() =~= listed + yielded);
    }
}

/// Where the database kept to the limit it was asked for, the reply to a
/// `find` lists no more documents than that limit.
pub proof fn listing_stays_within_limit(
    command: MongoDbCommand,
    created: Seq<char>,
    updated: Seq<char>,
    step: Step,
    documents: Vec<Value>,
    reply: Response,
)
    requires
        plan_holds(command, created, updated, step),
        Operation::named(command.operation@) == Some(Operation::Find),
        requested_limit(step) matches Some(limit) && documents@.len() <= limit,
        reply_holds(Outcome::Listed(documents), reply),
    ensures
        content_of(reply.body) matches Some(content) && json_shape(content) matches JsonShape::Array(
            listed,
        ) && listed.len() <= effective_limit(command.options),
{
}

/// A lookup that matched nothing is answered with status 200 and JSON null as
/// content.
pub proof fn unmatched_lookup_replies_null(reply: Response)
    requires
        reply_holds(Outcome::Found(None), reply),
    ensures
        reply.status == STATUS_OK,
        content_of(reply.body) matches Some(content) && json_shape(content) == JsonShape::Null,
{
}

/// A `findAndModify` without an update is answered at once with status 400
/// and the message `update field is required`, whatever its filter and other
/// fields hold. No database call is made.
pub proof fn modify_without_update_is_rejected(
    command: MongoDbCommand,
    created: Seq<char>,
    updated: Seq<char>,
    step: Step,
)
    requires
        plan_holds(command, created, updated, step),
        Operation::named(command.operation@) == Some(Operation::FindAndModify),
        command.update is None,
    ensures
        !(step is Call),
        step matches Step::Reply(reply) && reply.status == STATUS_BAD_REQUEST && message_of(
            reply.body,
        ) == Some("update field is required"@),
{
}

/// A command whose operation is none of the four known names is answered at
/// once with status 404 and the message `Invalid operation`. No database call
/// is made.
pub proof fn unknown_operation_is_not_found(
    command: MongoDbCommand,
    created: Seq<char>,
    updated: Seq<char>,
    step: Step,
)
    requires
        plan_holds(command, created, updated, step),
        command.operation@ != "insertOne"@,
        command.operation@ != "findOne"@,
        command.operation@ != "find"@,
        command.operation@ != "findAndModify"@,
    ensures
        !(step is Call),
        step matches Step::Reply(reply) && reply.status == STATUS_NOT_FOUND && message_of(
            reply.body,
        ) == Some("Invalid operation"@),
{
}

/// A reply that is made without a database call is a rejection: its status is
/// 400 or 404.
pub proof fn immediate_reply_is_a_rejection(
    command: MongoDbCommand,
    created: Seq<char>,
    updated: Seq<char>,
    step: Step,
)
    requires
        plan_holds(command, created, updated, step),
    ensures
        step matches Step::Reply(reply) ==> reply.status == STATUS_BAD_REQUEST || reply.status
            == STATUS_NOT_FOUND,
{
}

/// The status of a reply follows from what the database answered: 201 for
/// an acknowledged insert, 200 for a lookup, a listing or an update, 500 for
/// a failed call. With the two rejections these are all the statuses there
/// are. A result travels as content, a failure as message.
pub proof fn reply_status_follows_outcome(outcome: Outcome, reply: Response)
    requires
        reply_holds(outcome, reply),
    ensures
        reply.status == match outcome {
            Outcome::Inserted(_) => STATUS_CREATED,
            Outcome::Failed(_) => STATUS_INTERNAL_SERVER_ERROR,
            _ => STATUS_OK,
        },
        outcome is Failed ==> message_of(reply.body) is Some,
        !(outcome is Failed) ==> content_of(reply.body) is Some,
{
}

/// A database call that failed is answered all the same: with status 500 and
/// the description of the fault as message, whatever the call was.
pub proof fn failed_call_replies_with_its_description(
    operation: Operation,
    description: String,
    reply: Response,
)
    requires
        reply_holds(Outcome::Failed(description), reply),
    ensures
        pairs(operation, Outcome::Failed(description)),
        reply.status == STATUS_INTERNAL_SERVER_ERROR,
        message_of(reply.body) == Some(description@),
{
}

/// The call that a command leads to carries out the operation that the
/// command names.
pub proof fn planned_call_carries_out_the_operation(
    command: MongoDbCommand,
    created: Seq<char>,
    updated: Seq<char>,
    step: Step,
)
    requires
        plan_holds(command, created, updated, step),
    ensures
        step matches Step::Call { call, .. } ==> Operation::named(command.operation@) == Some(
            operation_of(call),
        ),
{
}

/// Of the answers to its call, an insert that did not fail is the only one
/// that is answered with 201, and it always is; every other operation that did
/// not fail is answered with 200.
pub proof fn paired_reply_has_the_status_of_its_operation(
    operation: Operation,
    outcome: Outcome,
    reply: Response,
)
    requires
        pairs(operation, outcome),
        reply_holds(outcome, reply),
        !(outcome is Failed),
    ensures
        reply.status == if operation == Operation::InsertOne {
            STATUS_CREATED
        } else {
            STATUS_OK
        },
{
}

/// Only an insert depends on the clock: what any other command asks for is
/// the same at every time.
pub proof fn only_inserts_read_the_clock(
    command: MongoDbCommand,
    created: Seq<char>,
    updated: Seq<char>,
    later_created: Seq<char>,
    later_updated: Seq<char>,
    step: Step,
)
    requires
        plan_holds(command, created, updated, step),
        Operation::named(command.operation@) != Some(Operation::InsertOne),
    ensures
        plan_holds(command, later_created, later_updated, step),
{
}

/// A `findOne` always leads to the same database call: on the collection the
/// command names, with the filter the command gives.
pub proof fn lookup_plan_is_repeatable(
    command: MongoDbCommand,
    created: Seq<char>,
    updated: Seq<char>,
    first: Step,
    later_created: Seq<char>,
    later_updated: Seq<char>,
    second: Step,
)
    requires
        Operation::named(command.operation@) == Some(Operation::FindOne),
        plan_holds(command, created, updated, first),
        plan_holds(command, later_created, later_updated, second),
    ensures
        first == second,
{
}

/// Two replies to the same outcome of a lookup have the same status and the
/// same kind of content: the matched document itself, or JSON null.
pub proof fn lookup_reply_is_repeatable(found: Option<Value>, first: Response, second: Response)
    requires
        reply_holds(Outcome::Found(found), first),
        reply_holds(Outcome::Found(found), second),
    ensures
        first.status == second.status,
        found is Some ==> content_of(first.body) == content_of(second.body),
        found is None ==> json_shape(content_of(first.body)->Some_0) == json_shape(
            content_of(second.body)->Some_0,
        ),
{
}

} // verus!
