//! The command that a request carries, and the operations it can name.

use mongodb::bson::Document;
use mongodb::options::UpdateModifications;
use serde_json::Value;
use vstd::prelude::*;

verus! {

/// One request: what to do, where, and with what.
///
/// `operation` is free text; only `Operation::parse` decides whether it names
/// something the gateway can do. The optional fields are `None` when the
/// request left them out.
#[derive(Debug)]
pub struct MongoDbCommand {
    pub operation: String,
    pub collection: String,
    pub database: String,
    pub filter: Option<Document>,
    pub update: Option<UpdateModifications>,
    pub options: Option<Value>,
    pub document: Option<Value>,
}

/// The operations the gateway knows.
#[derive(Clone, Copy, Debug, PartialEq, Eq, Structural)]
pub enum Operation {
    InsertOne,
    FindOne,
    Find,
    FindAndModify,
}

impl Operation {
    /// The operation that `name` spells, letter for letter.
    pub open spec fn named(name: Seq<char>) -> Option<Operation> {
        if name == "insertOne"@ {
            Some(Operation::InsertOne)
        } else if name == "findOne"@ {
            Some(Operation::FindOne)
        } else if name == "find"@ {
            Some(Operation::Find)
        } else if name == "findAndModify"@ {
            Some(Operation::FindAndModify)
        } else {
            None
        }
    }

    /// Reads an operation name. Anything but the four exact names is `None`.
    pub fn parse(name: &str) -> (r: Option<Operation>)
        ensures
            r == Operation::named(name@),
    {
        let name = name.to_owned();
        if name == "insertOne".to_owned() {
            Some(Operation::InsertOne)
        } else if name == "findOne".to_owned() {
            Some(Operation::FindOne)
        } else if name == "find".to_owned() {
            Some(Operation::Find)
        } else if name == "findAndModify".to_owned() {
            Some(Operation::FindAndModify)
        } else {
            None
        }
    }
}

} // verus!
