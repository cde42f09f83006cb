//! The database driver's own types that a command carries to the database
//! untouched: query filters and update descriptions.

use mongodb::bson::Document;
use vstd::prelude::*;

verus! {

/// `bson::Document`, a query filter.
#[verifier::external_type_specification]
#[verifier::external_body]
pub struct ExDocument(mongodb::bson::Document);

/// `mongodb::options::UpdateModifications`, what an update does to a document.
#[verifier::external_type_specification]
#[verifier::external_body]
pub struct ExUpdateModifications(mongodb::options::UpdateModifications);

/// The keys of a BSON document, in the document's order.
pub uninterp spec fn document_keys(d: Document) -> Seq<Seq<char>>;

/// `bson::Document::new`: a document without entries, the filter that matches
/// every stored document.
#[verifier::external_body]
pub(crate) fn empty_document() -> (r: Document)
    ensures
        document_keys(r) == no_keys(),
{
    Document::new()
}

/// The keys of a document that holds nothing.
pub open spec fn no_keys() -> Seq<Seq<char>> {
    Seq::empty()
}

} // verus!
