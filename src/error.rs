use vstd::prelude::*;

verus! {

/// Relies on `neo4rs::Error` only as a type: the store driver's error is
/// carried, unread, as the cause of an import failure.
#[verifier::external_type_specification]
#[verifier::external_body]
pub struct ExStoreError(neo4rs::Error);

/// Why an import step failed, naming the declaration or stage involved and
/// carrying the store's own error as the cause.
#[derive(Debug)]
pub enum ImportError {
    /// A uniqueness constraint could not be declared.
    ConstraintCreation { node: String, prop: String, source: neo4rs::Error },
    /// A secondary index could not be declared.
    IndexCreation { node: String, prop: String, source: neo4rs::Error },
    /// A load stage failed.
    DataImport { name: String, source: neo4rs::Error },
    /// The store could not be reached or the presence probe failed.
    Connection(neo4rs::Error),
}

} // verus!
