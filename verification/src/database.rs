use vstd::prelude::*;

verus! {

/// `mongodb::Client`, a handle to a database cluster.
#[verifier::external_type_specification]
#[verifier::external_body]
pub struct ExClient(mongodb::Client);

/// `mongodb::Collection`, a handle to one collection of documents read as `T`.
#[verifier::external_type_specification]
#[verifier::external_body]
#[verifier::reject_recursive_types(T)]
pub struct ExCollection<T: Send + Sync>(mongodb::Collection<T>);

/// `mongodb::bson::Document`, a document in the store's own form.
#[verifier::external_type_specification]
#[verifier::external_body]
pub struct ExDocument(mongodb::bson::Document);

/// Calls `mongodb::Client::database` and, on the handle it gives,
/// `mongodb::Database::collection`. Both make a handle from the given name
/// without any traffic to the cluster, and neither fails. The collection
/// handle is opaque, so nothing is claimed of it.
#[verifier::external_body]
fn collection_handle<T: Send + Sync>(
    client: &mongodb::Client,
    db_name: &str,
    collection_name: &str,
) -> (collection: mongodb::Collection<T>) {
    client.database(db_name).collection::<T>(collection_name)
}

/// The name of the database that holds the bot's collections.
pub const DATABASE_NAME: &'static str = "onuzglorp-bot";

/// The backing store: a connection to the document database, or none.
#[derive(Clone)]
pub struct Database {
    pub client: Option<mongodb::Client>,
}

impl Database {
    /// A handle to the named collection of plain documents, where there is a connection.
    pub fn get_collection(&self, db_name: &str, collection_name: &str) -> (handle: Option<
        mongodb::Collection<mongodb::bson::Document>,
    >)
        ensures
            handle is Some <==> self.client is Some,
    {
        match &self.client {
            Some(client) => Some(collection_handle(client, db_name, collection_name)),
            None => None,
        }
    }

    /// A handle to the named collection read as documents of type `T`, where
    /// there is a connection.
    pub fn get_collection_gen<T: Send + Sync>(&self, db_name: &str, collection_name: &str) -> (handle:
        Option<mongodb::Collection<T>>)
        ensures
            handle is Some <==> self.client is Some,
    {
        match &self.client {
            Some(client) => Some(collection_handle(client, db_name, collection_name)),
            None => None,
        }
    }
}

} // verus!
