use vstd::prelude::*;

verus! {

/// Why a store request was not carried out.
#[derive(Clone, Debug, PartialEq)]
pub enum StoreFailure {
    /// The store understood the request and declined it (validation,
    /// throughput limits).
    Service(String),
    /// The store could not be reached or did not answer.
    Transport(String),
    /// A record could not be turned into the store's item representation, so
    /// the request was never sent.
    Serialization(String),
}

/// Errors of the summary write.
#[derive(Clone, Debug, PartialEq)]
pub enum VSwimDBError {
    RustoPutItemError(StoreFailure),
    SerdeDynamoError(String),
}

/// The endpoint categories of the status document.
#[derive(Clone, Copy, Debug, PartialEq, Eq, Structural)]
pub enum EndpointCategory {
    V3,
    Transceivers,
    Servers,
    User,
    Metar,
}

/// Errors of endpoint resolution and snapshot fetching.
#[derive(Clone, Debug, PartialEq)]
pub enum VatsimDataAPIError {
    /// A document did not parse into the expected shape.
    SerdeJSONError(String),
    /// An HTTP request failed.
    ReqwestError(String),
    /// The status document lists no URL for a category.
    MissingEndpoint(EndpointCategory),
}

pub open spec fn db_error_message(e: VSwimDBError) -> Seq<char> {
    match e {
        VSwimDBError::RustoPutItemError(_) => "There was a problem putting item into DB"@,
        VSwimDBError::SerdeDynamoError(_) => "There was a problem converting struct to dynamo item"@,
    }
}

pub open spec fn api_error_message(e: VatsimDataAPIError) -> Seq<char> {
    match e {
        VatsimDataAPIError::SerdeJSONError(_) => "There was a problem parsing JSON data"@,
        VatsimDataAPIError::ReqwestError(_) => "There was a problem with an API call"@,
        VatsimDataAPIError::MissingEndpoint(_) => "The status data lists no URL for a category"@,
    }
}

impl VSwimDBError {
    /// A one-line description of the error for people.
    pub fn message(&self) -> (r: &'static str)
        ensures
            r@ == db_error_message(*self),
    {
        match self {
            VSwimDBError::RustoPutItemError(_) => "There was a problem putting item into DB",
            VSwimDBError::SerdeDynamoError(_) => "There was a problem converting struct to dynamo item",
        }
    }
}

impl VatsimDataAPIError {
    /// A one-line description of the error for people.
    pub fn message(&self) -> (r: &'static str)
        ensures
            r@ == api_error_message(*self),
    {
        match self {
            VatsimDataAPIError::SerdeJSONError(_) => "There was a problem parsing JSON data",
            VatsimDataAPIError::ReqwestError(_) => "There was a problem with an API call",
            VatsimDataAPIError::MissingEndpoint(_) => "The status data lists no URL for a category",
        }
    }
}

} // verus!
