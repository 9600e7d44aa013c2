use vstd::prelude::*;
use crate::errors::VatsimDataAPIError;
use crate::model::{ParsedVatsimData, VatsimData, correlated, normalizes};

verus! {

/// The status document that the network publishes.
pub open spec fn default_status_url() -> Seq<char> {
    "https://status.vatsim.net/status.json"@
}

/// A snapshot of the network, ready to persist.
pub struct Vatsim {
    pub data_handler: VatsimDataHandler,
}

/// Holds the snapshot built from one data document.
pub struct VatsimDataHandler {
    pub v3_data: VatsimData,
}

/// Where to start: the URL of the status document.
pub struct VatsimBuilder {
    api_status_url: String,
}

impl VatsimBuilder {
    pub closed spec fn status_url_view(&self) -> Seq<char> {
        self.api_status_url@
    }

    /// Replaces the status document URL.
    pub fn with_status_url(self, url: &str) -> (r: VatsimBuilder)
        ensures
            r.status_url_view() == url@,
    {
        VatsimBuilder { api_status_url: url.to_owned() }
    }

    /// The status document URL.
    pub fn status_url(&self) -> (r: &str)
        ensures
            r@ == self.status_url_view(),
    {
        self.api_status_url.as_str()
    }

    /// Builds the snapshot from the data document fetched through the
    /// endpoints of this builder's status document, or passes on the failure
    /// to get it: no partial snapshot is ever built.
    pub fn build(self, data: Result<ParsedVatsimData, VatsimDataAPIError>) -> (r: Result<
        Vatsim,
        VatsimDataAPIError,
    >)
        ensures
            data matches Err(e) ==> r == Err::<Vatsim, VatsimDataAPIError>(e),
            data matches Ok(p) ==> (r matches Ok(v) && normalizes(p, v.data_handler.v3_data)
                && correlated(v.data_handler.v3_data)),
    {
        match data {
            Err(e) => Err(e),
            Ok(p) => Ok(Vatsim { data_handler: VatsimDataHandler::new(p) }),
        }
    }
}

impl Vatsim {
    /// A builder that starts from the network's public status document.
    pub fn new() -> (r: VatsimBuilder)
        ensures
            r.status_url_view() == default_status_url(),
    {
        VatsimBuilder { api_status_url: "https://status.vatsim.net/status.json".to_owned() }
    }
}

impl VatsimDataHandler {
    /// Normalizes a parsed data document into a snapshot whose pilot records
    /// all carry the summary's `update` value.
    pub fn new(parsed: ParsedVatsimData) -> (r: VatsimDataHandler)
        ensures
            normalizes(parsed, r.v3_data),
            r.v3_data.general == parsed.general,
            r.v3_data.controllers == parsed.controllers,
            r.v3_data.atis == parsed.atis,
            r.v3_data.servers == parsed.servers,
            r.v3_data.prefiles == parsed.prefiles,
            r.v3_data.facilities == parsed.facilities,
            r.v3_data.ratings == parsed.ratings,
            r.v3_data.pilot_ratings == parsed.pilot_ratings,
            correlated(r.v3_data),
    {
        VatsimDataHandler { v3_data: parsed.convert() }
    }
}

} // verus!
