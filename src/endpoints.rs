use vstd::prelude::*;
use crate::errors::{EndpointCategory, VatsimDataAPIError};
use crate::model::VatsimStatusData;

verus! {

/// The chosen URLs of the `data` categories. Only `v3` is required; a
/// category with no candidate has no URL.
#[derive(Clone, Debug, PartialEq)]
pub struct VatsimDataApiUrls {
    pub v3_url: String,
    pub transceivers_url: Option<String>,
    pub servers_url: Option<String>,
}

/// One chosen URL for each category of the status document that lists any.
#[derive(Clone, Debug, PartialEq)]
pub struct VatsimApiUrls {
    pub data_urls: VatsimDataApiUrls,
    pub user_url: Option<String>,
    pub metar_url: Option<String>,
}

/// `choice` is a member of `candidates`, and there is one exactly when
/// `candidates` is not empty.
pub open spec fn chosen_from(choice: Option<String>, candidates: Seq<String>) -> bool {
    &&& choice is None <==> candidates.len() == 0
    &&& choice matches Some(u) ==> candidates.contains(u)
}

/// Relies on rand's `SliceRandom::choose` with `thread_rng`: `None` for an
/// empty slice, otherwise one of its elements (picked uniformly).
#[verifier::external_body]
fn choose_url(candidates: &Vec<String>) -> (r: Option<String>)
    ensures
        r is None <==> candidates@.len() == 0,
        r matches Some(u) ==> candidates@.contains(u),
{
    rand::seq::SliceRandom::choose(candidates.as_slice(), &mut rand::thread_rng()).cloned()
}

impl VatsimApiUrls {
    /// Assembles the endpoints from one choice per category. Fails when there
    /// is no `v3` choice, the one category a cycle cannot do without.
    pub fn from_choices(
        v3: Option<String>,
        transceivers: Option<String>,
        servers: Option<String>,
        user: Option<String>,
        metar: Option<String>,
    ) -> (r: Result<VatsimApiUrls, VatsimDataAPIError>)
        ensures
            v3 is None ==> r == Err::<VatsimApiUrls, VatsimDataAPIError>(
                VatsimDataAPIError::MissingEndpoint(EndpointCategory::V3),
            ),
            v3 matches Some(v) ==> r == Ok::<VatsimApiUrls, VatsimDataAPIError>(
                VatsimApiUrls {
                    data_urls: VatsimDataApiUrls {
                        v3_url: v,
                        transceivers_url: transceivers,
                        servers_url: servers,
                    },
                    user_url: user,
                    metar_url: metar,
                },
            ),
    {
        match v3 {
            None => Err(VatsimDataAPIError::MissingEndpoint(EndpointCategory::V3)),
            Some(v3_url) => Ok(
                VatsimApiUrls {
                    data_urls: VatsimDataApiUrls {
                        v3_url,
                        transceivers_url: transceivers,
                        servers_url: servers,
                    },
                    user_url: user,
                    metar_url: metar,
                },
            ),
        }
    }

    /// Picks one URL at random from each non-empty candidate list of
    /// `status`. Fails when the `v3` list is empty.
    pub fn new(status: &VatsimStatusData) -> (r: Result<VatsimApiUrls, VatsimDataAPIError>)
        ensures
            status.data.v3@.len() == 0 ==> r == Err::<VatsimApiUrls, VatsimDataAPIError>(
                VatsimDataAPIError::MissingEndpoint(EndpointCategory::V3),
            ),
            status.data.v3@.len() > 0 ==> (r matches Ok(u) && {
                &&& status.data.v3@.contains(u.data_urls.v3_url)
                &&& chosen_from(u.data_urls.transceivers_url, status.data.transceivers@)
                &&& chosen_from(u.data_urls.servers_url, status.data.servers@)
                &&& chosen_from(u.user_url, status.user@)
                &&& chosen_from(u.metar_url, status.metar@)
            }),
    {
        let v3 = choose_url(&status.data.v3);
        let transceivers = choose_url(&status.data.transceivers);
        let servers = choose_url(&status.data.servers);
        let user = choose_url(&status.user);
        let metar = choose_url(&status.metar);
        VatsimApiUrls::from_choices(v3, transceivers, servers, user, metar)
    }
}

} // verus!
