//! The repository client configuration: a base URL and a container name,
//! stored exactly as given, and the endpoint URLs resolved from them.
//!
//! URL resolution is pure string formatting. The service-level `about`
//! endpoint is deliberately not scoped under the container; every other
//! endpoint lives under `{base_url}/services/{container}/...`.

use vstd::prelude::*;

use crate::decimal::decimal_chars;
use crate::decimal::u32_to_decimal;
use crate::error::Error;

verus! {

/// The URL of the service-level metadata endpoint.
pub open spec fn spec_about_url(base: Seq<char>) -> Seq<char> {
    base + "/about"@
}

/// The URL of a container-scoped service endpoint.
pub open spec fn spec_service_url(base: Seq<char>, container: Seq<char>, endpoint: Seq<char>) -> Seq<
    char,
> {
    base + "/services/"@ + container + "/"@ + endpoint
}

/// The URL of a container-scoped service endpoint with one path parameter.
pub open spec fn spec_service_param_url(
    base: Seq<char>,
    container: Seq<char>,
    endpoint: Seq<char>,
    param: Seq<char>,
) -> Seq<char> {
    spec_service_url(base, container, endpoint) + "/"@ + param
}

/// The canonical URL of one created search.
pub open spec fn spec_search_url(base: Seq<char>, container: Seq<char>, search_id: Seq<char>) -> Seq<
    char,
> {
    base + "/services/"@ + container + "/search/"@ + search_id
}

/// The URL of a created search's info document.
pub open spec fn spec_search_info_url(
    base: Seq<char>,
    container: Seq<char>,
    search_id: Seq<char>,
) -> Seq<char> {
    spec_search_url(base, container, search_id) + "/info"@
}

/// The URL of one result page of a created search.
pub open spec fn spec_search_page_url(
    base: Seq<char>,
    container: Seq<char>,
    search_id: Seq<char>,
    page: int,
) -> Seq<char> {
    spec_search_url(base, container, search_id) + "?page="@ + decimal_chars(page)
}

/// The immutable configuration of one annotation-repository client: which
/// service it talks to (`base_url`) and which container it works in.
#[derive(Debug)]
pub struct AnnoRepoClient {
    pub base_url: String,
    pub container: String,
}

impl AnnoRepoClient {
    /// Builds a client for the given service and container. The two strings
    /// are stored exactly as provided: no trimming, no normalization.
    pub fn new(base_url: &str, container: &str) -> (r: Result<AnnoRepoClient, Error>)
        ensures
            r matches Ok(c) && c.base_url@ == base_url@ && c.container@ == container@,
    {
        Ok(AnnoRepoClient {
            base_url: String::from_str(base_url),
            container: String::from_str(container),
        })
    }

    /// A copy of this configuration, for handles that must outlive the
    /// client's own frame.
    pub fn duplicate(&self) -> (c: AnnoRepoClient)
        ensures
            c == *self,
    {
        AnnoRepoClient { base_url: self.base_url.clone(), container: self.container.clone() }
    }

    /// The service-level metadata URL: `{base_url}/about`, with no container
    /// scoping.
    pub fn about_url(&self) -> (url: String)
        ensures
            url@ == spec_about_url(self.base_url@),
    {
        self.base_url.clone().concat("/about")
    }

    /// The URL of a service endpoint under this client's container:
    /// `{base_url}/services/{container}/{endpoint}`.
    pub fn resolve_service(&self, endpoint: &str) -> (url: String)
        ensures
            url@ == spec_service_url(self.base_url@, self.container@, endpoint@),
    {
        self.base_url.clone().concat("/services/").concat(self.container.as_str()).concat(
            "/",
        ).concat(endpoint)
    }

    /// The URL of a service endpoint with one path parameter:
    /// `{base_url}/services/{container}/{endpoint}/{param}`.
    pub fn resolve_service_param(&self, endpoint: &str, param: &str) -> (url: String)
        ensures
            url@ == spec_service_param_url(self.base_url@, self.container@, endpoint@, param@),
    {
        self.resolve_service(endpoint).concat("/").concat(param)
    }

    /// The canonical URL of a created search:
    /// `{base_url}/services/{container_name}/search/{search_id}`.
    pub fn search_url(&self, container_name: &str, search_id: &str) -> (url: String)
        ensures
            url@ == spec_search_url(self.base_url@, container_name@, search_id@),
    {
        self.base_url.clone().concat("/services/").concat(container_name).concat(
            "/search/",
        ).concat(search_id)
    }

    /// The URL of a created search's info document:
    /// `{base_url}/services/{container_name}/search/{search_id}/info`.
    pub fn search_info_url(&self, container_name: &str, search_id: &str) -> (url: String)
        ensures
            url@ == spec_search_info_url(self.base_url@, container_name@, search_id@),
    {
        self.search_url(container_name, search_id).concat("/info")
    }

    /// The URL of one result page of a created search, with the page number
    /// rendered in decimal and defaulting to zero:
    /// `{base_url}/services/{container_name}/search/{search_id}?page={n}`.
    pub fn search_page_url(&self, container_name: &str, search_id: &str, page: Option<u32>) -> (url:
        String)
        ensures
            url@ == spec_search_page_url(
                self.base_url@,
                container_name@,
                search_id@,
                page.unwrap_or(0) as int,
            ),
    {
        let n = match page {
            Some(p) => p,
            None => 0,
        };
        self.search_url(container_name, search_id).concat("?page=").concat(
            u32_to_decimal(n).as_str(),
        )
    }
}

} // verus!
