//! The handle of a created search: its server-assigned identifier and its
//! canonical location URL, read off the `Location` header of the
//! search-creation response. The identifier is the last path segment of the
//! location; a response without a usable location is a terminal error, never
//! a crash.

use vstd::prelude::*;

use crate::client::AnnoRepoClient;
use crate::error::Error;

verus! {

/// The record of one created search: where it lives and what it is called.
/// Read-only after creation.
#[derive(Debug)]
pub struct SearchInfo {
    client: AnnoRepoClient,
    search_id: String,
    location: String,
}

impl SearchInfo {
    /// The identifier of the search: the last path segment of its location.
    pub closed spec fn spec_search_id(&self) -> Seq<char> {
        self.search_id@
    }

    /// The canonical URL of the search, exactly as the server reported it.
    pub closed spec fn spec_location(&self) -> Seq<char> {
        self.location@
    }

    /// The client configuration the search was created through.
    pub closed spec fn spec_client(&self) -> AnnoRepoClient {
        self.client
    }

    /// Builds a handle from a search identifier and its location, keeping a
    /// copy of the client configuration so the handle outlives the client's
    /// stack frame.
    pub fn new(client: &AnnoRepoClient, search_id: String, location: String) -> (r: Result<
        SearchInfo,
        Error,
    >)
        ensures
            r matches Ok(si) && si.spec_search_id() == search_id@ && si.spec_location()
                == location@ && si.spec_client() == *client,
    {
        Ok(SearchInfo { client: client.duplicate(), search_id, location })
    }

    pub fn search_id(&self) -> (r: &String)
        ensures
            r@ == self.spec_search_id(),
    {
        &self.search_id
    }

    pub fn location(&self) -> (r: &String)
        ensures
            r@ == self.spec_location(),
    {
        &self.location
    }
}

/// The position of the last `/` in the string, if any.
fn find_last_slash(s: &str) -> (r: Option<usize>)
    ensures
        match r {
            Some(i) => i < s@.len() && s@[i as int] == '/' && (forall|j: int|
                i < j < s@.len() ==> s@[j] != '/'),
            None => !s@.contains('/'),
        },
{
    let n = s.unicode_len();
    let mut i = n;
    while i > 0
        invariant
            i <= n == s@.len(),
            forall|j: int| i <= j < s@.len() ==> s@[j] != '/',
        decreases i,
    {
        i = i - 1;
        if s.get_char(i) == '/' {
            return Some(i);
        }
    }
    assert(!s@.contains('/'));
    None
}

impl AnnoRepoClient {
    /// Interprets the `Location` header of a search-creation response. A
    /// missing header is the missing-location error; so is a location with
    /// no path separator at all, from which no identifier can be read.
    /// Otherwise the handle keeps the location verbatim and takes the text
    /// after the last `/` as the search identifier.
    pub fn search_info_from_location(&self, location: Option<String>) -> (r: Result<
        SearchInfo,
        Error,
    >)
        ensures
            location is None ==> r == Err::<SearchInfo, Error>(Error::UrlNotFound),
            location matches Some(loc) ==> match loc@.index_of_last('/') {
                Some(i) => r matches Ok(si) && si.spec_location() == loc@ && si.spec_search_id()
                    == loc@.skip(i + 1) && si.spec_client() == *self,
                None => r == Err::<SearchInfo, Error>(Error::UrlNotFound),
            },
    {
        let loc = match location {
            Some(l) => l,
            None => {
                return Err(Error::UrlNotFound);
            },
        };
        proof {
            loc@.index_of_last_ensures('/');
        }
        match find_last_slash(loc.as_str()) {
            Some(i) => {
                proof {
                    // The scan and the spec agree: both name a `/` with none
                    // after it, and two such positions must be one.
                    let spec_i = loc@.index_of_last('/').unwrap();
                    assert(loc@.contains('/')) by {
                        assert(loc@[i as int] == '/');
                    }
                    assert(spec_i == i as int);
                }
                let n = loc.as_str().unicode_len();
                let id = loc.as_str().substring_char(i + 1, n);
                proof {
                    assert(id@ =~= loc@.skip(i + 1));
                }
                SearchInfo::new(self, String::from_str(id), loc)
            },
            None => {
                proof {
                    assert(loc@.index_of_last('/') is None);
                }
                Err(Error::UrlNotFound)
            },
        }
    }
}

} // verus!
