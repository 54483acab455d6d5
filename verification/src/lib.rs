//! Client-side logic for an annotation-repository web service: endpoint URL
//! construction for a named container, interpretation of the search-creation
//! response, validation of annotation pages, and a paging cursor that turns
//! server-side result pages into one sequential stream of annotations.
//!
//! All network traffic lives outside this crate; these types work on the
//! plain values (URLs, header values, parsed JSON documents) that a transport
//! hands in and takes back.

pub mod client;
pub mod decimal;
pub mod error;
pub mod iter;
pub mod page;
pub mod search;

pub use client::AnnoRepoClient;
pub use error::Error;
pub use iter::AnnoIter;
pub use search::SearchInfo;
