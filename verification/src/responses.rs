//! Response shells the API layer serializes; plain data.

use vstd::prelude::*;

verus! {

/// One page of a listing, with the page number and the unpaged total.
pub struct PaginationResponse<T> {
    pub nodes: Vec<T>,
    pub page: u64,
    pub total: u64,
}

/// The pair of tokens a successful authentication hands out.
pub struct AuthenticateResponse {
    pub access_token: String,
    pub renew_token: String,
}

} // verus!
