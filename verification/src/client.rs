//! The handle around the data-access client.
//!
//! The raw queries the client runs are I/O of the external data layer and
//! live with the caller; the handle only carries the client into the places
//! that need it.

use vstd::prelude::*;

verus! {

/// A handle that carries the data-access client.
pub struct AppPrismaClient<C> {
    client: C,
}

impl<C> AppPrismaClient<C> {
    /// The carried client, as the contracts speak of it.
    pub closed spec fn spec_client(&self) -> C {
        self.client
    }

    /// Wrap a client.
    pub fn new(client: C) -> (r: AppPrismaClient<C>)
        ensures
            r.spec_client() == client,
    {
        AppPrismaClient { client }
    }

    /// The carried client, for running a query.
    pub fn client(&self) -> (r: &C)
        ensures
            r == self.spec_client(),
    {
        &self.client
    }
}

} // verus!
