//! The root endpoint.

use vstd::prelude::*;

use crate::client::{spec_authorizes, MarzbanAPIClient};
use crate::dispatch::{BodyEncoding, EndpointBranches, EndpointCall, Method, ResourceKind};

verus! {

impl MarzbanAPIClient {
    /// `GET /` — plan: fetch the panel's landing page text. Only a 200 is
    /// recognized; everything else is unexpected.
    pub fn base_url_request(&self) -> (c: EndpointCall)
        ensures
            c.request.method == Method::Get,
            c.request.url@ == self.base_url@,
            spec_authorizes(*self, c.request),
            c.request.query@.len() == 0,
            c.request.body == BodyEncoding::Empty,
            c.branches == (EndpointBranches {
                unauthorized: false,
                forbidden: false,
                not_found: false,
                conflict: false,
                unprocessable: false,
                resource: ResourceKind::Admin,
            }),
    {
        let url = self.base_url.clone();
        let request = self.prepare_authorized_request(Method::Get, url);
        EndpointCall {
            request,
            branches: EndpointBranches {
                unauthorized: false,
                forbidden: false,
                not_found: false,
                conflict: false,
                unprocessable: false,
                resource: ResourceKind::Admin,
            },
        }
    }
}

} // verus!
