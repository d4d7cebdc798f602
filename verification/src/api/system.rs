//! System endpoints.

use vstd::prelude::*;

use crate::client::{spec_authorizes, MarzbanAPIClient};
use crate::dispatch::{BodyEncoding, EndpointBranches, EndpointCall, Method, ResourceKind};

verus! {

impl MarzbanAPIClient {
    /// `GET /api/system` — plan: fetch system statistics. Recognized besides
    /// success: 422.
    pub fn get_system_stats_request(&self) -> (c: EndpointCall)
        ensures
            c.request.method == Method::Get,
            c.request.url@ == self.base_url@ + "/api/system"@,
            spec_authorizes(*self, c.request),
            c.request.query@.len() == 0,
            c.request.body == BodyEncoding::Empty,
            c.branches == (EndpointBranches {
                unauthorized: false,
                forbidden: false,
                not_found: false,
                conflict: false,
                unprocessable: true,
                resource: ResourceKind::Admin,
            }),
    {
        let url = self.base_url.clone().concat("/api/system");
        let request = self.prepare_authorized_request(Method::Get, url);
        EndpointCall {
            request,
            branches: EndpointBranches {
                unauthorized: false,
                forbidden: false,
                not_found: false,
                conflict: false,
                unprocessable: true,
                resource: ResourceKind::Admin,
            },
        }
    }

    /// `GET /api/inbounds` — plan: fetch inbounds grouped by protocol.
    /// Recognized besides success: 422.
    pub fn get_inbounds_request(&self) -> (c: EndpointCall)
        ensures
            c.request.method == Method::Get,
            c.request.url@ == self.base_url@ + "/api/inbounds"@,
            spec_authorizes(*self, c.request),
            c.request.query@.len() == 0,
            c.request.body == BodyEncoding::Empty,
            c.branches == (EndpointBranches {
                unauthorized: false,
                forbidden: false,
                not_found: false,
                conflict: false,
                unprocessable: true,
                resource: ResourceKind::Admin,
            }),
    {
        let url = self.base_url.clone().concat("/api/inbounds");
        let request = self.prepare_authorized_request(Method::Get, url);
        EndpointCall {
            request,
            branches: EndpointBranches {
                unauthorized: false,
                forbidden: false,
                not_found: false,
                conflict: false,
                unprocessable: true,
                resource: ResourceKind::Admin,
            },
        }
    }

    /// `GET /api/hosts` — plan: fetch proxy hosts grouped by inbound tag.
    /// Recognized besides success: 422.
    pub fn get_hosts_request(&self) -> (c: EndpointCall)
        ensures
            c.request.method == Method::Get,
            c.request.url@ == self.base_url@ + "/api/hosts"@,
            spec_authorizes(*self, c.request),
            c.request.query@.len() == 0,
            c.request.body == BodyEncoding::Empty,
            c.branches == (EndpointBranches {
                unauthorized: false,
                forbidden: false,
                not_found: false,
                conflict: false,
                unprocessable: true,
                resource: ResourceKind::Admin,
            }),
    {
        let url = self.base_url.clone().concat("/api/hosts");
        let request = self.prepare_authorized_request(Method::Get, url);
        EndpointCall {
            request,
            branches: EndpointBranches {
                unauthorized: false,
                forbidden: false,
                not_found: false,
                conflict: false,
                unprocessable: true,
                resource: ResourceKind::Admin,
            },
        }
    }

    /// `PUT /api/hosts` — plan: replace the proxy hosts, JSON body.
    /// Recognized besides success: 403, 422.
    pub fn modify_hosts_request(&self) -> (c: EndpointCall)
        ensures
            c.request.method == Method::Put,
            c.request.url@ == self.base_url@ + "/api/hosts"@,
            spec_authorizes(*self, c.request),
            c.request.query@.len() == 0,
            c.request.body == BodyEncoding::Json,
            c.branches == (EndpointBranches {
                unauthorized: false,
                forbidden: true,
                not_found: false,
                conflict: false,
                unprocessable: true,
                resource: ResourceKind::Admin,
            }),
    {
        let url = self.base_url.clone().concat("/api/hosts");
        let mut request = self.prepare_authorized_request(Method::Put, url);
        request.body = BodyEncoding::Json;
        EndpointCall {
            request,
            branches: EndpointBranches {
                unauthorized: false,
                forbidden: true,
                not_found: false,
                conflict: false,
                unprocessable: true,
                resource: ResourceKind::Admin,
            },
        }
    }
}

} // verus!
