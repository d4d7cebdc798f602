//! Core endpoints.

use vstd::prelude::*;

use crate::client::{spec_authorizes, MarzbanAPIClient};
use crate::dispatch::{BodyEncoding, EndpointBranches, EndpointCall, Method, ResourceKind};

verus! {

impl MarzbanAPIClient {
    /// `GET /api/core` — plan: fetch core statistics. Recognized besides
    /// success: 422.
    pub fn get_core_stats_request(&self) -> (c: EndpointCall)
        ensures
            c.request.method == Method::Get,
            c.request.url@ == self.base_url@ + "/api/core"@,
            spec_authorizes(*self, c.request),
            c.request.query@.len() == 0,
            c.request.body == BodyEncoding::Empty,
            c.branches == (EndpointBranches {
                unauthorized: false,
                forbidden: false,
                not_found: false,
                conflict: false,
                unprocessable: true,
                resource: ResourceKind::Admin,
            }),
    {
        let url = self.base_url.clone().concat("/api/core");
        let request = self.prepare_authorized_request(Method::Get, url);
        EndpointCall {
            request,
            branches: EndpointBranches {
                unauthorized: false,
                forbidden: false,
                not_found: false,
                conflict: false,
                unprocessable: true,
                resource: ResourceKind::Admin,
            },
        }
    }

    /// `POST /api/core/restart` — plan: restart the core and connected
    /// nodes. Recognized besides success: 422.
    pub fn restart_core_request(&self) -> (c: EndpointCall)
        ensures
            c.request.method == Method::Post,
            c.request.url@ == self.base_url@ + "/api/core/restart"@,
            spec_authorizes(*self, c.request),
            c.request.query@.len() == 0,
            c.request.body == BodyEncoding::Empty,
            c.branches == (EndpointBranches {
                unauthorized: false,
                forbidden: false,
                not_found: false,
                conflict: false,
                unprocessable: true,
                resource: ResourceKind::Admin,
            }),
    {
        let url = self.base_url.clone().concat("/api/core/restart");
        let request = self.prepare_authorized_request(Method::Post, url);
        EndpointCall {
            request,
            branches: EndpointBranches {
                unauthorized: false,
                forbidden: false,
                not_found: false,
                conflict: false,
                unprocessable: true,
                resource: ResourceKind::Admin,
            },
        }
    }

    /// `GET /api/core/config` — plan: fetch the core configuration.
    /// Recognized besides success: 403, 422.
    pub fn get_core_config_request(&self) -> (c: EndpointCall)
        ensures
            c.request.method == Method::Get,
            c.request.url@ == self.base_url@ + "/api/core/config"@,
            spec_authorizes(*self, c.request),
            c.request.query@.len() == 0,
            c.request.body == BodyEncoding::Empty,
            c.branches == (EndpointBranches {
                unauthorized: false,
                forbidden: true,
                not_found: false,
                conflict: false,
                unprocessable: true,
                resource: ResourceKind::Admin,
            }),
    {
        let url = self.base_url.clone().concat("/api/core/config");
        let request = self.prepare_authorized_request(Method::Get, url);
        EndpointCall {
            request,
            branches: EndpointBranches {
                unauthorized: false,
                forbidden: true,
                not_found: false,
                conflict: false,
                unprocessable: true,
                resource: ResourceKind::Admin,
            },
        }
    }

    /// `PUT /api/core/config` — plan: replace the core configuration, JSON
    /// body. Recognized besides success: 403, 422.
    pub fn modify_core_config_request(&self) -> (c: EndpointCall)
        ensures
            c.request.method == Method::Put,
            c.request.url@ == self.base_url@ + "/api/core/config"@,
            spec_authorizes(*self, c.request),
            c.request.query@.len() == 0,
            c.request.body == BodyEncoding::Json,
            c.branches == (EndpointBranches {
                unauthorized: false,
                forbidden: true,
                not_found: false,
                conflict: false,
                unprocessable: true,
                resource: ResourceKind::Admin,
            }),
    {
        let url = self.base_url.clone().concat("/api/core/config");
        let mut request = self.prepare_authorized_request(Method::Put, url);
        request.body = BodyEncoding::Json;
        EndpointCall {
            request,
            branches: EndpointBranches {
                unauthorized: false,
                forbidden: true,
                not_found: false,
                conflict: false,
                unprocessable: true,
                resource: ResourceKind::Admin,
            },
        }
    }
}

} // verus!
