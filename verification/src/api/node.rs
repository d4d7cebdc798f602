//! Node endpoints.
//!
//! The node create/modify bodies carry a floating-point usage coefficient
//! and are attached by the sender; the plans here fix everything else.

use vstd::prelude::*;

use crate::client::{spec_authorizes, MarzbanAPIClient};
use crate::dispatch::{BodyEncoding, EndpointBranches, EndpointCall, Method, ResourceKind};
use crate::text::{
    i64_to_string, push_pair, spec_idec, spec_opt_pair, spec_opt_slice_view, spec_query_view,
};

verus! {

impl MarzbanAPIClient {
    /// `GET /api/node/settings` — plan: fetch node settings. Recognized
    /// besides success: 403.
    pub fn get_node_settings_request(&self) -> (c: EndpointCall)
        ensures
            c.request.method == Method::Get,
            c.request.url@ == self.base_url@ + "/api/node/settings"@,
            spec_authorizes(*self, c.request),
            c.request.query@.len() == 0,
            c.request.body == BodyEncoding::Empty,
            c.branches == (EndpointBranches {
                unauthorized: false,
                forbidden: true,
                not_found: false,
                conflict: false,
                unprocessable: false,
                resource: ResourceKind::Node,
            }),
    {
        let url = self.base_url.clone().concat("/api/node/settings");
        let request = self.prepare_authorized_request(Method::Get, url);
        EndpointCall {
            request,
            branches: EndpointBranches {
                unauthorized: false,
                forbidden: true,
                not_found: false,
                conflict: false,
                unprocessable: false,
                resource: ResourceKind::Node,
            },
        }
    }

    /// `POST /api/node` — plan: add a node, JSON body. Recognized besides
    /// success: 403, 422.
    pub fn add_node_request(&self) -> (c: EndpointCall)
        ensures
            c.request.method == Method::Post,
            c.request.url@ == self.base_url@ + "/api/node"@,
            spec_authorizes(*self, c.request),
            c.request.query@.len() == 0,
            c.request.body == BodyEncoding::Json,
            c.branches == (EndpointBranches {
                unauthorized: false,
                forbidden: true,
                not_found: false,
                conflict: false,
                unprocessable: true,
                resource: ResourceKind::Node,
            }),
    {
        let url = self.base_url.clone().concat("/api/node");
        let mut request = self.prepare_authorized_request(Method::Post, url);
        request.body = BodyEncoding::Json;
        EndpointCall {
            request,
            branches: EndpointBranches {
                unauthorized: false,
                forbidden: true,
                not_found: false,
                conflict: false,
                unprocessable: true,
                resource: ResourceKind::Node,
            },
        }
    }

    /// `GET /api/node/{node_id}` — plan: fetch one node. Recognized besides
    /// success: 403, 404, 422.
    pub fn get_node_request(&self, node_id: i32) -> (c: EndpointCall)
        ensures
            c.request.method == Method::Get,
            c.request.url@ == self.base_url@ + "/api/node/"@ + spec_idec(node_id as int),
            spec_authorizes(*self, c.request),
            c.request.query@.len() == 0,
            c.request.body == BodyEncoding::Empty,
            c.branches == (EndpointBranches {
                unauthorized: false,
                forbidden: true,
                not_found: true,
                conflict: false,
                unprocessable: true,
                resource: ResourceKind::Node,
            }),
    {
        let mut url = self.base_url.clone().concat("/api/node/");
        url.append(i64_to_string(node_id as i64).as_str());
        let request = self.prepare_authorized_request(Method::Get, url);
        EndpointCall {
            request,
            branches: EndpointBranches {
                unauthorized: false,
                forbidden: true,
                not_found: true,
                conflict: false,
                unprocessable: true,
                resource: ResourceKind::Node,
            },
        }
    }

    /// `PUT /api/node/{node_id}` — plan: modify a node, JSON body.
    /// Recognized besides success: 403, 404, 422.
    pub fn modify_node_request(&self, node_id: i32) -> (c: EndpointCall)
        ensures
            c.request.method == Method::Put,
            c.request.url@ == self.base_url@ + "/api/node/"@ + spec_idec(node_id as int),
            spec_authorizes(*self, c.request),
            c.request.query@.len() == 0,
            c.request.body == BodyEncoding::Json,
            c.branches == (EndpointBranches {
                unauthorized: false,
                forbidden: true,
                not_found: true,
                conflict: false,
                unprocessable: true,
                resource: ResourceKind::Node,
            }),
    {
        let mut url = self.base_url.clone().concat("/api/node/");
        url.append(i64_to_string(node_id as i64).as_str());
        let mut request = self.prepare_authorized_request(Method::Put, url);
        request.body = BodyEncoding::Json;
        EndpointCall {
            request,
            branches: EndpointBranches {
                unauthorized: false,
                forbidden: true,
                not_found: true,
                conflict: false,
                unprocessable: true,
                resource: ResourceKind::Node,
            },
        }
    }

    /// `DELETE /api/node/{node_id}` — plan: remove a node. Recognized
    /// besides success: 403, 404, 422.
    pub fn remove_node_request(&self, node_id: i32) -> (c: EndpointCall)
        ensures
            c.request.method == Method::Delete,
            c.request.url@ == self.base_url@ + "/api/node/"@ + spec_idec(node_id as int),
            spec_authorizes(*self, c.request),
            c.request.query@.len() == 0,
            c.request.body == BodyEncoding::Empty,
            c.branches == (EndpointBranches {
                unauthorized: false,
                forbidden: true,
                not_found: true,
                conflict: false,
                unprocessable: true,
                resource: ResourceKind::Node,
            }),
    {
        let mut url = self.base_url.clone().concat("/api/node/");
        url.append(i64_to_string(node_id as i64).as_str());
        let request = self.prepare_authorized_request(Method::Delete, url);
        EndpointCall {
            request,
            branches: EndpointBranches {
                unauthorized: false,
                forbidden: true,
                not_found: true,
                conflict: false,
                unprocessable: true,
                resource: ResourceKind::Node,
            },
        }
    }

    /// `GET /api/nodes` — plan: list all nodes. Recognized besides success:
    /// 403.
    pub fn get_nodes_request(&self) -> (c: EndpointCall)
        ensures
            c.request.method == Method::Get,
            c.request.url@ == self.base_url@ + "/api/nodes"@,
            spec_authorizes(*self, c.request),
            c.request.query@.len() == 0,
            c.request.body == BodyEncoding::Empty,
            c.branches == (EndpointBranches {
                unauthorized: false,
                forbidden: true,
                not_found: false,
                conflict: false,
                unprocessable: false,
                resource: ResourceKind::Node,
            }),
    {
        let url = self.base_url.clone().concat("/api/nodes");
        let request = self.prepare_authorized_request(Method::Get, url);
        EndpointCall {
            request,
            branches: EndpointBranches {
                unauthorized: false,
                forbidden: true,
                not_found: false,
                conflict: false,
                unprocessable: false,
                resource: ResourceKind::Node,
            },
        }
    }

    /// `POST /api/node/{node_id}/reconnect` — plan: trigger a reconnect.
    /// Recognized besides success: 403, 404, 422.
    pub fn reconnect_node_request(&self, node_id: i32) -> (c: EndpointCall)
        ensures
            c.request.method == Method::Post,
            c.request.url@ == self.base_url@ + "/api/node/"@ + spec_idec(node_id as int)
                + "/reconnect"@,
            spec_authorizes(*self, c.request),
            c.request.query@.len() == 0,
            c.request.body == BodyEncoding::Empty,
            c.branches == (EndpointBranches {
                unauthorized: false,
                forbidden: true,
                not_found: true,
                conflict: false,
                unprocessable: true,
                resource: ResourceKind::Node,
            }),
    {
        let mut url = self.base_url.clone().concat("/api/node/");
        url.append(i64_to_string(node_id as i64).as_str());
        url.append("/reconnect");
        let request = self.prepare_authorized_request(Method::Post, url);
        EndpointCall {
            request,
            branches: EndpointBranches {
                unauthorized: false,
                forbidden: true,
                not_found: true,
                conflict: false,
                unprocessable: true,
                resource: ResourceKind::Node,
            },
        }
    }

    /// `GET /api/nodes/usage` — plan: fetch node usage in an optional date
    /// range; absent bounds are omitted. Recognized besides success: 403,
    /// 404, 422.
    pub fn get_nodes_usage_request(&self, start: Option<&str>, end: Option<&str>) -> (c:
        EndpointCall)
        ensures
            c.request.method == Method::Get,
            c.request.url@ == self.base_url@ + "/api/nodes/usage"@,
            spec_authorizes(*self, c.request),
            spec_query_view(c.request.query@) == spec_opt_pair("start"@, spec_opt_slice_view(start))
                + spec_opt_pair("end"@, spec_opt_slice_view(end)),
            c.request.body == BodyEncoding::Empty,
            c.branches == (EndpointBranches {
                unauthorized: false,
                forbidden: true,
                not_found: true,
                conflict: false,
                unprocessable: true,
                resource: ResourceKind::Node,
            }),
    {
        let url = self.base_url.clone().concat("/api/nodes/usage");
        let mut request = self.prepare_authorized_request(Method::Get, url);
        let mut params: Vec<(String, String)> = Vec::new();
        proof {
            assert(spec_query_view(params@) =~= Seq::<(Seq<char>, Seq<char>)>::empty());
        }
        if let Some(value) = start {
            push_pair(&mut params, "start", String::from_str(value));
        }
        if let Some(value) = end {
            push_pair(&mut params, "end", String::from_str(value));
        }
        proof {
            assert(spec_query_view(params@) =~= spec_opt_pair("start"@, spec_opt_slice_view(start))
                + spec_opt_pair("end"@, spec_opt_slice_view(end)));
        }
        request.query = params;
        EndpointCall {
            request,
            branches: EndpointBranches {
                unauthorized: false,
                forbidden: true,
                not_found: true,
                conflict: false,
                unprocessable: true,
                resource: ResourceKind::Node,
            },
        }
    }
}

} // verus!
