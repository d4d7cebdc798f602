//! User-template endpoints.

use vstd::prelude::*;

use crate::client::{spec_authorizes, MarzbanAPIClient};
use crate::dispatch::{BodyEncoding, EndpointBranches, EndpointCall, Method, ResourceKind};
use crate::text::{
    i64_to_string, push_pair, spec_idec, spec_opt_idec, spec_opt_pair, spec_query_view,
};

verus! {

impl MarzbanAPIClient {
    /// `GET /api/user_template` — plan: list user templates with optional
    /// pagination; absent bounds are omitted. Recognized besides success:
    /// 422.
    pub fn get_user_templates_request(&self, offset: Option<i32>, limit: Option<i32>) -> (c:
        EndpointCall)
        ensures
            c.request.method == Method::Get,
            c.request.url@ == self.base_url@ + "/api/user_template"@,
            spec_authorizes(*self, c.request),
            spec_query_view(c.request.query@) == spec_opt_pair("offset"@, spec_opt_idec(offset))
                + spec_opt_pair("limit"@, spec_opt_idec(limit)),
            c.request.body == BodyEncoding::Empty,
            c.branches == (EndpointBranches {
                unauthorized: false,
                forbidden: false,
                not_found: false,
                conflict: false,
                unprocessable: true,
                resource: ResourceKind::UserTemplate,
            }),
    {
        let url = self.base_url.clone().concat("/api/user_template");
        let mut request = self.prepare_authorized_request(Method::Get, url);
        let mut params: Vec<(String, String)> = Vec::new();
        proof {
            assert(spec_query_view(params@) =~= Seq::<(Seq<char>, Seq<char>)>::empty());
        }
        if let Some(value) = offset {
            push_pair(&mut params, "offset", i64_to_string(value as i64));
        }
        if let Some(value) = limit {
            push_pair(&mut params, "limit", i64_to_string(value as i64));
        }
        proof {
            assert(spec_query_view(params@) =~= spec_opt_pair("offset"@, spec_opt_idec(offset))
                + spec_opt_pair("limit"@, spec_opt_idec(limit)));
        }
        request.query = params;
        EndpointCall {
            request,
            branches: EndpointBranches {
                unauthorized: false,
                forbidden: false,
                not_found: false,
                conflict: false,
                unprocessable: true,
                resource: ResourceKind::UserTemplate,
            },
        }
    }

    /// `POST /api/user_template` — plan: add a user template, JSON body.
    /// Recognized besides success: 403, 409, 422.
    pub fn add_user_template_request(&self) -> (c: EndpointCall)
        ensures
            c.request.method == Method::Post,
            c.request.url@ == self.base_url@ + "/api/user_template"@,
            spec_authorizes(*self, c.request),
            c.request.query@.len() == 0,
            c.request.body == BodyEncoding::Json,
            c.branches == (EndpointBranches {
                unauthorized: false,
                forbidden: true,
                not_found: false,
                conflict: true,
                unprocessable: true,
                resource: ResourceKind::UserTemplate,
            }),
    {
        let url = self.base_url.clone().concat("/api/user_template");
        let mut request = self.prepare_authorized_request(Method::Post, url);
        request.body = BodyEncoding::Json;
        EndpointCall {
            request,
            branches: EndpointBranches {
                unauthorized: false,
                forbidden: true,
                not_found: false,
                conflict: true,
                unprocessable: true,
                resource: ResourceKind::UserTemplate,
            },
        }
    }

    /// `GET /api/user_template/{id}` — plan: fetch one user template.
    /// Recognized besides success: 404, 422.
    pub fn get_user_template_request(&self, id: i32) -> (c: EndpointCall)
        ensures
            c.request.method == Method::Get,
            c.request.url@ == self.base_url@ + "/api/user_template/"@ + spec_idec(id as int),
            spec_authorizes(*self, c.request),
            c.request.query@.len() == 0,
            c.request.body == BodyEncoding::Empty,
            c.branches == (EndpointBranches {
                unauthorized: false,
                forbidden: false,
                not_found: true,
                conflict: false,
                unprocessable: true,
                resource: ResourceKind::UserTemplate,
            }),
    {
        let mut url = self.base_url.clone().concat("/api/user_template/");
        url.append(i64_to_string(id as i64).as_str());
        let request = self.prepare_authorized_request(Method::Get, url);
        EndpointCall {
            request,
            branches: EndpointBranches {
                unauthorized: false,
                forbidden: false,
                not_found: true,
                conflict: false,
                unprocessable: true,
                resource: ResourceKind::UserTemplate,
            },
        }
    }

    /// `PUT /api/user_template/{id}` — plan: modify a user template, JSON
    /// body. Recognized besides success: 403, 404, 409, 422.
    pub fn modify_user_template_request(&self, id: i32) -> (c: EndpointCall)
        ensures
            c.request.method == Method::Put,
            c.request.url@ == self.base_url@ + "/api/user_template/"@ + spec_idec(id as int),
            spec_authorizes(*self, c.request),
            c.request.query@.len() == 0,
            c.request.body == BodyEncoding::Json,
            c.branches == (EndpointBranches {
                unauthorized: false,
                forbidden: true,
                not_found: true,
                conflict: true,
                unprocessable: true,
                resource: ResourceKind::UserTemplate,
            }),
    {
        let mut url = self.base_url.clone().concat("/api/user_template/");
        url.append(i64_to_string(id as i64).as_str());
        let mut request = self.prepare_authorized_request(Method::Put, url);
        request.body = BodyEncoding::Json;
        EndpointCall {
            request,
            branches: EndpointBranches {
                unauthorized: false,
                forbidden: true,
                not_found: true,
                conflict: true,
                unprocessable: true,
                resource: ResourceKind::UserTemplate,
            },
        }
    }

    /// `DELETE /api/user_template/{id}` — plan: remove a user template.
    /// Recognized besides success: 403, 404, 422.
    pub fn remove_user_template_request(&self, id: i32) -> (c: EndpointCall)
        ensures
            c.request.method == Method::Delete,
            c.request.url@ == self.base_url@ + "/api/user_template/"@ + spec_idec(id as int),
            spec_authorizes(*self, c.request),
            c.request.query@.len() == 0,
            c.request.body == BodyEncoding::Empty,
            c.branches == (EndpointBranches {
                unauthorized: false,
                forbidden: true,
                not_found: true,
                conflict: false,
                unprocessable: true,
                resource: ResourceKind::UserTemplate,
            }),
    {
        let mut url = self.base_url.clone().concat("/api/user_template/");
        url.append(i64_to_string(id as i64).as_str());
        let request = self.prepare_authorized_request(Method::Delete, url);
        EndpointCall {
            request,
            branches: EndpointBranches {
                unauthorized: false,
                forbidden: true,
                not_found: true,
                conflict: false,
                unprocessable: true,
                resource: ResourceKind::UserTemplate,
            },
        }
    }
}

} // verus!
