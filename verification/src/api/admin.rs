//! Admin endpoints.

use vstd::prelude::*;

use crate::client::{spec_authorizes, MarzbanAPIClient};
use crate::dispatch::{BodyEncoding, EndpointBranches, EndpointCall, Method, ResourceKind};
use crate::text::{
    i64_to_string, push_pair, spec_opt_idec, spec_opt_pair, spec_opt_slice_view, spec_query_view,
};

verus! {

impl MarzbanAPIClient {
    /// `POST /api/admin/token` — plan: exchange form-encoded credentials for
    /// a token. Recognized besides success: 422.
    pub fn admin_token_request(&self) -> (c: EndpointCall)
        ensures
            c.request.method == Method::Post,
            c.request.url@ == self.base_url@ + "/api/admin/token"@,
            spec_authorizes(*self, c.request),
            c.request.query@.len() == 0,
            c.request.body == BodyEncoding::Form,
            c.branches == (EndpointBranches {
                unauthorized: false,
                forbidden: false,
                not_found: false,
                conflict: false,
                unprocessable: true,
                resource: ResourceKind::Admin,
            }),
    {
        let url = self.base_url.clone().concat("/api/admin/token");
        let mut request = self.prepare_authorized_request(Method::Post, url);
        request.body = BodyEncoding::Form;
        EndpointCall {
            request,
            branches: EndpointBranches {
                unauthorized: false,
                forbidden: false,
                not_found: false,
                conflict: false,
                unprocessable: true,
                resource: ResourceKind::Admin,
            },
        }
    }

    /// `GET /api/admin` — plan: fetch the currently authenticated admin.
    /// Recognized besides success: 401.
    pub fn get_current_admin_request(&self) -> (c: EndpointCall)
        ensures
            c.request.method == Method::Get,
            c.request.url@ == self.base_url@ + "/api/admin"@,
            spec_authorizes(*self, c.request),
            c.request.query@.len() == 0,
            c.request.body == BodyEncoding::Empty,
            c.branches == (EndpointBranches {
                unauthorized: true,
                forbidden: false,
                not_found: false,
                conflict: false,
                unprocessable: false,
                resource: ResourceKind::Admin,
            }),
    {
        let url = self.base_url.clone().concat("/api/admin");
        let request = self.prepare_authorized_request(Method::Get, url);
        EndpointCall {
            request,
            branches: EndpointBranches {
                unauthorized: true,
                forbidden: false,
                not_found: false,
                conflict: false,
                unprocessable: false,
                resource: ResourceKind::Admin,
            },
        }
    }

    /// `POST /api/admin` — plan: create an admin, JSON body. Recognized
    /// besides success: 401, 403, 409, 422.
    pub fn create_admin_request(&self) -> (c: EndpointCall)
        ensures
            c.request.method == Method::Post,
            c.request.url@ == self.base_url@ + "/api/admin"@,
            spec_authorizes(*self, c.request),
            c.request.query@.len() == 0,
            c.request.body == BodyEncoding::Json,
            c.branches == (EndpointBranches {
                unauthorized: true,
                forbidden: true,
                not_found: false,
                conflict: true,
                unprocessable: true,
                resource: ResourceKind::Admin,
            }),
    {
        let url = self.base_url.clone().concat("/api/admin");
        let mut request = self.prepare_authorized_request(Method::Post, url);
        request.body = BodyEncoding::Json;
        EndpointCall {
            request,
            branches: EndpointBranches {
                unauthorized: true,
                forbidden: true,
                not_found: false,
                conflict: true,
                unprocessable: true,
                resource: ResourceKind::Admin,
            },
        }
    }

    /// `PUT /api/admin/{admin_username}` — plan: modify an admin, JSON body.
    /// Recognized besides success: 401, 403, 404, 422.
    pub fn modify_admin_request(&self, admin_username: &str) -> (c: EndpointCall)
        ensures
            c.request.method == Method::Put,
            c.request.url@ == self.base_url@ + "/api/admin/"@ + admin_username@,
            spec_authorizes(*self, c.request),
            c.request.query@.len() == 0,
            c.request.body == BodyEncoding::Json,
            c.branches == (EndpointBranches {
                unauthorized: true,
                forbidden: true,
                not_found: true,
                conflict: false,
                unprocessable: true,
                resource: ResourceKind::Admin,
            }),
    {
        let mut url = self.base_url.clone().concat("/api/admin/");
        url.append(admin_username);
        let mut request = self.prepare_authorized_request(Method::Put, url);
        request.body = BodyEncoding::Json;
        EndpointCall {
            request,
            branches: EndpointBranches {
                unauthorized: true,
                forbidden: true,
                not_found: true,
                conflict: false,
                unprocessable: true,
                resource: ResourceKind::Admin,
            },
        }
    }

    /// `DELETE /api/admin/{admin_username}` — plan: remove an admin.
    /// Recognized besides success: 401, 403, 404, 422.
    pub fn delete_admin_request(&self, admin_username: &str) -> (c: EndpointCall)
        ensures
            c.request.method == Method::Delete,
            c.request.url@ == self.base_url@ + "/api/admin/"@ + admin_username@,
            spec_authorizes(*self, c.request),
            c.request.query@.len() == 0,
            c.request.body == BodyEncoding::Empty,
            c.branches == (EndpointBranches {
                unauthorized: true,
                forbidden: true,
                not_found: true,
                conflict: false,
                unprocessable: true,
                resource: ResourceKind::Admin,
            }),
    {
        let mut url = self.base_url.clone().concat("/api/admin/");
        url.append(admin_username);
        let request = self.prepare_authorized_request(Method::Delete, url);
        EndpointCall {
            request,
            branches: EndpointBranches {
                unauthorized: true,
                forbidden: true,
                not_found: true,
                conflict: false,
                unprocessable: true,
                resource: ResourceKind::Admin,
            },
        }
    }

    /// `GET /api/admins/` — plan: list admins, with optional pagination and
    /// username filter sent only when present. Recognized besides success:
    /// 401, 403, 422.
    pub fn get_admins_request(
        &self,
        offset: Option<i32>,
        limit: Option<i32>,
        username: Option<&str>,
    ) -> (c: EndpointCall)
        ensures
            c.request.method == Method::Get,
            c.request.url@ == self.base_url@ + "/api/admins/"@,
            spec_authorizes(*self, c.request),
            spec_query_view(c.request.query@) == spec_opt_pair("offset"@, spec_opt_idec(offset))
                + spec_opt_pair("limit"@, spec_opt_idec(limit)) + spec_opt_pair(
                "username"@,
                spec_opt_slice_view(username),
            ),
            c.request.body == BodyEncoding::Empty,
            c.branches == (EndpointBranches {
                unauthorized: true,
                forbidden: true,
                not_found: false,
                conflict: false,
                unprocessable: true,
                resource: ResourceKind::Admin,
            }),
    {
        let url = self.base_url.clone().concat("/api/admins/");
        let mut request = self.prepare_authorized_request(Method::Get, url);
        let mut params: Vec<(String, String)> = Vec::new();
        proof {
            assert(spec_query_view(params@) =~= Seq::<(Seq<char>, Seq<char>)>::empty());
        }
        if let Some(value) = offset {
            push_pair(&mut params, "offset", i64_to_string(value as i64));
        }
        if let Some(value) = limit {
            push_pair(&mut params, "limit", i64_to_string(value as i64));
        }
        if let Some(value) = username {
            push_pair(&mut params, "username", String::from_str(value));
        }
        proof {
            assert(spec_query_view(params@) =~= spec_opt_pair("offset"@, spec_opt_idec(offset))
                + spec_opt_pair("limit"@, spec_opt_idec(limit)) + spec_opt_pair(
                "username"@,
                spec_opt_slice_view(username),
            ));
        }
        request.query = params;
        EndpointCall {
            request,
            branches: EndpointBranches {
                unauthorized: true,
                forbidden: true,
                not_found: false,
                conflict: false,
                unprocessable: true,
                resource: ResourceKind::Admin,
            },
        }
    }
}

} // verus!
