//! Subscription endpoints.

use vstd::prelude::*;

use crate::client::{spec_authorizes, MarzbanAPIClient};
use crate::dispatch::{BodyEncoding, EndpointBranches, EndpointCall, Method, ResourceKind};
use crate::text::{push_pair, spec_opt_pair, spec_opt_slice_view, spec_query_view};

verus! {

/// The subscription formats a link can be requested in.
#[derive(Clone, Copy, PartialEq, Eq, Structural, Debug)]
pub enum ClientTypes {
    SingBox,
    ClashMeta,
    Clash,
    Outline,
    V2Ray,
    V2RayJSON,
}

/// The wire name of a client type, as it appears in the URL path.
pub open spec fn spec_client_type_name(t: ClientTypes) -> Seq<char> {
    match t {
        ClientTypes::SingBox => "sing-box"@,
        ClientTypes::ClashMeta => "clash-meta"@,
        ClientTypes::Clash => "clash"@,
        ClientTypes::Outline => "outline"@,
        ClientTypes::V2Ray => "v2ray"@,
        ClientTypes::V2RayJSON => "v2ray-json"@,
    }
}

impl ClientTypes {
    /// The wire name as text.
    pub fn to_string(&self) -> (s: String)
        ensures
            s@ == spec_client_type_name(*self),
    {
        match self {
            ClientTypes::SingBox => String::from_str("sing-box"),
            ClientTypes::ClashMeta => String::from_str("clash-meta"),
            ClientTypes::Clash => String::from_str("clash"),
            ClientTypes::Outline => String::from_str("outline"),
            ClientTypes::V2Ray => String::from_str("v2ray"),
            ClientTypes::V2RayJSON => String::from_str("v2ray-json"),
        }
    }
}

impl MarzbanAPIClient {
    /// `GET /sub/{user_token}` — plan: fetch the subscription content the
    /// server chooses by user agent. Recognized besides success: 422.
    pub fn user_subscription_request(&self, user_token: &str) -> (c: EndpointCall)
        ensures
            c.request.method == Method::Get,
            c.request.url@ == self.base_url@ + "/sub/"@ + user_token@,
            spec_authorizes(*self, c.request),
            c.request.query@.len() == 0,
            c.request.body == BodyEncoding::Empty,
            c.branches == (EndpointBranches {
                unauthorized: false,
                forbidden: false,
                not_found: false,
                conflict: false,
                unprocessable: true,
                resource: ResourceKind::User,
            }),
    {
        let mut url = self.base_url.clone().concat("/sub/");
        url.append(user_token);
        let request = self.prepare_authorized_request(Method::Get, url);
        EndpointCall {
            request,
            branches: EndpointBranches {
                unauthorized: false,
                forbidden: false,
                not_found: false,
                conflict: false,
                unprocessable: true,
                resource: ResourceKind::User,
            },
        }
    }

    /// `GET /sub/{user_token}/info` — plan: fetch the subscription's user
    /// details. Recognized besides success: 422.
    pub fn user_subscription_info_request(&self, user_token: &str) -> (c: EndpointCall)
        ensures
            c.request.method == Method::Get,
            c.request.url@ == self.base_url@ + "/sub/"@ + user_token@ + "/info"@,
            spec_authorizes(*self, c.request),
            c.request.query@.len() == 0,
            c.request.body == BodyEncoding::Empty,
            c.branches == (EndpointBranches {
                unauthorized: false,
                forbidden: false,
                not_found: false,
                conflict: false,
                unprocessable: true,
                resource: ResourceKind::User,
            }),
    {
        let mut url = self.base_url.clone().concat("/sub/");
        url.append(user_token);
        url.append("/info");
        let request = self.prepare_authorized_request(Method::Get, url);
        EndpointCall {
            request,
            branches: EndpointBranches {
                unauthorized: false,
                forbidden: false,
                not_found: false,
                conflict: false,
                unprocessable: true,
                resource: ResourceKind::User,
            },
        }
    }

    /// `GET /sub/{user_token}/usage` — plan: fetch the subscription's usage
    /// in an optional date range; absent bounds are omitted. Recognized
    /// besides success: 422.
    pub fn user_get_usage_request(
        &self,
        user_token: &str,
        start: Option<&str>,
        end: Option<&str>,
    ) -> (c: EndpointCall)
        ensures
            c.request.method == Method::Get,
            c.request.url@ == self.base_url@ + "/sub/"@ + user_token@ + "/usage"@,
            spec_authorizes(*self, c.request),
            spec_query_view(c.request.query@) == spec_opt_pair("start"@, spec_opt_slice_view(start))
                + spec_opt_pair("end"@, spec_opt_slice_view(end)),
            c.request.body == BodyEncoding::Empty,
            c.branches == (EndpointBranches {
                unauthorized: false,
                forbidden: false,
                not_found: false,
                conflict: false,
                unprocessable: true,
                resource: ResourceKind::User,
            }),
    {
        let mut url = self.base_url.clone().concat("/sub/");
        url.append(user_token);
        url.append("/usage");
        let mut request = self.prepare_authorized_request(Method::Get, url);
        let mut params: Vec<(String, String)> = Vec::new();
        proof {
            assert(spec_query_view(params@) =~= Seq::<(Seq<char>, Seq<char>)>::empty());
        }
        if let Some(value) = start {
            push_pair(&mut params, "start", String::from_str(value));
        }
        if let Some(value) = end {
            push_pair(&mut params, "end", String::from_str(value));
        }
        proof {
            assert(spec_query_view(params@) =~= spec_opt_pair("start"@, spec_opt_slice_view(start))
                + spec_opt_pair("end"@, spec_opt_slice_view(end)));
        }
        request.query = params;
        EndpointCall {
            request,
            branches: EndpointBranches {
                unauthorized: false,
                forbidden: false,
                not_found: false,
                conflict: false,
                unprocessable: true,
                resource: ResourceKind::User,
            },
        }
    }

    /// `GET /sub/{user_token}/{client_type}` — plan: fetch the subscription
    /// in the named client format. Recognized besides success: 422.
    pub fn user_subscription_with_client_type_request(
        &self,
        user_token: &str,
        client_type: &ClientTypes,
    ) -> (c: EndpointCall)
        ensures
            c.request.method == Method::Get,
            c.request.url@ == self.base_url@ + "/sub/"@ + user_token@ + "/"@
                + spec_client_type_name(*client_type),
            spec_authorizes(*self, c.request),
            c.request.query@.len() == 0,
            c.request.body == BodyEncoding::Empty,
            c.branches == (EndpointBranches {
                unauthorized: false,
                forbidden: false,
                not_found: false,
                conflict: false,
                unprocessable: true,
                resource: ResourceKind::User,
            }),
    {
        let mut url = self.base_url.clone().concat("/sub/");
        url.append(user_token);
        url.append("/");
        url.append(client_type.to_string().as_str());
        let request = self.prepare_authorized_request(Method::Get, url);
        EndpointCall {
            request,
            branches: EndpointBranches {
                unauthorized: false,
                forbidden: false,
                not_found: false,
                conflict: false,
                unprocessable: true,
                resource: ResourceKind::User,
            },
        }
    }
}

} // verus!
