//! User endpoints.

use vstd::prelude::*;

use crate::client::{spec_authorizes, MarzbanAPIClient};
use crate::datetime::{format_datetime, spec_format_datetime, DateTimeUtc};
use crate::dispatch::{BodyEncoding, EndpointBranches, EndpointCall, Method, ResourceKind};
use crate::models::user::{spec_user_status_name, UserStatus};
use crate::text::{
    push_pair, spec_opt_idec, spec_opt_pair, spec_opt_slice_view, spec_opt_str_view,
    spec_query_view,
};

verus! {

/// Query parameters of the user-list endpoint; absent fields are omitted
/// from the query, and each username filter becomes its own pair.
pub struct GetUsersQueryParams {
    pub offset: Option<i32>,
    pub limit: Option<i32>,
    pub username: Option<Vec<String>>,
    pub status: Option<UserStatus>,
    pub sort: Option<String>,
}

/// One "username" pair per name in the filter list.
pub open spec fn spec_username_pairs(us: Option<Vec<String>>) -> Seq<(Seq<char>, Seq<char>)> {
    match us {
        None => Seq::empty(),
        Some(v) => Seq::new(v@.len(), |i: int| ("username"@, v@[i]@)),
    }
}

/// The wire name of an optional status filter.
pub open spec fn spec_opt_status(o: Option<UserStatus>) -> Option<Seq<char>> {
    match o {
        Some(s) => Some(spec_user_status_name(s)),
        None => None,
    }
}

/// The wire text of an optional timestamp bound.
pub open spec fn spec_opt_datetime(o: Option<DateTimeUtc>) -> Option<Seq<char>> {
    match o {
        Some(dt) => Some(spec_format_datetime(dt)),
        None => None,
    }
}

/// The items joined with commas.
pub open spec fn spec_join_comma(vs: Seq<Seq<char>>) -> Seq<char>
    decreases vs.len(),
{
    if vs.len() == 0 {
        Seq::empty()
    } else if vs.len() == 1 {
        vs[0]
    } else {
        spec_join_comma(vs.drop_last()) + ","@ + vs.last()
    }
}

/// Join the items with commas.
fn join_comma(items: &Vec<String>) -> (s: String)
    ensures
        s@ == spec_join_comma(items@.map_values(|x: String| x@)),
{
    let ghost vs = items@.map_values(|x: String| x@);
    let mut s = String::new();
    let mut i: usize = 0;
    while i < items.len()
        invariant
            i <= items@.len(),
            vs == items@.map_values(|x: String| x@),
            s@ == spec_join_comma(vs.take(i as int)),
        decreases items@.len() - i,
    {
        if i > 0 {
            s.append(",");
        }
        s.append(items[i].as_str());
        proof {
            assert(vs.take(i + 1).drop_last() =~= vs.take(i as int));
            assert(vs.take(i + 1).last() == vs[i as int]);
            if i == 0 {
                assert(vs.take(1).len() == 1);
                assert(s@ =~= spec_join_comma(vs.take(1)));
            } else {
                assert(s@ =~= spec_join_comma(vs.take(i + 1)));
            }
        }
        i = i + 1;
    }
    proof {
        assert(vs.take(items@.len() as int) =~= vs);
    }
    s
}

impl MarzbanAPIClient {
    /// `POST /api/user` — plan: add a user, JSON body. Recognized besides
    /// success: 409, 422.
    pub fn add_user_request(&self) -> (c: EndpointCall)
        ensures
            c.request.method == Method::Post,
            c.request.url@ == self.base_url@ + "/api/user"@,
            spec_authorizes(*self, c.request),
            c.request.query@.len() == 0,
            c.request.body == BodyEncoding::Json,
            c.branches == (EndpointBranches {
                unauthorized: false,
                forbidden: false,
                not_found: false,
                conflict: true,
                unprocessable: true,
                resource: ResourceKind::User,
            }),
    {
        let url = self.base_url.clone().concat("/api/user");
        let mut request = self.prepare_authorized_request(Method::Post, url);
        request.body = BodyEncoding::Json;
        EndpointCall {
            request,
            branches: EndpointBranches {
                unauthorized: false,
                forbidden: false,
                not_found: false,
                conflict: true,
                unprocessable: true,
                resource: ResourceKind::User,
            },
        }
    }

    /// `GET /api/user/{username}` — plan: fetch one user. Recognized besides
    /// success: 403, 404, 422.
    pub fn get_user_request(&self, username: &str) -> (c: EndpointCall)
        ensures
            c.request.method == Method::Get,
            c.request.url@ == self.base_url@ + "/api/user/"@ + username@,
            spec_authorizes(*self, c.request),
            c.request.query@.len() == 0,
            c.request.body == BodyEncoding::Empty,
            c.branches == (EndpointBranches {
                unauthorized: false,
                forbidden: true,
                not_found: true,
                conflict: false,
                unprocessable: true,
                resource: ResourceKind::User,
            }),
    {
        let mut url = self.base_url.clone().concat("/api/user/");
        url.append(username);
        let request = self.prepare_authorized_request(Method::Get, url);
        EndpointCall {
            request,
            branches: EndpointBranches {
                unauthorized: false,
                forbidden: true,
                not_found: true,
                conflict: false,
                unprocessable: true,
                resource: ResourceKind::User,
            },
        }
    }

    /// `PUT /api/user/{username}` — plan: modify a user, JSON body.
    /// Recognized besides success: 403, 404, 422.
    pub fn modify_user_request(&self, username: &str) -> (c: EndpointCall)
        ensures
            c.request.method == Method::Put,
            c.request.url@ == self.base_url@ + "/api/user/"@ + username@,
            spec_authorizes(*self, c.request),
            c.request.query@.len() == 0,
            c.request.body == BodyEncoding::Json,
            c.branches == (EndpointBranches {
                unauthorized: false,
                forbidden: true,
                not_found: true,
                conflict: false,
                unprocessable: true,
                resource: ResourceKind::User,
            }),
    {
        let mut url = self.base_url.clone().concat("/api/user/");
        url.append(username);
        let mut request = self.prepare_authorized_request(Method::Put, url);
        request.body = BodyEncoding::Json;
        EndpointCall {
            request,
            branches: EndpointBranches {
                unauthorized: false,
                forbidden: true,
                not_found: true,
                conflict: false,
                unprocessable: true,
                resource: ResourceKind::User,
            },
        }
    }

    /// `DELETE /api/user/{username}` — plan: remove a user. Recognized
    /// besides success: 403, 404, 422.
    pub fn delete_user_request(&self, username: &str) -> (c: EndpointCall)
        ensures
            c.request.method == Method::Delete,
            c.request.url@ == self.base_url@ + "/api/user/"@ + username@,
            spec_authorizes(*self, c.request),
            c.request.query@.len() == 0,
            c.request.body == BodyEncoding::Empty,
            c.branches == (EndpointBranches {
                unauthorized: false,
                forbidden: true,
                not_found: true,
                conflict: false,
                unprocessable: true,
                resource: ResourceKind::User,
            }),
    {
        let mut url = self.base_url.clone().concat("/api/user/");
        url.append(username);
        let request = self.prepare_authorized_request(Method::Delete, url);
        EndpointCall {
            request,
            branches: EndpointBranches {
                unauthorized: false,
                forbidden: true,
                not_found: true,
                conflict: false,
                unprocessable: true,
                resource: ResourceKind::User,
            },
        }
    }

    /// `POST /api/user/{username}/reset` — plan: reset one user's data
    /// usage. Recognized besides success: 403, 404, 409, 422.
    pub fn reset_user_data_usage_request(&self, username: &str) -> (c: EndpointCall)
        ensures
            c.request.method == Method::Post,
            c.request.url@ == self.base_url@ + "/api/user/"@ + username@ + "/reset"@,
            spec_authorizes(*self, c.request),
            c.request.query@.len() == 0,
            c.request.body == BodyEncoding::Empty,
            c.branches == (EndpointBranches {
                unauthorized: false,
                forbidden: true,
                not_found: true,
                conflict: true,
                unprocessable: true,
                resource: ResourceKind::User,
            }),
    {
        let mut url = self.base_url.clone().concat("/api/user/");
        url.append(username);
        url.append("/reset");
        let request = self.prepare_authorized_request(Method::Post, url);
        EndpointCall {
            request,
            branches: EndpointBranches {
                unauthorized: false,
                forbidden: true,
                not_found: true,
                conflict: true,
                unprocessable: true,
                resource: ResourceKind::User,
            },
        }
    }

    /// `POST /api/user/{username}/revoke_sub` — plan: revoke the user's
    /// subscription. Recognized besides success: 403, 404, 422.
    pub fn revoke_user_subscription_request(&self, username: &str) -> (c: EndpointCall)
        ensures
            c.request.method == Method::Post,
            c.request.url@ == self.base_url@ + "/api/user/"@ + username@ + "/revoke_sub"@,
            spec_authorizes(*self, c.request),
            c.request.query@.len() == 0,
            c.request.body == BodyEncoding::Empty,
            c.branches == (EndpointBranches {
                unauthorized: false,
                forbidden: true,
                not_found: true,
                conflict: false,
                unprocessable: true,
                resource: ResourceKind::User,
            }),
    {
        let mut url = self.base_url.clone().concat("/api/user/");
        url.append(username);
        url.append("/revoke_sub");
        let request = self.prepare_authorized_request(Method::Post, url);
        EndpointCall {
            request,
            branches: EndpointBranches {
                unauthorized: false,
                forbidden: true,
                not_found: true,
                conflict: false,
                unprocessable: true,
                resource: ResourceKind::User,
            },
        }
    }

    /// `GET /api/users` — plan: list users; the filter's absent fields are
    /// omitted, each username becomes its own pair, and the status filter is
    /// sent under its wire name. Recognized besides success: 422.
    pub fn get_users_request(&self, query_params: &GetUsersQueryParams) -> (c: EndpointCall)
        ensures
            c.request.method == Method::Get,
            c.request.url@ == self.base_url@ + "/api/users"@,
            spec_authorizes(*self, c.request),
            spec_query_view(c.request.query@) == spec_opt_pair(
                "offset"@,
                spec_opt_idec(query_params.offset),
            ) + spec_opt_pair("limit"@, spec_opt_idec(query_params.limit)) + spec_username_pairs(
                query_params.username,
            ) + spec_opt_pair("status"@, spec_opt_status(query_params.status)) + spec_opt_pair(
                "sort"@,
                spec_opt_str_view(query_params.sort),
            ),
            c.request.body == BodyEncoding::Empty,
            c.branches == (EndpointBranches {
                unauthorized: false,
                forbidden: false,
                not_found: false,
                conflict: false,
                unprocessable: true,
                resource: ResourceKind::User,
            }),
    {
        let url = self.base_url.clone().concat("/api/users");
        let mut request = self.prepare_authorized_request(Method::Get, url);
        let mut params: Vec<(String, String)> = Vec::new();
        proof {
            assert(spec_query_view(params@) =~= Seq::<(Seq<char>, Seq<char>)>::empty());
        }
        if let Some(value) = query_params.offset {
            push_pair(&mut params, "offset", crate::text::i64_to_string(value as i64));
        }
        if let Some(value) = query_params.limit {
            push_pair(&mut params, "limit", crate::text::i64_to_string(value as i64));
        }
        let ghost head = spec_query_view(params@);
        proof {
            assert(head =~= spec_opt_pair("offset"@, spec_opt_idec(query_params.offset))
                + spec_opt_pair("limit"@, spec_opt_idec(query_params.limit)));
        }
        if let Some(names) = &query_params.username {
            let mut i: usize = 0;
            while i < names.len()
                invariant
                    i <= names@.len(),
                    spec_query_view(params@) == head + Seq::new(
                        i as nat,
                        |j: int| ("username"@, names@[j]@),
                    ),
                decreases names@.len() - i,
            {
                push_pair(&mut params, "username", names[i].clone());
                proof {
                    assert(spec_query_view(params@) =~= head + Seq::new(
                        (i + 1) as nat,
                        |j: int| ("username"@, names@[j]@),
                    ));
                }
                i = i + 1;
            }
            proof {
                assert(Seq::new(names@.len(), |j: int| ("username"@, names@[j]@))
                    =~= spec_username_pairs(query_params.username));
            }
        }
        if let Some(value) = &query_params.status {
            push_pair(&mut params, "status", value.query_value());
        }
        if let Some(value) = &query_params.sort {
            push_pair(&mut params, "sort", value.clone());
        }
        proof {
            assert(spec_query_view(params@) =~= spec_opt_pair(
                "offset"@,
                spec_opt_idec(query_params.offset),
            ) + spec_opt_pair("limit"@, spec_opt_idec(query_params.limit)) + spec_username_pairs(
                query_params.username,
            ) + spec_opt_pair("status"@, spec_opt_status(query_params.status)) + spec_opt_pair(
                "sort"@,
                spec_opt_str_view(query_params.sort),
            ));
        }
        request.query = params;
        EndpointCall {
            request,
            branches: EndpointBranches {
                unauthorized: false,
                forbidden: false,
                not_found: false,
                conflict: false,
                unprocessable: true,
                resource: ResourceKind::User,
            },
        }
    }

    /// `POST /api/users/reset` — plan: reset every user's data usage.
    /// Recognized besides success: 403.
    pub fn reset_all_users_data_usage_request(&self) -> (c: EndpointCall)
        ensures
            c.request.method == Method::Post,
            c.request.url@ == self.base_url@ + "/api/users/reset"@,
            spec_authorizes(*self, c.request),
            c.request.query@.len() == 0,
            c.request.body == BodyEncoding::Empty,
            c.branches == (EndpointBranches {
                unauthorized: false,
                forbidden: true,
                not_found: false,
                conflict: false,
                unprocessable: false,
                resource: ResourceKind::User,
            }),
    {
        let url = self.base_url.clone().concat("/api/users/reset");
        let request = self.prepare_authorized_request(Method::Post, url);
        EndpointCall {
            request,
            branches: EndpointBranches {
                unauthorized: false,
                forbidden: true,
                not_found: false,
                conflict: false,
                unprocessable: false,
                resource: ResourceKind::User,
            },
        }
    }

    /// `GET /api/user/{username}/usage` — plan: fetch one user's usage in an
    /// optional date range; absent bounds are omitted. Recognized besides
    /// success: 403, 404, 422.
    pub fn get_user_usage_request(
        &self,
        username: &str,
        start: Option<&str>,
        end: Option<&str>,
    ) -> (c: EndpointCall)
        ensures
            c.request.method == Method::Get,
            c.request.url@ == self.base_url@ + "/api/user/"@ + username@ + "/usage"@,
            spec_authorizes(*self, c.request),
            spec_query_view(c.request.query@) == spec_opt_pair("start"@, spec_opt_slice_view(start))
                + spec_opt_pair("end"@, spec_opt_slice_view(end)),
            c.request.body == BodyEncoding::Empty,
            c.branches == (EndpointBranches {
                unauthorized: false,
                forbidden: true,
                not_found: true,
                conflict: false,
                unprocessable: true,
                resource: ResourceKind::User,
            }),
    {
        let mut url = self.base_url.clone().concat("/api/user/");
        url.append(username);
        url.append("/usage");
        let mut request = self.prepare_authorized_request(Method::Get, url);
        let mut params: Vec<(String, String)> = Vec::new();
        proof {
            assert(spec_query_view(params@) =~= Seq::<(Seq<char>, Seq<char>)>::empty());
        }
        if let Some(value) = start {
            push_pair(&mut params, "start", String::from_str(value));
        }
        if let Some(value) = end {
            push_pair(&mut params, "end", String::from_str(value));
        }
        proof {
            assert(spec_query_view(params@) =~= spec_opt_pair("start"@, spec_opt_slice_view(start))
                + spec_opt_pair("end"@, spec_opt_slice_view(end)));
        }
        request.query = params;
        EndpointCall {
            request,
            branches: EndpointBranches {
                unauthorized: false,
                forbidden: true,
                not_found: true,
                conflict: false,
                unprocessable: true,
                resource: ResourceKind::User,
            },
        }
    }

    /// `GET /api/users/usage` — plan: fetch all users' usage in an optional
    /// date range, optionally narrowed to the named admins (sent as one
    /// comma-joined value). Recognized besides success: 403.
    pub fn get_all_users_usage_request(
        &self,
        start: Option<&str>,
        end: Option<&str>,
        admin: Option<&Vec<String>>,
    ) -> (c: EndpointCall)
        ensures
            c.request.method == Method::Get,
            c.request.url@ == self.base_url@ + "/api/users/usage"@,
            spec_authorizes(*self, c.request),
            spec_query_view(c.request.query@) == spec_opt_pair("start"@, spec_opt_slice_view(start))
                + spec_opt_pair("end"@, spec_opt_slice_view(end)) + (match admin {
                Some(v) => seq![("admin"@, spec_join_comma(v@.map_values(|x: String| x@)))],
                None => Seq::empty(),
            }),
            c.request.body == BodyEncoding::Empty,
            c.branches == (EndpointBranches {
                unauthorized: false,
                forbidden: true,
                not_found: false,
                conflict: false,
                unprocessable: false,
                resource: ResourceKind::User,
            }),
    {
        let url = self.base_url.clone().concat("/api/users/usage");
        let mut request = self.prepare_authorized_request(Method::Get, url);
        let mut params: Vec<(String, String)> = Vec::new();
        proof {
            assert(spec_query_view(params@) =~= Seq::<(Seq<char>, Seq<char>)>::empty());
        }
        if let Some(value) = start {
            push_pair(&mut params, "start", String::from_str(value));
        }
        if let Some(value) = end {
            push_pair(&mut params, "end", String::from_str(value));
        }
        if let Some(value) = admin {
            push_pair(&mut params, "admin", join_comma(value));
        }
        proof {
            assert(spec_query_view(params@) =~= spec_opt_pair("start"@, spec_opt_slice_view(start))
                + spec_opt_pair("end"@, spec_opt_slice_view(end)) + (match admin {
                Some(v) => seq![("admin"@, spec_join_comma(v@.map_values(|x: String| x@)))],
                None => Seq::<(Seq<char>, Seq<char>)>::empty(),
            }));
        }
        request.query = params;
        EndpointCall {
            request,
            branches: EndpointBranches {
                unauthorized: false,
                forbidden: true,
                not_found: false,
                conflict: false,
                unprocessable: false,
                resource: ResourceKind::User,
            },
        }
    }

    /// `PUT /api/user/{username}/set-owner` — plan: hand the user to another
    /// admin, named in the query. Recognized besides success: 403, 404, 422.
    pub fn set_owner_of_user_request(&self, username: &str, admin_username: &str) -> (c:
        EndpointCall)
        ensures
            c.request.method == Method::Put,
            c.request.url@ == self.base_url@ + "/api/user/"@ + username@ + "/set-owner"@,
            spec_authorizes(*self, c.request),
            spec_query_view(c.request.query@) == seq![("admin_username"@, admin_username@)],
            c.request.body == BodyEncoding::Empty,
            c.branches == (EndpointBranches {
                unauthorized: false,
                forbidden: true,
                not_found: true,
                conflict: false,
                unprocessable: true,
                resource: ResourceKind::User,
            }),
    {
        let mut url = self.base_url.clone().concat("/api/user/");
        url.append(username);
        url.append("/set-owner");
        let mut request = self.prepare_authorized_request(Method::Put, url);
        let mut params: Vec<(String, String)> = Vec::new();
        proof {
            assert(spec_query_view(params@) =~= Seq::<(Seq<char>, Seq<char>)>::empty());
        }
        push_pair(&mut params, "admin_username", String::from_str(admin_username));
        proof {
            assert(spec_query_view(params@) =~= seq![("admin_username"@, admin_username@)]);
        }
        request.query = params;
        EndpointCall {
            request,
            branches: EndpointBranches {
                unauthorized: false,
                forbidden: true,
                not_found: true,
                conflict: false,
                unprocessable: true,
                resource: ResourceKind::User,
            },
        }
    }

    /// `GET /api/users/expired` — plan: list users expired inside the
    /// optional bounds, each sent in the canonical timestamp text.
    /// Recognized besides success: 422.
    pub fn get_expired_users_request(
        &self,
        expired_before: Option<DateTimeUtc>,
        expired_after: Option<DateTimeUtc>,
    ) -> (c: EndpointCall)
        ensures
            c.request.method == Method::Get,
            c.request.url@ == self.base_url@ + "/api/users/expired"@,
            spec_authorizes(*self, c.request),
            spec_query_view(c.request.query@) == spec_opt_pair(
                "expired_before"@,
                spec_opt_datetime(expired_before),
            ) + spec_opt_pair("expired_after"@, spec_opt_datetime(expired_after)),
            c.request.body == BodyEncoding::Empty,
            c.branches == (EndpointBranches {
                unauthorized: false,
                forbidden: false,
                not_found: false,
                conflict: false,
                unprocessable: true,
                resource: ResourceKind::User,
            }),
    {
        let url = self.base_url.clone().concat("/api/users/expired");
        let mut request = self.prepare_authorized_request(Method::Get, url);
        let mut params: Vec<(String, String)> = Vec::new();
        proof {
            assert(spec_query_view(params@) =~= Seq::<(Seq<char>, Seq<char>)>::empty());
        }
        if let Some(value) = expired_before {
            push_pair(&mut params, "expired_before", format_datetime(&value));
        }
        if let Some(value) = expired_after {
            push_pair(&mut params, "expired_after", format_datetime(&value));
        }
        proof {
            assert(spec_query_view(params@) =~= spec_opt_pair(
                "expired_before"@,
                spec_opt_datetime(expired_before),
            ) + spec_opt_pair("expired_after"@, spec_opt_datetime(expired_after)));
        }
        request.query = params;
        EndpointCall {
            request,
            branches: EndpointBranches {
                unauthorized: false,
                forbidden: false,
                not_found: false,
                conflict: false,
                unprocessable: true,
                resource: ResourceKind::User,
            },
        }
    }

    /// `DELETE /api/users/expired` — plan: delete users expired inside the
    /// optional bounds. Recognized besides success: 422.
    pub fn delete_expired_users_request(
        &self,
        expired_before: Option<DateTimeUtc>,
        expired_after: Option<DateTimeUtc>,
    ) -> (c: EndpointCall)
        ensures
            c.request.method == Method::Delete,
            c.request.url@ == self.base_url@ + "/api/users/expired"@,
            spec_authorizes(*self, c.request),
            spec_query_view(c.request.query@) == spec_opt_pair(
                "expired_before"@,
                spec_opt_datetime(expired_before),
            ) + spec_opt_pair("expired_after"@, spec_opt_datetime(expired_after)),
            c.request.body == BodyEncoding::Empty,
            c.branches == (EndpointBranches {
                unauthorized: false,
                forbidden: false,
                not_found: false,
                conflict: false,
                unprocessable: true,
                resource: ResourceKind::User,
            }),
    {
        let url = self.base_url.clone().concat("/api/users/expired");
        let mut request = self.prepare_authorized_request(Method::Delete, url);
        let mut params: Vec<(String, String)> = Vec::new();
        proof {
            assert(spec_query_view(params@) =~= Seq::<(Seq<char>, Seq<char>)>::empty());
        }
        if let Some(value) = expired_before {
            push_pair(&mut params, "expired_before", format_datetime(&value));
        }
        if let Some(value) = expired_after {
            push_pair(&mut params, "expired_after", format_datetime(&value));
        }
        proof {
            assert(spec_query_view(params@) =~= spec_opt_pair(
                "expired_before"@,
                spec_opt_datetime(expired_before),
            ) + spec_opt_pair("expired_after"@, spec_opt_datetime(expired_after)));
        }
        request.query = params;
        EndpointCall {
            request,
            branches: EndpointBranches {
                unauthorized: false,
                forbidden: false,
                not_found: false,
                conflict: false,
                unprocessable: true,
                resource: ResourceKind::User,
            },
        }
    }
}

} // verus!
