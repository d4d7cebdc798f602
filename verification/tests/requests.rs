use marzban_api::api::user::GetUsersQueryParams;
use marzban_api::client::MarzbanAPIClient;
use marzban_api::datetime::DateTimeUtc;
use marzban_api::dispatch::{BodyEncoding, Method, ResourceKind};
use marzban_api::models::user::UserStatus;

fn client() -> MarzbanAPIClient {
    MarzbanAPIClient::new("http://localhost:8000")
}

fn pairs(q: &[(String, String)]) -> Vec<(&str, &str)> {
    q.iter().map(|p| (p.0.as_str(), p.1.as_str())).collect()
}

#[test]
fn admin_endpoints() {
    let c = client();
    let token = c.admin_token_request();
    assert_eq!(token.request.url, "http://localhost:8000/api/admin/token");
    assert_eq!(token.request.method, Method::Post);
    assert_eq!(token.request.body, BodyEncoding::Form);
    assert!(token.branches.unprocessable);
    assert!(!token.branches.unauthorized);

    let create = c.create_admin_request();
    assert_eq!(create.request.url, "http://localhost:8000/api/admin");
    assert_eq!(create.request.body, BodyEncoding::Json);
    assert!(create.branches.conflict);
    assert!(!create.branches.not_found);

    let modify = c.modify_admin_request("alice");
    assert_eq!(modify.request.url, "http://localhost:8000/api/admin/alice");
    assert_eq!(modify.request.method, Method::Put);
    assert!(modify.branches.not_found);
    assert_eq!(modify.branches.resource, ResourceKind::Admin);

    let delete = c.delete_admin_request("alice");
    assert_eq!(delete.request.method, Method::Delete);
    assert_eq!(delete.request.body, BodyEncoding::Empty);
}

#[test]
fn get_admins_query_keeps_only_present_parameters() {
    let c = client();
    let call = c.get_admins_request(Some(5), None, Some("alice"));
    assert_eq!(call.request.url, "http://localhost:8000/api/admins/");
    assert_eq!(pairs(&call.request.query), vec![("offset", "5"), ("username", "alice")]);

    let none = c.get_admins_request(None, None, None);
    assert!(none.request.query.is_empty());

    let negative = c.get_admins_request(Some(-3), Some(0), None);
    assert_eq!(pairs(&negative.request.query), vec![("offset", "-3"), ("limit", "0")]);
}

#[test]
fn core_endpoints() {
    let c = client();
    assert_eq!(c.get_core_stats_request().request.url, "http://localhost:8000/api/core");
    let restart = c.restart_core_request();
    assert_eq!(restart.request.url, "http://localhost:8000/api/core/restart");
    assert_eq!(restart.request.method, Method::Post);
    let config = c.get_core_config_request();
    assert_eq!(config.request.url, "http://localhost:8000/api/core/config");
    assert!(config.branches.forbidden);
    assert_eq!(c.modify_core_config_request().request.body, BodyEncoding::Json);
}

#[test]
fn base_url_endpoint_recognizes_only_success() {
    let c = client();
    let call = c.base_url_request();
    assert_eq!(call.request.url, "http://localhost:8000");
    assert!(!call.branches.unauthorized);
    assert!(!call.branches.forbidden);
    assert!(!call.branches.not_found);
    assert!(!call.branches.conflict);
    assert!(!call.branches.unprocessable);
}

#[test]
fn node_endpoints() {
    let c = client();
    assert_eq!(
        c.get_node_settings_request().request.url,
        "http://localhost:8000/api/node/settings"
    );
    let get = c.get_node_request(17);
    assert_eq!(get.request.url, "http://localhost:8000/api/node/17");
    assert_eq!(get.branches.resource, ResourceKind::Node);
    assert_eq!(
        c.reconnect_node_request(17).request.url,
        "http://localhost:8000/api/node/17/reconnect"
    );
    let usage = c.get_nodes_usage_request(Some("2024-01-01"), Some("2024-02-01"));
    assert_eq!(usage.request.url, "http://localhost:8000/api/nodes/usage");
    assert_eq!(usage.request.method, Method::Get);
    assert_eq!(
        pairs(&usage.request.query),
        vec![("start", "2024-01-01"), ("end", "2024-02-01")]
    );
}

#[test]
fn user_endpoints() {
    let c = client();
    let add = c.add_user_request();
    assert_eq!(add.request.url, "http://localhost:8000/api/user");
    assert!(add.branches.conflict);
    assert!(!add.branches.forbidden);

    let get = c.get_user_request("bob");
    assert_eq!(get.request.url, "http://localhost:8000/api/user/bob");
    assert_eq!(get.branches.resource, ResourceKind::User);

    assert_eq!(
        c.reset_user_data_usage_request("bob").request.url,
        "http://localhost:8000/api/user/bob/reset"
    );
    assert_eq!(
        c.revoke_user_subscription_request("bob").request.url,
        "http://localhost:8000/api/user/bob/revoke_sub"
    );
    assert_eq!(
        pairs(&c.set_owner_of_user_request("bob", "alice").request.query),
        vec![("admin_username", "alice")]
    );
    assert_eq!(
        pairs(&c.get_user_usage_request("bob", None, Some("2024-02-01")).request.query),
        vec![("end", "2024-02-01")]
    );
}

#[test]
fn get_users_query_expands_the_filter() {
    let c = client();
    let q = GetUsersQueryParams {
        offset: Some(10),
        limit: Some(20),
        username: Some(vec![String::from("bob"), String::from("carol")]),
        status: Some(UserStatus::OnHold),
        sort: Some(String::from("-created_at")),
    };
    let call = c.get_users_request(&q);
    assert_eq!(call.request.url, "http://localhost:8000/api/users");
    assert_eq!(
        pairs(&call.request.query),
        vec![
            ("offset", "10"),
            ("limit", "20"),
            ("username", "bob"),
            ("username", "carol"),
            ("status", "on_hold"),
            ("sort", "-created_at"),
        ]
    );

    let empty = GetUsersQueryParams {
        offset: None,
        limit: None,
        username: None,
        status: None,
        sort: None,
    };
    assert!(c.get_users_request(&empty).request.query.is_empty());
}

#[test]
fn all_users_usage_joins_admins() {
    let c = client();
    let admins = vec![String::from("alice"), String::from("bob"), String::from("carol")];
    let call = c.get_all_users_usage_request(None, None, Some(&admins));
    assert_eq!(pairs(&call.request.query), vec![("admin", "alice,bob,carol")]);

    let one = vec![String::from("alice")];
    let single = c.get_all_users_usage_request(Some("2024-01-01"), None, Some(&one));
    assert_eq!(
        pairs(&single.request.query),
        vec![("start", "2024-01-01"), ("admin", "alice")]
    );
}

#[test]
fn expired_users_send_canonical_timestamps() {
    let c = client();
    let before = DateTimeUtc { year: 2024, month: 3, day: 1, hour: 0, minute: 0, second: 0, nanosecond: 0 };
    let call = c.get_expired_users_request(Some(before), None);
    assert_eq!(call.request.url, "http://localhost:8000/api/users/expired");
    assert_eq!(
        pairs(&call.request.query),
        vec![("expired_before", "2024-03-01T00:00:00")]
    );
    let del = c.delete_expired_users_request(None, Some(before));
    assert_eq!(del.request.method, Method::Delete);
    assert_eq!(
        pairs(&del.request.query),
        vec![("expired_after", "2024-03-01T00:00:00")]
    );
}

#[test]
fn user_template_endpoints() {
    let c = client();
    let list = c.get_user_templates_request(None, Some(50));
    assert_eq!(list.request.url, "http://localhost:8000/api/user_template");
    assert_eq!(pairs(&list.request.query), vec![("limit", "50")]);

    let get = c.get_user_template_request(3);
    assert_eq!(get.request.url, "http://localhost:8000/api/user_template/3");
    assert_eq!(get.branches.resource, ResourceKind::UserTemplate);
    let not_found = marzban_api::dispatch::classify_status(&get.branches, 404);
    match marzban_api::dispatch::response_error(not_found, get.branches.resource) {
        Some(marzban_api::error::ApiError::ApiResponseError(m)) => {
            assert_eq!(m, "User Template not found")
        }
        _ => panic!("expected the fixed not-found error"),
    }

    let modify = c.modify_user_template_request(3);
    assert!(modify.branches.conflict);
    assert_eq!(modify.branches.resource, ResourceKind::UserTemplate);

    assert_eq!(
        c.remove_user_template_request(3).request.method,
        Method::Delete
    );
}

#[test]
fn system_endpoints() {
    let c = client();
    assert_eq!(c.get_system_stats_request().request.url, "http://localhost:8000/api/system");
    assert_eq!(c.get_inbounds_request().request.url, "http://localhost:8000/api/inbounds");
    assert_eq!(c.get_hosts_request().request.url, "http://localhost:8000/api/hosts");
    let hosts = c.modify_hosts_request();
    assert_eq!(hosts.request.body, BodyEncoding::Json);
    assert!(hosts.branches.forbidden);
}

#[test]
fn seeded_token_reaches_every_plan() {
    let c = MarzbanAPIClient::new_with_token("http://localhost:8000", "tok-xyz");
    assert_eq!(c.get_user_request("bob").request.bearer.as_deref(), Some("tok-xyz"));
    assert_eq!(c.get_nodes_request().request.bearer.as_deref(), Some("tok-xyz"));
    assert_eq!(c.admin_token_request().request.bearer.as_deref(), Some("tok-xyz"));
}
