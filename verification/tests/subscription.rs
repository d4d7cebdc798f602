use marzban_api::api::subscription::ClientTypes;
use marzban_api::client::MarzbanAPIClient;
use marzban_api::dispatch::{BodyEncoding, Method};

#[test]
fn correct_client_types() {
    assert_eq!(ClientTypes::Clash.to_string(), "clash")
}

#[test]
fn client_type_names() {
    assert_eq!(ClientTypes::SingBox.to_string(), "sing-box");
    assert_eq!(ClientTypes::ClashMeta.to_string(), "clash-meta");
    assert_eq!(ClientTypes::Outline.to_string(), "outline");
    assert_eq!(ClientTypes::V2Ray.to_string(), "v2ray");
    assert_eq!(ClientTypes::V2RayJSON.to_string(), "v2ray-json");
}

#[test]
fn user_subscription_urls() {
    let c = MarzbanAPIClient::new("http://localhost:8000");
    let call = c.user_subscription_request("tok123");
    assert_eq!(call.request.url, "http://localhost:8000/sub/tok123");
    assert_eq!(call.request.method, Method::Get);
    assert_eq!(call.request.body, BodyEncoding::Empty);
    assert!(call.branches.unprocessable);
    assert!(!call.branches.forbidden);

    let info = c.user_subscription_info_request("tok123");
    assert_eq!(info.request.url, "http://localhost:8000/sub/tok123/info");

    let typed = c.user_subscription_with_client_type_request("tok123", &ClientTypes::Clash);
    assert_eq!(typed.request.url, "http://localhost:8000/sub/tok123/clash");
}

#[test]
fn user_get_usage_query() {
    let c = MarzbanAPIClient::new("http://localhost:8000");
    let call = c.user_get_usage_request("tok123", Some("2024-01-01"), None);
    assert_eq!(call.request.url, "http://localhost:8000/sub/tok123/usage");
    assert_eq!(call.request.query.len(), 1);
    assert_eq!(call.request.query[0].0, "start");
    assert_eq!(call.request.query[0].1, "2024-01-01");
}
