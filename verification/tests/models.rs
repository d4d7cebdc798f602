use marzban_api::models::base;
use marzban_api::models::components;
use marzban_api::models::proxy::ProxyHostSecurity;
use marzban_api::models::user::{UserDataLimitResetStrategy, UserStatus};

#[test]
fn schema_defaults() {
    assert_eq!(base::default_port(), 62050);
    assert_eq!(base::default_api_port(), 62051);
    assert!(base::default_true());
    assert_eq!(base::default_min_node_version(), "v0.2.0");
    assert_eq!(base::default_proxy_host_security(), ProxyHostSecurity::InboundDefault);
    assert_eq!(base::default_with_0(), 0);
    assert_eq!(
        base::default_data_limit_reset_strategy(),
        UserDataLimitResetStrategy::NoReset
    );
    assert_eq!(base::default_empty_string(), "");
}

#[test]
fn component_schema_defaults() {
    assert_eq!(components::default_port(), 62050);
    assert_eq!(components::default_api_port(), 62051);
    assert!(components::default_true());
    assert_eq!(components::default_min_node_version(), "v0.2.0");
    assert_eq!(
        components::default_proxy_host_security(),
        components::ProxyHostSecurity::InboundDefault
    );
    assert_eq!(components::default_with_0(), 0);
    assert_eq!(
        components::default_data_limit_reset_strategy(),
        components::UserDataLimitResetStrategy::NoReset
    );
    assert_eq!(components::default_empty_string(), "");
}

#[test]
fn user_status_wire_names() {
    assert_eq!(UserStatus::Active.query_value(), "active");
    assert_eq!(UserStatus::Disabled.query_value(), "disabled");
    assert_eq!(UserStatus::Limited.query_value(), "limited");
    assert_eq!(UserStatus::Expired.query_value(), "expired");
    assert_eq!(UserStatus::OnHold.query_value(), "on_hold");
}
