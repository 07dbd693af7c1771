use zero2prod::routes::{endpoints, Endpoint, Method, HEALTH_CHECK_PATH, SUBSCRIPTIONS_PATH};

#[test]
fn health_check_is_registered_under_get() {
    assert_eq!(Endpoint::HealthCheck.method(), Method::Get);
    assert_eq!(Endpoint::HealthCheck.path(), "/health_check");
    assert_eq!(HEALTH_CHECK_PATH, "/health_check");
}

#[test]
fn subscriptions_is_registered_under_post() {
    assert_eq!(Endpoint::Subscriptions.method(), Method::Post);
    assert_eq!(Endpoint::Subscriptions.path(), "/subscriptions");
    assert_eq!(SUBSCRIPTIONS_PATH, "/subscriptions");
}

#[test]
fn exactly_two_endpoints_are_registered() {
    assert_eq!(endpoints(), [Endpoint::HealthCheck, Endpoint::Subscriptions]);
}
