use zero2prod::routes::health_check::health_check;
use zero2prod::routes::subscriptions::{
    respond_to_insert, subscribe, InsertStatement, StorageError, SubscribeStep,
};

/// Runs a sign-up against `store` the way the server does: decide, insert,
/// decide again. Returns the status code sent to the client.
fn post_subscriptions(store: &mut Vec<InsertStatement>, body: &str) -> u16 {
    match subscribe(body.as_bytes()) {
        SubscribeStep::Respond(response) => response.status,
        SubscribeStep::Insert(statement) => {
            store.push(statement);
            respond_to_insert(&Ok(())).status
        }
    }
}

#[test]
fn health_check_works() {
    let response = health_check();

    assert!((200..300).contains(&response.status));
    assert_eq!(Some(0), Some(response.body.len()));
}

#[test]
fn subscribe_returns_200_for_valid_form_data() {
    let mut store = Vec::new();

    let body = "name=le%20guin&email=ursula_le_guin%40gmail.com";
    let status = post_subscriptions(&mut store, body);

    assert_eq!(200, status);

    assert_eq!(store.len(), 1);
    let saved = &store[0];

    assert_eq!(saved.email, "ursula_le_guin@gmail.com");
    assert_eq!(saved.name, "le guin");
}

#[test]
fn subscribe_returns_400_when_data_is_missing() {
    let mut store = Vec::new();

    let test_cases = vec![
        ("name=le%20guin", "missing the email"),
        ("email=ursula_le_guin%40gmail.com", "missing the name"),
        ("", "missing both name and email"),
    ];

    for (invalid_body, error_message) in test_cases {
        let status = post_subscriptions(&mut store, invalid_body);

        assert_eq!(
            400, status,
            "API did not fail with 400 Bad Request when payload was {}",
            error_message
        );
        assert!(store.is_empty());
    }
}

#[test]
fn health_check_is_the_same_after_other_requests() {
    let mut store = Vec::new();
    let first = health_check();
    post_subscriptions(&mut store, "name=le%20guin&email=ursula_le_guin%40gmail.com");
    post_subscriptions(&mut store, "");
    let failed = respond_to_insert(&Err(StorageError { detail: "connection refused".to_string() }));
    assert_eq!(failed.status, 500);
    let second = health_check();

    assert_eq!(first, second);
    assert_eq!(second.status, 200);
    assert!(second.body.is_empty());
}
