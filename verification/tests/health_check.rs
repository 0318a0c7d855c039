use zero2prod::routes::health_check::health_check;
use zero2prod::routes::subscriptions::{subscribe, subscribed, FormData, Subscribe};

/// Carries a request to subscribe out against a list that stands for the
/// table of subscriptions, and gives the status that is answered.
fn post_subscription(body: &[u8], table: &mut Vec<FormData>) -> u16 {
    match subscribe(body) {
        Subscribe::Store(form) => {
            table.push(form);
            subscribed(true).status
        }
        Subscribe::Reject(response) => response.status,
    }
}

#[test]
fn health_check_works() {
    let response = health_check();

    assert!(response.is_success());
    assert_eq!(Some(0), Some(response.content_length()));
}

#[test]
fn subscribe_returns_a_200_for_valid_form_data() {
    let mut table = Vec::new();
    let body = "name=Alison%20Jenkins&email=not_my_email%40nomail.com";

    let status = post_subscription(body.as_bytes(), &mut table);

    assert_eq!(200, status);

    assert_eq!(table.len(), 1);
    let saved = &table[0];

    assert_eq!(saved.email, "not_my_email@nomail.com");
    assert_eq!(saved.name, "Alison Jenkins");
}

#[test]
fn subscribe_returns_400_when_data_is_missing() {
    let test_cases = vec![
        ("name=le%20guin", "missing the email"),
        ("email=ursula_le_guin%40gmail.com", "missing the name"),
        ("", "missing both name and email"),
    ];

    for (invalid_body, error_message) in test_cases {
        let mut table = Vec::new();
        let status = post_subscription(invalid_body.as_bytes(), &mut table);

        assert_eq!(
            400, status,
            "The API did not fail with 400 Bad Request when the payload was {error_message}.",
        );
        assert!(table.is_empty());
    }
}

#[test]
fn health_check_answers_the_same_after_other_requests() {
    let mut table = Vec::new();
    let before = health_check();
    post_subscription(b"name=a&email=b", &mut table);
    post_subscription(b"", &mut table);
    let after = health_check();

    assert_eq!(before.status, 200);
    assert!(before.body.is_empty());
    assert_eq!(after.status, 200);
    assert!(after.body.is_empty());
    assert_eq!(after.content_length(), 0);
}
