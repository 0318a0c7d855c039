use zero2prod::routes::subscriptions::{
    subscribe, subscribed, FormData, FormError, FormField, Subscribe,
};
use zero2prod::routes::{Response, BAD_REQUEST, INTERNAL_SERVER_ERROR, OK};

fn pair(name: &str, value: &str) -> (String, String) {
    (name.to_string(), value.to_string())
}

fn error_of(result: Result<FormData, FormError>) -> FormError {
    match result {
        Ok(form) => panic!("read as a subscription: {form:?}"),
        Err(error) => error,
    }
}

#[test]
fn status_constants_have_their_numbers() {
    assert_eq!(OK, 200);
    assert_eq!(BAD_REQUEST, 400);
    assert_eq!(INTERNAL_SERVER_ERROR, 500);
}

#[test]
fn empty_response_has_no_body() {
    let response = Response::empty(204);
    assert_eq!(response.status, 204);
    assert_eq!(response.content_length(), 0);
    assert!(response.is_success());
}

#[test]
fn success_is_the_range_from_200_to_299() {
    assert!(!Response::empty(199).is_success());
    assert!(Response::empty(200).is_success());
    assert!(Response::empty(299).is_success());
    assert!(!Response::empty(300).is_success());
    assert!(!Response::empty(400).is_success());
    assert!(!Response::empty(500).is_success());
}

#[test]
fn content_length_counts_the_body() {
    let response = Response { status: 200, body: vec![1, 2, 3] };
    assert_eq!(response.content_length(), 3);
}

#[test]
fn field_names_are_those_of_the_form() {
    assert_eq!(FormField::Email.name(), "email");
    assert_eq!(FormField::Name.name(), "name");
}

#[test]
fn from_pairs_reads_both_fields_in_either_order() {
    let form = FormData::from_pairs(vec![pair("name", "Ursula"), pair("email", "u@example.com")])
        .expect("both fields are given");
    assert_eq!(form.name, "Ursula");
    assert_eq!(form.email, "u@example.com");

    let form = FormData::from_pairs(vec![pair("email", "u@example.com"), pair("name", "Ursula")])
        .expect("both fields are given");
    assert_eq!(form.name, "Ursula");
    assert_eq!(form.email, "u@example.com");
}

#[test]
fn from_pairs_passes_over_other_names() {
    let form = FormData::from_pairs(vec![
        pair("utm", "x"),
        pair("name", "Ursula"),
        pair("Name", "not this"),
        pair("email", "u@example.com"),
        pair("emails", "nor this"),
    ])
    .expect("both fields are given");
    assert_eq!(form.name, "Ursula");
    assert_eq!(form.email, "u@example.com");
}

#[test]
fn from_pairs_accepts_empty_values() {
    let form = FormData::from_pairs(vec![pair("name", ""), pair("email", "")])
        .expect("both fields are given");
    assert_eq!(form.name, "");
    assert_eq!(form.email, "");
}

#[test]
fn from_pairs_reports_the_missing_field() {
    assert_eq!(error_of(FormData::from_pairs(vec![])), FormError::Missing(FormField::Email));
    assert_eq!(
        error_of(FormData::from_pairs(vec![pair("name", "Ursula")])),
        FormError::Missing(FormField::Email)
    );
    assert_eq!(
        error_of(FormData::from_pairs(vec![pair("email", "u@example.com")])),
        FormError::Missing(FormField::Name)
    );
    assert_eq!(
        error_of(FormData::from_pairs(vec![pair("other", "x")])),
        FormError::Missing(FormField::Email)
    );
}

#[test]
fn from_pairs_reports_a_field_given_twice() {
    assert_eq!(
        error_of(FormData::from_pairs(vec![
            pair("name", "a"),
            pair("email", "b"),
            pair("name", "c"),
        ])),
        FormError::Duplicate(FormField::Name)
    );
    assert_eq!(
        error_of(FormData::from_pairs(vec![
            pair("email", "a"),
            pair("email", "a"),
            pair("name", "c"),
        ])),
        FormError::Duplicate(FormField::Email)
    );
}

#[test]
fn from_pairs_reports_twice_before_missing_and_address_before_name() {
    assert_eq!(
        error_of(FormData::from_pairs(vec![pair("name", "a"), pair("name", "b")])),
        FormError::Duplicate(FormField::Name)
    );
    assert_eq!(
        error_of(FormData::from_pairs(vec![
            pair("name", "a"),
            pair("name", "b"),
            pair("email", "c"),
            pair("email", "d"),
        ])),
        FormError::Duplicate(FormField::Email)
    );
}

#[test]
fn parse_decodes_percent_escapes_and_plus() {
    let form = FormData::parse(b"name=Alison%20Jenkins&email=not_my_email%40nomail.com")
        .expect("both fields are given");
    assert_eq!(form.name, "Alison Jenkins");
    assert_eq!(form.email, "not_my_email@nomail.com");

    let form = FormData::parse(b"email=a%2Bb%40c.d&name=le+guin").expect("both fields are given");
    assert_eq!(form.name, "le guin");
    assert_eq!(form.email, "a+b@c.d");
}

#[test]
fn parse_does_not_hand_the_body_back() {
    let body = b"name=%41&email=%42";
    let form = FormData::parse(body).expect("both fields are given");
    assert_eq!(form.name, "A");
    assert_eq!(form.email, "B");
}

#[test]
fn parse_decodes_names_as_well_as_values() {
    let form = FormData::parse(b"%6Eame=x&e%6Dail=y").expect("both fields are given");
    assert_eq!(form.name, "x");
    assert_eq!(form.email, "y");
}

#[test]
fn parse_takes_a_field_without_equals_sign_as_empty() {
    let form = FormData::parse(b"name&email").expect("both fields are given");
    assert_eq!(form.name, "");
    assert_eq!(form.email, "");
}

#[test]
fn parse_skips_empty_parts() {
    let form = FormData::parse(b"&&name=a&&email=b&").expect("both fields are given");
    assert_eq!(form.name, "a");
    assert_eq!(form.email, "b");
}

#[test]
fn parse_of_an_empty_body_lacks_the_address() {
    assert_eq!(error_of(FormData::parse(b"")), FormError::Missing(FormField::Email));
}

#[test]
fn parse_reports_missing_and_repeated_fields() {
    assert_eq!(error_of(FormData::parse(b"name=le%20guin")), FormError::Missing(FormField::Email));
    assert_eq!(
        error_of(FormData::parse(b"email=ursula_le_guin%40gmail.com")),
        FormError::Missing(FormField::Name)
    );
    assert_eq!(
        error_of(FormData::parse(b"name=a&email=b&email=c")),
        FormError::Duplicate(FormField::Email)
    );
}

#[test]
fn subscribe_stores_exactly_the_subscription_sent() {
    match subscribe(b"email=ursula_le_guin%40gmail.com&name=le%20guin") {
        Subscribe::Store(form) => {
            assert_eq!(form.email, "ursula_le_guin@gmail.com");
            assert_eq!(form.name, "le guin");
        }
        Subscribe::Reject(response) => panic!("rejected with {}", response.status),
    }
}

#[test]
fn subscribe_rejects_with_400_and_an_empty_body() {
    for body in ["", "name=a", "email=b", "name=a&name=b&email=c", "x=y"] {
        match subscribe(body.as_bytes()) {
            Subscribe::Store(form) => panic!("stored {form:?}"),
            Subscribe::Reject(response) => {
                assert_eq!(response.status, 400);
                assert!(response.body.is_empty());
            }
        }
    }
}

#[test]
fn subscribed_answers_200_when_stored_and_500_when_not() {
    let stored = subscribed(true);
    assert_eq!(stored.status, 200);
    assert!(stored.body.is_empty());

    let failed = subscribed(false);
    assert_eq!(failed.status, 500);
    assert!(failed.body.is_empty());
}

#[test]
fn duplicate_submissions_are_each_stored() {
    let mut table = Vec::new();
    for _ in 0..2 {
        if let Subscribe::Store(form) = subscribe(b"name=a&email=b") {
            table.push(form);
        }
    }
    assert_eq!(table.len(), 2);
}
