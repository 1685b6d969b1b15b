use realworld_axum_sqlx::http::error::{field_error, on_constraint, Error};

fn entries(e: &Error) -> Vec<(String, Vec<String>)> {
    match e {
        Error::UnprocessableEntity { errors } => errors.clone(),
        other => panic!("not a validation error: {:?}", other),
    }
}

fn pair(field: &str, messages: &[&str]) -> (String, Vec<String>) {
    (field.to_string(), messages.iter().map(|m| m.to_string()).collect())
}

#[test]
fn status_codes() {
    assert_eq!(Error::Unauthorized.status_code(), 401);
    assert_eq!(Error::Forbidden.status_code(), 403);
    assert_eq!(Error::NotFound.status_code(), 404);
    assert_eq!(Error::unprocessable_entity(&[("a", "b")]).status_code(), 422);
    assert_eq!(Error::unprocessable_entity(&[]).status_code(), 422);
    assert_eq!(Error::Database { constraint: None }.status_code(), 500);
    assert_eq!(
        Error::Database { constraint: Some("user_email_key".to_string()) }.status_code(),
        500
    );
    assert_eq!(Error::Internal.status_code(), 500);
}

#[test]
fn one_message() {
    let e = Error::unprocessable_entity(&[("username", "username taken")]);
    assert_eq!(entries(&e), vec![pair("username", &["username taken"])]);
    let e = field_error("email", "email taken");
    assert_eq!(entries(&e), vec![pair("email", &["email taken"])]);
}

#[test]
fn no_message() {
    assert_eq!(entries(&Error::unprocessable_entity(&[])), vec![]);
}

#[test]
fn messages_are_gathered_by_field_in_order() {
    let e = Error::unprocessable_entity(&[
        ("email", "is invalid"),
        ("username", "is too short"),
        ("email", "is taken"),
        ("password", "is weak"),
        ("username", "is taken"),
        ("email", "is invalid"),
    ]);
    assert_eq!(
        entries(&e),
        vec![
            pair("email", &["is invalid", "is taken", "is invalid"]),
            pair("username", &["is too short", "is taken"]),
            pair("password", &["is weak"]),
        ]
    );
}

#[test]
fn fields_differ_by_case_and_may_be_empty() {
    let e = Error::unprocessable_entity(&[("a", "1"), ("A", "2"), ("", "3"), ("a", ""), ("", "")]);
    assert_eq!(
        entries(&e),
        vec![pair("a", &["1", ""]), pair("A", &["2"]), pair("", &["3", ""])]
    );
}

#[test]
fn broke_tells_the_constraint() {
    let e = Error::Database { constraint: Some("user_email_key".to_string()) };
    assert!(e.broke("user_email_key"));
    assert!(!e.broke("user_username_key"));
    assert!(!e.broke("user_email_ke"));
    assert!(!e.broke(""));
    assert!(!Error::Database { constraint: None }.broke("user_email_key"));
    assert!(!Error::Database { constraint: None }.broke(""));
    assert!(!Error::Internal.broke("user_email_key"));
    assert!(!Error::Forbidden.broke("user_email_key"));
}

#[test]
fn on_constraint_replaces_the_named_violation_only() {
    let broken: Result<u8, Error> =
        Err(Error::Database { constraint: Some("user_cannot_follow_self".to_string()) });
    assert!(matches!(
        on_constraint(broken, "user_cannot_follow_self", Error::Forbidden),
        Err(Error::Forbidden)
    ));

    let other: Result<u8, Error> =
        Err(Error::Database { constraint: Some("article_slug_key".to_string()) });
    match on_constraint(other, "user_cannot_follow_self", Error::Forbidden) {
        Err(Error::Database { constraint }) => {
            assert_eq!(constraint.as_deref(), Some("article_slug_key"))
        }
        other => panic!("{:?}", other),
    }

    let unnamed: Result<u8, Error> = Err(Error::Database { constraint: None });
    assert!(matches!(
        on_constraint(unnamed, "x", Error::Forbidden),
        Err(Error::Database { constraint: None })
    ));

    let fine: Result<u8, Error> = Ok(3);
    assert!(matches!(on_constraint(fine, "x", Error::Forbidden), Ok(3)));

    let not_found: Result<u8, Error> = Err(Error::NotFound);
    assert!(matches!(
        on_constraint(not_found, "x", Error::Forbidden),
        Err(Error::NotFound)
    ));
}

#[test]
fn on_constraint_chains() {
    let taken = |name: &str| -> Result<u8, Error> {
        let result: Result<u8, Error> =
            Err(Error::Database { constraint: Some(name.to_string()) });
        let result = on_constraint(result, "user_username_key", field_error("username", "username taken"));
        on_constraint(result, "user_email_key", field_error("email", "email taken"))
    };
    assert_eq!(
        entries(&taken("user_username_key").unwrap_err()),
        vec![pair("username", &["username taken"])]
    );
    assert_eq!(
        entries(&taken("user_email_key").unwrap_err()),
        vec![pair("email", &["email taken"])]
    );
    assert!(matches!(taken("something_else"), Err(Error::Database { .. })));
}
