use badge_api::directory::User;
use badge_api::errors::ApiError;
use badge_api::registrar::{login, signup};

fn stored(email: &str, password: &str, id: &str) -> User {
    User {
        email: email.to_string(),
        password: password.to_string(),
        id: Some(id.to_string()),
        full_name: None,
        university: None,
        major: None,
        graduation_date: None,
        github: None,
    }
}

#[test]
fn signup_rejects_empty_email() {
    let users: Vec<User> = Vec::new();
    let r = signup(&users, &"".to_string(), &"pw".to_string());
    assert_eq!(r.err(), Some(ApiError::Validation));
}

#[test]
fn signup_rejects_empty_password() {
    let users: Vec<User> = Vec::new();
    let r = signup(&users, &"a@x.com".to_string(), &"".to_string());
    assert_eq!(r.err(), Some(ApiError::Validation));
}

#[test]
fn signup_creates_fresh_record() {
    let users: Vec<User> = Vec::new();
    let u = signup(&users, &"a@x.com".to_string(), &"pw".to_string()).unwrap();
    assert_eq!(u.email, "a@x.com".to_string());
    assert_eq!(u.password, "pw".to_string());
    let id = u.id.expect("signup must assign an id");
    assert_eq!(id.len(), 36);
    assert!(u.full_name.is_none());
    assert!(u.university.is_none());
    assert!(u.major.is_none());
    assert!(u.graduation_date.is_none());
    assert!(u.github.is_none());
}

#[test]
fn duplicate_signup_conflicts() {
    let mut users: Vec<User> = Vec::new();
    let first = signup(&users, &"a@x.com".to_string(), &"pw".to_string()).unwrap();
    users.push(first);
    let second = signup(&users, &"a@x.com".to_string(), &"other".to_string());
    assert_eq!(second.err(), Some(ApiError::Conflict));
}

#[test]
fn distinct_emails_both_sign_up() {
    let mut users: Vec<User> = Vec::new();
    let first = signup(&users, &"a@x.com".to_string(), &"pw".to_string()).unwrap();
    users.push(first);
    assert!(signup(&users, &"b@x.com".to_string(), &"pw".to_string()).is_ok());
}

#[test]
fn login_with_correct_password_finds_record() {
    let users = vec![stored("a@x.com", "p", "id-1"), stored("b@x.com", "q", "id-2")];
    let found = login(&users, &"a@x.com".to_string(), &"p".to_string()).unwrap();
    assert_eq!(found.id, Some("id-1".to_string()));
}

#[test]
fn login_with_wrong_password_rejected() {
    let users = vec![stored("a@x.com", "p", "id-1")];
    let r = login(&users, &"a@x.com".to_string(), &"wrong".to_string());
    assert_eq!(r.err(), Some(ApiError::Authentication));
}

#[test]
fn login_with_unknown_email_rejected() {
    let users = vec![stored("a@x.com", "p", "id-1")];
    let r = login(&users, &"nobody@x.com".to_string(), &"p".to_string());
    assert_eq!(r.err(), Some(ApiError::Authentication));
}

#[test]
fn login_returns_first_matching_record() {
    let users = vec![stored("a@x.com", "p", "id-1"), stored("a@x.com", "p", "id-2")];
    let found = login(&users, &"a@x.com".to_string(), &"p".to_string()).unwrap();
    assert_eq!(found.id, Some("id-1".to_string()));
}
