use badge_api::directory::User;
use badge_api::errors::ApiError;
use badge_api::profiles::{create_badge, get_profile, BadgeDetails};
use badge_api::token::{TokenService, WEEK_IN_SECONDS};

fn service() -> TokenService {
    TokenService::new(b"a test signing secret".to_vec())
}

fn stored(email: &str, password: &str, id: &str) -> User {
    User {
        email: email.to_string(),
        password: password.to_string(),
        id: Some(id.to_string()),
        full_name: None,
        university: None,
        major: None,
        graduation_date: None,
        github: None,
    }
}

fn details(full_name: &str, university: &str, major: &str, graduation_date: u64, github: &str) -> BadgeDetails {
    BadgeDetails {
        full_name: full_name.to_string(),
        university: university.to_string(),
        major: major.to_string(),
        graduation_date,
        github: github.to_string(),
    }
}

#[test]
fn create_badge_overwrites_the_five_fields() {
    let svc = service();
    let users = vec![stored("a@x.com", "p", "id-1")];
    let token = svc.issue(&"id-1".to_string(), 1_000).unwrap();
    let d = details("Ada", "Uni", "Math", 2_027, "ada");
    let updated = create_badge(&users, &token, &d, &svc, 1_000).unwrap();
    assert_eq!(updated.email, "a@x.com".to_string());
    assert_eq!(updated.password, "p".to_string());
    assert_eq!(updated.id, Some("id-1".to_string()));
    assert_eq!(updated.full_name, Some("Ada".to_string()));
    assert_eq!(updated.university, Some("Uni".to_string()));
    assert_eq!(updated.major, Some("Math".to_string()));
    assert_eq!(updated.graduation_date, Some(2_027));
    assert_eq!(updated.github, Some("ada".to_string()));
}

#[test]
fn second_badge_replaces_the_first_wholesale() {
    let svc = service();
    let mut users = vec![stored("a@x.com", "p", "id-1")];
    let token = svc.issue(&"id-1".to_string(), 1_000).unwrap();
    let first = details("Ada", "Uni", "Math", 2_027, "ada");
    let after_first = create_badge(&users, &token, &first, &svc, 1_000).unwrap();
    users[0] = after_first;
    let second = details("Grace", "Other", "CS", 2_028, "grace");
    let after_second = create_badge(&users, &token, &second, &svc, 1_000).unwrap();
    assert_eq!(after_second.full_name, Some("Grace".to_string()));
    assert_eq!(after_second.university, Some("Other".to_string()));
    assert_eq!(after_second.major, Some("CS".to_string()));
    assert_eq!(after_second.graduation_date, Some(2_028));
    assert_eq!(after_second.github, Some("grace".to_string()));
}

#[test]
fn create_badge_rejects_empty_full_name() {
    let svc = service();
    let users = vec![stored("a@x.com", "p", "id-1")];
    let token = svc.issue(&"id-1".to_string(), 1_000).unwrap();
    let d = details("", "Uni", "Math", 2_027, "ada");
    let r = create_badge(&users, &token, &d, &svc, 1_000);
    assert_eq!(r.err(), Some(ApiError::Validation));
}

#[test]
fn create_badge_rejects_bad_token() {
    let svc = service();
    let users = vec![stored("a@x.com", "p", "id-1")];
    let d = details("Ada", "Uni", "Math", 2_027, "ada");
    let r = create_badge(&users, &"forged".to_string(), &d, &svc, 1_000);
    assert_eq!(r.err(), Some(ApiError::Authentication));
}

#[test]
fn create_badge_rejects_expired_token() {
    let svc = service();
    let users = vec![stored("a@x.com", "p", "id-1")];
    let token = svc.issue(&"id-1".to_string(), 1_000).unwrap();
    let d = details("Ada", "Uni", "Math", 2_027, "ada");
    let r = create_badge(&users, &token, &d, &svc, 1_000 + WEEK_IN_SECONDS + 1);
    assert_eq!(r.err(), Some(ApiError::Authentication));
}

#[test]
fn create_badge_reports_deleted_identity() {
    let svc = service();
    let users = vec![stored("a@x.com", "p", "id-1")];
    let token = svc.issue(&"id-gone".to_string(), 1_000).unwrap();
    let d = details("Ada", "Uni", "Math", 2_027, "ada");
    let r = create_badge(&users, &token, &d, &svc, 1_000);
    assert_eq!(r.err(), Some(ApiError::NotFound));
}

#[test]
fn get_profile_returns_badge_fields() {
    let mut user = stored("a@x.com", "p", "id-1");
    user.full_name = Some("Ada".to_string());
    user.university = Some("Uni".to_string());
    user.major = Some("Math".to_string());
    user.graduation_date = Some(2_027);
    user.github = Some("ada".to_string());
    let users = vec![user];
    let p = get_profile(&users, &"id-1".to_string()).unwrap();
    assert_eq!(p.id, "id-1".to_string());
    assert_eq!(p.full_name, Some("Ada".to_string()));
    assert_eq!(p.university, Some("Uni".to_string()));
    assert_eq!(p.major, Some("Math".to_string()));
    assert_eq!(p.graduation_date, Some(2_027));
    assert_eq!(p.github, Some("ada".to_string()));
}

#[test]
fn get_profile_of_unknown_id_rejected() {
    let users = vec![stored("a@x.com", "p", "id-1")];
    let r = get_profile(&users, &"id-2".to_string());
    assert_eq!(r.err(), Some(ApiError::NotFound));
}
