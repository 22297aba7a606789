use user_service::models::{NewUser, User};

#[test]
fn created_user_has_placeholder_id() {
    let new_user = NewUser { name: "Ada".to_string(), email: "ada@example.com".to_string() };
    let user = User::created_from(new_user);
    assert_eq!(user.id, 0);
    assert_eq!(user.name, "Ada");
    assert_eq!(user.email, "ada@example.com");
}

#[test]
fn created_user_keeps_empty_fields() {
    let user = User::created_from(NewUser { name: String::new(), email: String::new() });
    assert_eq!(user, User { id: 0, name: String::new(), email: String::new() });
}

#[test]
fn count_reaches_its_limit() {
    assert_eq!(user_service::load::count_to(0), 0);
    assert_eq!(user_service::load::count_to(100_000), 100_000);
}
