use gaia::error::{ApiError, StatusCode};
use gaia::models::users::{PostUserRequest, PutUserRequest, User};
use gaia::repository::{insert_user, select_user, update_user, Column, UserChanges};
use gaia::routes::user_routes::{get_user, post_user, post_user_plan, put_user, put_user_plan};

const RETURNING: &str = "RETURNING id, username, password, email, first_name, last_name";

fn nothing() -> UserChanges {
    UserChanges { username: None, password: None, email: None, first_name: None, last_name: None }
}

#[test]
fn insert_carries_the_six_values() {
    let user = User {
        id: 0x0190_0000_0000_7000_8000_0000_0000_0001,
        username: "gettestuser".to_string(),
        password: "$argon2id$hash".to_string(),
        email: "gettest@example.com".to_string(),
        first_name: "Get".to_string(),
        last_name: "Test".to_string(),
    };
    let statement = insert_user(user);
    assert_eq!(
        statement.sql,
        "INSERT INTO users (id, username, password, email, first_name, last_name) \
         VALUES ($1, $2, $3, $4, $5, $6) \
         RETURNING id, username, password, email, first_name, last_name"
    );
    assert_eq!(statement.id, 0x0190_0000_0000_7000_8000_0000_0000_0001);
    assert_eq!(
        statement.params,
        vec!["gettestuser", "$argon2id$hash", "gettest@example.com", "Get", "Test"]
    );
}

#[test]
fn select_binds_the_id_alone() {
    let statement = select_user(42);
    assert_eq!(statement.sql, "SELECT * FROM users WHERE id = $1");
    assert_eq!(statement.id, 42);
    assert!(statement.params.is_empty());
    let statement = get_user(43);
    assert_eq!(statement.sql, "SELECT * FROM users WHERE id = $1");
    assert_eq!(statement.id, 43);
    assert!(statement.params.is_empty());
}

#[test]
fn update_of_one_column() {
    let changes = UserChanges { last_name: Some("User".to_string()), ..nothing() };
    let statement = update_user(7, changes);
    assert_eq!(
        statement.sql,
        format!("UPDATE users SET last_name = $2 WHERE id = $1 {}", RETURNING)
    );
    assert_eq!(statement.id, 7);
    assert_eq!(statement.params, vec!["User"]);
}

#[test]
fn update_of_every_column() {
    let changes = UserChanges {
        username: Some("u".to_string()),
        password: Some("$argon2id$p".to_string()),
        email: Some("e".to_string()),
        first_name: Some("f".to_string()),
        last_name: Some("l".to_string()),
    };
    let statement = update_user(8, changes);
    assert_eq!(
        statement.sql,
        format!(
            "UPDATE users SET username = $2, password = $3, email = $4, first_name = $5, \
             last_name = $6 WHERE id = $1 {}",
            RETURNING
        )
    );
    assert_eq!(statement.params, vec!["u", "$argon2id$p", "e", "f", "l"]);
}

#[test]
fn update_numbers_the_columns_that_are_there() {
    let changes = UserChanges {
        password: Some("$argon2id$p".to_string()),
        first_name: Some("f".to_string()),
        ..nothing()
    };
    let statement = update_user(9, changes);
    assert_eq!(
        statement.sql,
        format!("UPDATE users SET password = $2, first_name = $3 WHERE id = $1 {}", RETURNING)
    );
    assert_eq!(statement.params, vec!["$argon2id$p", "f"]);
}

#[test]
fn update_of_no_column_fetches() {
    let statement = update_user(10, nothing());
    assert_eq!(statement.sql, "SELECT * FROM users WHERE id = $1");
    assert_eq!(statement.id, 10);
    assert!(statement.params.is_empty());
}

#[test]
fn column_names() {
    assert_eq!(Column::Username.as_str(), "username");
    assert_eq!(Column::Password.as_str(), "password");
    assert_eq!(Column::Email.as_str(), "email");
    assert_eq!(Column::FirstName.as_str(), "first_name");
    assert_eq!(Column::LastName.as_str(), "last_name");
}

#[test]
fn request_becomes_record() {
    let request = PutUserRequest {
        username: "u".to_string(),
        password: "typed".to_string(),
        email: "e".to_string(),
        first_name: "f".to_string(),
        last_name: "l".to_string(),
    };
    let user = request.into_user(77, "$argon2id$h".to_string());
    assert_eq!(user.id, 77);
    assert_eq!(user.username, "u");
    assert_eq!(user.password, "$argon2id$h");
    assert_eq!(user.email, "e");
    assert_eq!(user.first_name, "f");
    assert_eq!(user.last_name, "l");
}

#[test]
fn request_becomes_changes() {
    let request = PostUserRequest {
        username: None,
        password: Some("typed".to_string()),
        email: Some("e".to_string()),
        first_name: None,
        last_name: None,
    };
    let changes = request.clone().into_changes(Some("$argon2id$h".to_string()));
    assert_eq!(changes.username, None);
    assert_eq!(changes.password, Some("$argon2id$h".to_string()));
    assert_eq!(changes.email, Some("e".to_string()));
    assert_eq!(changes.first_name, None);
    assert_eq!(changes.last_name, None);
    let changes = request.into_changes(None);
    assert_eq!(changes.password, None);
}

#[test]
fn create_plans_an_insert_of_the_hash() {
    let request = PutUserRequest {
        username: "gettestuser".to_string(),
        password: "testpass".to_string(),
        email: "gettest@example.com".to_string(),
        first_name: "Get".to_string(),
        last_name: "Test".to_string(),
    };
    let statement = put_user(request).unwrap();
    assert!(statement.sql.starts_with("INSERT INTO users "));
    assert_eq!((statement.id >> 76) & 0xf, 7);
    assert_eq!((statement.id >> 62) & 0x3, 2);
    assert_eq!(statement.params.len(), 5);
    assert_eq!(statement.params[0], "gettestuser");
    assert_ne!(statement.params[1], "testpass");
    assert!(statement.params[1].starts_with("$argon2id$v=19$m=19456,t=2,p=1$"));
    assert_eq!(statement.params[2], "gettest@example.com");
    assert_eq!(statement.params[3], "Get");
    assert_eq!(statement.params[4], "Test");
}

#[test]
fn update_plans_only_what_the_request_has() {
    let request = PostUserRequest {
        username: None,
        password: None,
        email: None,
        first_name: None,
        last_name: Some("User".to_string()),
    };
    let statement = post_user(11, request).unwrap();
    assert_eq!(
        statement.sql,
        format!("UPDATE users SET last_name = $2 WHERE id = $1 {}", RETURNING)
    );
    assert_eq!(statement.id, 11);
    assert_eq!(statement.params, vec!["User"]);
}

#[test]
fn update_plans_the_hash_of_a_password() {
    let request = PostUserRequest {
        username: Some("u".to_string()),
        password: Some("testpass".to_string()),
        email: None,
        first_name: None,
        last_name: None,
    };
    let statement = post_user(12, request).unwrap();
    assert_eq!(
        statement.sql,
        format!("UPDATE users SET username = $2, password = $3 WHERE id = $1 {}", RETURNING)
    );
    assert_eq!(statement.params[0], "u");
    assert_ne!(statement.params[1], "testpass");
    assert!(statement.params[1].starts_with("$argon2id$v=19$m=19456,t=2,p=1$"));
}

fn typed_request() -> PutUserRequest {
    PutUserRequest {
        username: "gettestuser".to_string(),
        password: "testpass".to_string(),
        email: "gettest@example.com".to_string(),
        first_name: "Get".to_string(),
        last_name: "Test".to_string(),
    }
}

#[test]
fn create_plan_stores_the_hash_it_is_given() {
    let statement =
        put_user_plan(typed_request(), 7, Ok("$argon2id$given".to_string())).unwrap();
    assert!(statement.sql.starts_with("INSERT INTO users "));
    assert_eq!(statement.id, 7);
    assert_eq!(
        statement.params,
        vec!["gettestuser", "$argon2id$given", "gettest@example.com", "Get", "Test"]
    );
    assert!(statement.params.iter().all(|param| param != "testpass"));
}

#[test]
fn create_plan_fails_as_hashing_failed() {
    let failure =
        put_user_plan(typed_request(), 7, Err(ApiError::Hash("no hash".to_string()))).unwrap_err();
    assert!(matches!(failure, ApiError::Hash(_)));
    assert_eq!(failure.into_response(), (StatusCode::InternalServerError, "no hash".to_string()));
}

#[test]
fn update_plan_writes_the_password_only_as_hash() {
    let request = PostUserRequest {
        username: None,
        password: Some("testpass".to_string()),
        email: Some("e".to_string()),
        first_name: None,
        last_name: None,
    };
    let statement =
        post_user_plan(3, request.clone(), Some(Ok("$argon2id$given".to_string()))).unwrap();
    assert_eq!(
        statement.sql,
        format!("UPDATE users SET password = $2, email = $3 WHERE id = $1 {}", RETURNING)
    );
    assert_eq!(statement.id, 3);
    assert_eq!(statement.params, vec!["$argon2id$given", "e"]);

    let statement = post_user_plan(3, request.clone(), None).unwrap();
    assert_eq!(statement.sql, format!("UPDATE users SET email = $2 WHERE id = $1 {}", RETURNING));
    assert_eq!(statement.params, vec!["e"]);

    let failure =
        post_user_plan(3, request, Some(Err(ApiError::Hash("no hash".to_string())))).unwrap_err();
    assert_eq!(failure.into_response(), (StatusCode::InternalServerError, "no hash".to_string()));
}
